//! Mip chain geometry and byte-size estimates of textures and depth targets.
use vstd::prelude::*;
use vstd::arithmetic::power2::{pow2, lemma_pow2_unfold, lemma_pow2_pos, lemma2_to64};
use vstd::arithmetic::div_mod::lemma_div_denominator;

verus! {

/// The larger of two numbers.
pub open spec fn larger(a: nat, b: nat) -> nat {
    if a >= b { a } else { b }
}

/// Number of levels of a full mip chain for a largest side of `size`:
/// one level, plus one per halving until the side reaches 1.
pub open spec fn mip_levels_for(size: nat) -> nat
    decreases size,
{
    if size <= 1 {
        1
    } else {
        1 + mip_levels_for(size / 2)
    }
}

/// A side length after `n` mip reductions, each halving and clamping to 1.
pub open spec fn halve_clamped(x: nat, n: nat) -> nat
    decreases n,
{
    if n == 0 {
        larger(x, 1)
    } else {
        larger(halve_clamped(x, (n - 1) as nat) / 2, 1)
    }
}

/// Ceiling of `a / b`.
pub open spec fn ceil_div(a: nat, b: nat) -> nat {
    a / b + if a % b == 0 { 0nat } else { 1nat }
}

/// `a * b`, capped at `u64::MAX`.
pub open spec fn sat_mul(a: nat, b: nat) -> nat {
    if a * b > u64::MAX { u64::MAX as nat } else { a * b }
}

/// `a + b`, capped at `u64::MAX`.
pub open spec fn sat_add(a: nat, b: nat) -> nat {
    if a + b > u64::MAX { u64::MAX as nat } else { a + b }
}

/// A full mip chain of a side below `2^n` has at most `n + 1` levels.
pub proof fn lemma_mip_levels_bound(size: nat, n: nat)
    requires
        size < pow2(n),
    ensures
        mip_levels_for(size) <= n + 1,
    decreases n,
{
    if size > 1 {
        if n == 0 {
            assert(pow2(0) == 1) by {
                lemma2_to64();
            }
        } else {
            lemma_pow2_unfold(n);
            lemma_mip_levels_bound(size / 2, (n - 1) as nat);
        }
    }
}

/// A side of at least 1 lies between the powers of two that its level count names.
pub proof fn lemma_mip_levels_power(size: nat)
    requires
        size >= 1,
    ensures
        pow2((mip_levels_for(size) - 1) as nat) <= size < pow2(mip_levels_for(size)),
    decreases size,
{
    if size == 1 {
        lemma2_to64();
    } else {
        lemma_mip_levels_power(size / 2);
        let l = mip_levels_for(size / 2);
        lemma_pow2_unfold(l);
        if l >= 1 {
            lemma_pow2_unfold(l);
        }
        assert(mip_levels_for(size) == 1 + l);
        assert(pow2((l + 1) as nat) == 2 * pow2(l)) by {
            lemma_pow2_unfold((l + 1) as nat);
        }
        assert(pow2(l) == 2 * pow2((l - 1) as nat)) by {
            lemma_pow2_unfold(l);
        }
    }
}

/// The number of levels of a full mip chain for a `width` x `height` texture.
pub fn max_mip_levels(width: u32, height: u32) -> (r: u32)
    ensures
        r == mip_levels_for(larger(width as nat, height as nat)),
        1 <= r <= 33,
{
    let mut levels: u32 = 1;
    let mut size: u32 = if width >= height { width } else { height };
    let ghost start: nat = size as nat;
    proof {
        lemma2_to64();
        lemma_mip_levels_bound(start, 32);
    }
    while size > 1
        invariant
            levels >= 1,
            levels - 1 + mip_levels_for(size as nat) == mip_levels_for(start),
            mip_levels_for(start) <= 33,
        decreases size,
    {
        size = size / 2;
        levels = levels + 1;
    }
    levels
}

/// A side after `n` mip reductions is the side divided by `2^n`, at least 1.
pub proof fn lemma_halve_clamped_closed_form(x: nat, n: nat)
    ensures
        halve_clamped(x, n) == larger(x / pow2(n), 1),
    decreases n,
{
    lemma_pow2_pos(n);
    if n == 0 {
        lemma2_to64();
    } else {
        let m = (n - 1) as nat;
        lemma_halve_clamped_closed_form(x, m);
        lemma_pow2_pos(m);
        lemma_pow2_unfold(n);
        lemma_div_denominator(x as int, pow2(m) as int, 2);
        assert(x / pow2(n) == (x / pow2(m)) / 2);
    }
}

/// Width and height of mip level `level` of a `width` x `height` texture.
pub fn mip_level_size(width: u32, height: u32, level: u32) -> (r: (u32, u32))
    ensures
        r.0 == halve_clamped(width as nat, level as nat),
        r.1 == halve_clamped(height as nat, level as nat),
{
    let mut level_width: u32 = if width >= 1 { width } else { 1 };
    let mut level_height: u32 = if height >= 1 { height } else { 1 };
    let mut i: u32 = 0;
    while i < level
        invariant
            i <= level,
            level_width == halve_clamped(width as nat, i as nat),
            level_height == halve_clamped(height as nat, i as nat),
        decreases level - i,
    {
        level_width = if level_width / 2 >= 1 { level_width / 2 } else { 1 };
        level_height = if level_height / 2 >= 1 { level_height / 2 } else { 1 };
        i += 1;
    }
    (level_width, level_height)
}

/// Ceiling division of `a` by a non-zero `b`.
pub fn div_ceil(a: u32, b: u32) -> (r: u32)
    requires
        b > 0,
    ensures
        r == ceil_div(a as nat, b as nat),
{
    if a % b == 0 {
        a / b
    } else {
        assert(a / b < a || b == 1) by (nonlinear_arith)
            requires
                b > 0,
                a % b != 0,
        ;
        a / b + 1
    }
}

/// `a * b`, or `u64::MAX` when the product does not fit.
pub fn saturating_mul_u64(a: u64, b: u64) -> (r: u64)
    ensures
        r == sat_mul(a as nat, b as nat),
{
    match a.checked_mul(b) {
        Some(p) => p,
        None => u64::MAX,
    }
}

/// Estimated bytes of one mip level: its blocks times the block size, times layers.
pub open spec fn level_bytes(
    width: nat,
    height: nat,
    layers: nat,
    block_width: nat,
    block_height: nat,
    bytes_per_block: nat,
) -> nat {
    sat_mul(
        sat_mul(sat_mul(ceil_div(width, block_width), ceil_div(height, block_height)), bytes_per_block),
        layers,
    )
}

/// Estimated bytes of one mip level of a texture, saturating at `u64::MAX`.
pub fn texture_level_estimate_bytes(
    width: u32,
    height: u32,
    array_layer_count: u32,
    block_width: u32,
    block_height: u32,
    bytes_per_block: u32,
) -> (r: u64)
    requires
        block_width > 0,
        block_height > 0,
    ensures
        r == level_bytes(
            width as nat,
            height as nat,
            array_layer_count as nat,
            block_width as nat,
            block_height as nat,
            bytes_per_block as nat,
        ),
{
    let blocks_w = div_ceil(width, block_width);
    let blocks_h = div_ceil(height, block_height);
    let area = saturating_mul_u64(blocks_w as u64, blocks_h as u64);
    let bytes = saturating_mul_u64(area, bytes_per_block as u64);
    saturating_mul_u64(bytes, array_layer_count as u64)
}

/// Estimated bytes of the first `count` mip levels, saturating at `u64::MAX`.
pub open spec fn mip_chain_bytes(
    width: nat,
    height: nat,
    layers: nat,
    count: nat,
    block_width: nat,
    block_height: nat,
    bytes_per_block: nat,
) -> nat
    decreases count,
{
    if count == 0 {
        0
    } else {
        let level = (count - 1) as nat;
        sat_add(
            mip_chain_bytes(width, height, layers, level, block_width, block_height, bytes_per_block),
            level_bytes(
                halve_clamped(width, level),
                halve_clamped(height, level),
                layers,
                block_width,
                block_height,
                bytes_per_block,
            ),
        )
    }
}

/// Exact bytes of one layer of the first `count` mip levels: for each
/// level, its blocks across times its blocks down times the block's bytes.
pub open spec fn layer_chain_bytes(
    width: nat,
    height: nat,
    count: nat,
    block_width: nat,
    block_height: nat,
    bytes_per_block: nat,
) -> nat
    decreases count,
{
    if count == 0 {
        0
    } else {
        let level = (count - 1) as nat;
        layer_chain_bytes(width, height, level, block_width, block_height, bytes_per_block) + ceil_div(
            halve_clamped(width, level),
            block_width,
        ) * ceil_div(halve_clamped(height, level), block_height) * bytes_per_block
    }
}

proof fn lemma_level_bytes_exact(blocks_w: nat, blocks_h: nat, bytes: nat, layers: nat)
    requires
        layers * (blocks_w * blocks_h * bytes) <= u64::MAX,
    ensures
        sat_mul(sat_mul(sat_mul(blocks_w, blocks_h), bytes), layers) == layers * (blocks_w * blocks_h * bytes),
{
    if layers == 0 {
        assert(sat_mul(sat_mul(sat_mul(blocks_w, blocks_h), bytes), layers) == 0) by (nonlinear_arith)
            requires layers == 0;
        assert(layers * (blocks_w * blocks_h * bytes) == 0) by (nonlinear_arith)
            requires layers == 0;
    } else if bytes == 0 {
        assert(sat_mul(blocks_w, blocks_h) * bytes == 0) by (nonlinear_arith)
            requires bytes == 0;
        assert(layers * (blocks_w * blocks_h * bytes) == 0) by (nonlinear_arith)
            requires bytes == 0;
    } else {
        assert(blocks_w * blocks_h <= blocks_w * blocks_h * bytes) by (nonlinear_arith)
            requires bytes >= 1;
        assert(blocks_w * blocks_h * bytes <= layers * (blocks_w * blocks_h * bytes)) by (nonlinear_arith)
            requires layers >= 1;
        assert(blocks_w * blocks_h * bytes * layers == layers * (blocks_w * blocks_h * bytes)) by (nonlinear_arith);
    }
}

/// While nothing saturates, the estimate of a mip chain with `layers`
/// layers is `layers` times the exact bytes of one layer of the chain.
pub proof fn lemma_mip_chain_scales_with_layers(
    width: nat,
    height: nat,
    layers: nat,
    count: nat,
    block_width: nat,
    block_height: nat,
    bytes_per_block: nat,
)
    requires
        layers * layer_chain_bytes(width, height, count, block_width, block_height, bytes_per_block) <= u64::MAX,
    ensures
        mip_chain_bytes(width, height, layers, count, block_width, block_height, bytes_per_block) == layers
            * layer_chain_bytes(width, height, count, block_width, block_height, bytes_per_block),
    decreases count,
{
    if count > 0 {
        let level = (count - 1) as nat;
        let earlier = layer_chain_bytes(width, height, level, block_width, block_height, bytes_per_block);
        let bw = ceil_div(halve_clamped(width, level), block_width);
        let bh = ceil_div(halve_clamped(height, level), block_height);
        let here = bw * bh * bytes_per_block;
        assert(layers * (earlier + here) == layers * earlier + layers * here) by (nonlinear_arith);
        assert(layers * earlier >= 0 && layers * here >= 0) by (nonlinear_arith);
        assert(layer_chain_bytes(width, height, count, block_width, block_height, bytes_per_block) == earlier + here);
        lemma_mip_chain_scales_with_layers(width, height, layers, level, block_width, block_height, bytes_per_block);
        lemma_level_bytes_exact(bw, bh, bytes_per_block, layers);
        assert(level_bytes(halve_clamped(width, level), halve_clamped(height, level), layers, block_width, block_height, bytes_per_block)
            == layers * here);
        assert(mip_chain_bytes(width, height, layers, count, block_width, block_height, bytes_per_block)
            == sat_add(layers * earlier, layers * here));
    } else {
        assert(layers * 0 == 0) by (nonlinear_arith);
    }
}

/// Estimated bytes of a texture's whole mip chain, saturating at `u64::MAX`.
pub fn texture_mip_chain_estimate_bytes(
    width: u32,
    height: u32,
    array_layer_count: u32,
    mip_level_count: u32,
    block_width: u32,
    block_height: u32,
    bytes_per_block: u32,
) -> (r: u64)
    requires
        block_width > 0,
        block_height > 0,
    ensures
        r == mip_chain_bytes(
            width as nat,
            height as nat,
            array_layer_count as nat,
            mip_level_count as nat,
            block_width as nat,
            block_height as nat,
            bytes_per_block as nat,
        ),
        array_layer_count * layer_chain_bytes(
            width as nat,
            height as nat,
            mip_level_count as nat,
            block_width as nat,
            block_height as nat,
            bytes_per_block as nat,
        ) <= u64::MAX ==> r == array_layer_count * layer_chain_bytes(
            width as nat,
            height as nat,
            mip_level_count as nat,
            block_width as nat,
            block_height as nat,
            bytes_per_block as nat,
        ),
{
    proof {
        if array_layer_count * layer_chain_bytes(
            width as nat,
            height as nat,
            mip_level_count as nat,
            block_width as nat,
            block_height as nat,
            bytes_per_block as nat,
        ) <= u64::MAX {
            lemma_mip_chain_scales_with_layers(
                width as nat,
                height as nat,
                array_layer_count as nat,
                mip_level_count as nat,
                block_width as nat,
                block_height as nat,
                bytes_per_block as nat,
            );
        }
    }
    let mut total_bytes: u64 = 0;
    let mut level: u32 = 0;
    while level < mip_level_count
        invariant
            level <= mip_level_count,
            block_width > 0,
            block_height > 0,
            total_bytes == mip_chain_bytes(
                width as nat,
                height as nat,
                array_layer_count as nat,
                level as nat,
                block_width as nat,
                block_height as nat,
                bytes_per_block as nat,
            ),
        decreases mip_level_count - level,
    {
        let (level_width, level_height) = mip_level_size(width, height, level);
        let bytes = texture_level_estimate_bytes(
            level_width,
            level_height,
            array_layer_count,
            block_width,
            block_height,
            bytes_per_block,
        );
        total_bytes = total_bytes.saturating_add(bytes);
        level += 1;
    }
    total_bytes
}

/// Estimated bytes of a depth target: four bytes per sample, each side and
/// the sample count taken as at least 1, saturating at `u64::MAX`.
pub open spec fn depth_bytes(width: nat, height: nat, sample_count: nat) -> nat {
    sat_mul(sat_mul(sat_mul(larger(width, 1), larger(height, 1)), 4), larger(sample_count, 1))
}

/// Estimated bytes of a depth target.
pub fn depth_target_estimate_bytes(width: u32, height: u32, sample_count: u32) -> (r: u64)
    ensures
        r == depth_bytes(width as nat, height as nat, sample_count as nat),
{
    let w: u64 = if width >= 1 { width as u64 } else { 1 };
    let h: u64 = if height >= 1 { height as u64 } else { 1 };
    let s: u64 = if sample_count >= 1 { sample_count as u64 } else { 1 };
    saturating_mul_u64(saturating_mul_u64(saturating_mul_u64(w, h), 4), s)
}

/// The last level of a full mip chain is 1 x 1.
pub proof fn lemma_full_mip_chain_ends_at_one(width: nat, height: nat)
    ensures
        halve_clamped(width, (mip_levels_for(larger(width, height)) - 1) as nat) == 1,
        halve_clamped(height, (mip_levels_for(larger(width, height)) - 1) as nat) == 1,
{
    let s = larger(width, height);
    let n = (mip_levels_for(s) - 1) as nat;
    lemma_halve_clamped_closed_form(width, n);
    lemma_halve_clamped_closed_form(height, n);
    lemma_pow2_pos(n);
    if s >= 1 {
        lemma_mip_levels_power(s);
        lemma_pow2_unfold(mip_levels_for(s));
        assert(s < 2 * pow2(n));
        assert(width / pow2(n) <= 1) by (nonlinear_arith)
            requires
                width <= s,
                s < 2 * pow2(n),
                pow2(n) > 0,
        ;
        assert(height / pow2(n) <= 1) by (nonlinear_arith)
            requires
                height <= s,
                s < 2 * pow2(n),
                pow2(n) > 0,
        ;
    } else {
        assert(width == 0 && height == 0);
    }
}

/// Each mip level is no larger than the one before it.
pub proof fn lemma_mip_levels_shrink(x: nat, n: nat)
    ensures
        halve_clamped(x, n + 1) <= halve_clamped(x, n),
        halve_clamped(x, n) >= 1,
    decreases n,
{
    if n > 0 {
        lemma_mip_levels_shrink(x, (n - 1) as nat);
    }
}

} // verus!
