//! A builder for 16-byte aligned uniform buffers.
use vstd::prelude::*;
use std::sync::Arc;

verus! {

/// Helper for building 16-byte aligned uniform buffers.
#[derive(Debug, Clone)]
pub struct CustomUniformBuilder {
    data: Vec<u8>,
}

impl View for CustomUniformBuilder {
    type V = Seq<u8>;

    closed spec fn view(&self) -> Seq<u8> {
        self.data@
    }
}

/// Zero bytes needed to bring `len` to a multiple of 16.
pub open spec fn padding_for(len: nat) -> nat {
    if len % 16 == 0 { 0 } else { (16 - len % 16) as nat }
}

/// `n` zero bytes.
pub open spec fn zeros(n: nat) -> Seq<u8> {
    Seq::new(n, |i: int| 0u8)
}

/// Shares the bytes of `v` with `Arc::from`.
#[verifier::external_body]
fn arc_from_vec(v: Vec<u8>) -> (r: Arc<[u8]>)
    ensures
        r@ == v@,
{
    Arc::from(v)
}

impl CustomUniformBuilder {
    /// Create a new uniform builder.
    pub fn new() -> (r: Self)
        ensures
            r@ == Seq::<u8>::empty(),
    {
        CustomUniformBuilder { data: Vec::new() }
    }

    /// Append raw bytes to the uniform buffer.
    pub fn push_bytes(&mut self, bytes: &[u8]) -> (r: &mut Self)
        ensures
            final(r)@ == final(self)@,
            r@ == old(self)@ + bytes@,
    {
        let ghost before = self.data@;
        self.data.extend_from_slice(bytes);
        proof {
            assert forall|i: int| 0 <= i < self.data@.len() implies #[trigger] self.data@[i] == (before
                + bytes@)[i] by {
                if i >= before.len() {
                    assert(cloned::<u8>(bytes@[i - before.len()], self.data@[i]));
                }
            }
            assert(self.data@ =~= before + bytes@);
        }
        self
    }

    /// Current size in bytes (before padding).
    pub fn len(&self) -> (r: usize)
        ensures
            r == self@.len(),
    {
        self.data.len()
    }

    /// Returns true if empty.
    pub fn is_empty(&self) -> (r: bool)
        ensures
            r == (self@.len() == 0),
    {
        self.data.len() == 0
    }

    /// Finalize the buffer, padding to 16-byte alignment with zero bytes.
    pub fn finish(self) -> (r: Arc<[u8]>)
        ensures
            r@ == self@ + zeros(padding_for(self@.len())),
    {
        let mut data = self.data;
        let ghost before = data@;
        let remainder = data.len() % 16;
        let pad: usize = if remainder != 0 { 16 - remainder } else { 0 };
        let mut k: usize = 0;
        while k < pad
            invariant
                k <= pad,
                pad == padding_for(before.len()),
                data@ == before + zeros(k as nat),
            decreases pad - k,
        {
            data.push(0u8);
            proof {
                assert(data@ =~= before + zeros((k + 1) as nat));
            }
            k += 1;
        }
        arc_from_vec(data)
    }
}

impl Default for CustomUniformBuilder {
    fn default() -> (r: Self)
        ensures
            r@ == Seq::<u8>::empty(),
    {
        CustomUniformBuilder { data: Vec::new() }
    }
}

/// A finished uniform buffer is 16-byte aligned, keeps the pushed bytes in
/// order, and adds fewer than 16 zero bytes: its length is at least the
/// builder's length before padding and less than that plus 16.
pub proof fn lemma_finish_aligned(pushed: Seq<u8>)
    ensures
        pushed.len() <= (pushed + zeros(padding_for(pushed.len()))).len() < pushed.len() + 16,
        (pushed + zeros(padding_for(pushed.len()))).len() % 16 == 0,
        (pushed + zeros(padding_for(pushed.len()))).subrange(0, pushed.len() as int) == pushed,
        padding_for(pushed.len()) < 16,
{
    assert((pushed + zeros(padding_for(pushed.len()))).subrange(0, pushed.len() as int) =~= pushed);
}

} // verus!
