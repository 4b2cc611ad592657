//! Percent-encoding of file paths for `file://` URLs.
use vstd::prelude::*;
use vstd::string::StringSliceAdditionalSpecFns;

verus! {

/// Bytes kept as they are: ASCII letters (65-90, 97-122) and digits (48-57),
/// `-` (45), `_` (95), `.` (46), `~` (126) and `/` (47).
pub open spec fn is_unreserved(b: u8) -> bool {
    ||| (65u8 <= b <= 90u8)
    ||| (97u8 <= b <= 122u8)
    ||| (48u8 <= b <= 57u8)
    ||| b == 45u8
    ||| b == 95u8
    ||| b == 46u8
    ||| b == 126u8
    ||| b == 47u8
}

/// The uppercase hexadecimal digit of a value: `0`-`9`, then `A` onwards.
pub open spec fn hex_digit(value: u8) -> char {
    if value <= 9 {
        ((48u8 + value) as u8) as char
    } else {
        ((65u8 + (value - 10)) as u8) as char
    }
}

/// A byte as it appears in an encoded path: itself when unreserved, else
/// `%` followed by its two uppercase hex digits.
pub open spec fn encode_byte(b: u8) -> Seq<char> {
    if is_unreserved(b) {
        seq![b as char]
    } else {
        seq!['%', hex_digit(b / 16), hex_digit(b % 16)]
    }
}

/// Percent-encoding of a byte sequence, byte by byte.
pub open spec fn percent_encoded(bytes: Seq<u8>) -> Seq<char>
    decreases bytes.len(),
{
    if bytes.len() == 0 {
        Seq::empty()
    } else {
        percent_encoded(bytes.drop_last()) + encode_byte(bytes.last())
    }
}

/// Appends `c` to `s` with `String::push`.
#[verifier::external_body]
fn string_push(s: &mut String, c: char)
    ensures
        final(s)@ == old(s)@.push(c),
{
    s.push(c);
}

/// The hexadecimal digit of a value up to 200 (above, the letter would pass `u8`).
pub fn hex_nibble(value: u8) -> (r: char)
    requires
        value <= 200,
    ensures
        r == hex_digit(value),
{
    if value <= 9 {
        (48u8 + value) as char
    } else {
        (65u8 + (value - 10)) as char
    }
}

/// Percent-encodes the UTF-8 bytes of a path, keeping unreserved bytes.
pub fn percent_encode_url_path(path: &str) -> (r: String)
    ensures
        r@ == percent_encoded(path.spec_bytes()),
{
    let bytes = path.as_bytes();
    let mut encoded = String::new();
    let mut i: usize = 0;
    proof {
        assert(bytes@.take(0) =~= Seq::<u8>::empty());
    }
    while i < bytes.len()
        invariant
            i <= bytes@.len(),
            bytes@ == path.spec_bytes(),
            encoded@ == percent_encoded(bytes@.take(i as int)),
        decreases bytes@.len() - i,
    {
        let byte = bytes[i];
        proof {
            assert(bytes@.take(i + 1).drop_last() =~= bytes@.take(i as int));
        }
        if (65u8 <= byte && byte <= 90u8) || (97u8 <= byte && byte <= 122u8) || (48u8 <= byte && byte
            <= 57u8) || byte == 45u8 || byte == 95u8 || byte == 46u8 || byte == 126u8 || byte == 47u8 {
            string_push(&mut encoded, byte as char);
            proof {
                assert(encoded@ =~= percent_encoded(bytes@.take(i + 1)));
            }
        } else {
            string_push(&mut encoded, '%');
            string_push(&mut encoded, hex_nibble(byte / 16));
            string_push(&mut encoded, hex_nibble(byte % 16));
            proof {
                assert(encoded@ =~= percent_encoded(bytes@.take(i + 1)));
            }
        }
        i += 1;
    }
    proof {
        assert(bytes@.take(bytes@.len() as int) =~= bytes@);
    }
    encoded
}

/// The `file://` URL text of a path: the scheme, then the path
/// percent-encoded byte by byte.
pub fn file_url_string(path: &str) -> (r: String)
    ensures
        r@ == seq!['f', 'i', 'l', 'e', ':', '/', '/'] + percent_encoded(path.spec_bytes()),
{
    let mut url = String::new();
    string_push(&mut url, 'f');
    string_push(&mut url, 'i');
    string_push(&mut url, 'l');
    string_push(&mut url, 'e');
    string_push(&mut url, ':');
    string_push(&mut url, '/');
    string_push(&mut url, '/');
    let encoded = percent_encode_url_path(path);
    let ghost prefix = url@;
    assert(prefix =~= seq!['f', 'i', 'l', 'e', ':', '/', '/']);
    let ghost text = encoded@;
    for c in it: encoded.as_str().chars()
        invariant
            it.seq() == text,
            text == encoded@,
            prefix == seq!['f', 'i', 'l', 'e', ':', '/', '/'],
            url@ == prefix + text.take(it.index() as int),
    {
        string_push(&mut url, c);
        proof {
            assert(prefix + text.take(it.index() + 1) =~= (prefix + text.take(it.index() as int)).push(c));
        }
    }
    proof {
        assert(text.take(text.len() as int) =~= text);
    }
    url
}

/// Encoded paths hold only unreserved characters, `%` and uppercase hex digits.
pub proof fn lemma_percent_encoded_charset(bytes: Seq<u8>, i: int)
    requires
        0 <= i < percent_encoded(bytes).len(),
    ensures
        ({
            let c = percent_encoded(bytes)[i];
            ||| is_unreserved(c as u8) && (c as u32) < 128
            ||| c == '%'
            ||| ('0' <= c <= '9')
            ||| ('A' <= c <= 'F')
        }),
    decreases bytes.len(),
{
    let prev = percent_encoded(bytes.drop_last());
    if i < prev.len() {
        assert(percent_encoded(bytes)[i] == prev[i]);
        lemma_percent_encoded_charset(bytes.drop_last(), i);
    } else {
        let b = bytes.last();
        let k = i - prev.len();
        assert(percent_encoded(bytes)[i] == encode_byte(b)[k]);
        if !is_unreserved(b) && k > 0 {
            assert(b / 16 <= 15 && b % 16 <= 15);
        }
    }
}

} // verus!
