//! Hex decoding and the keyed digest behind webhook signatures.

use vstd::prelude::*;
use hmac::Mac;

verus! {

/// Whether `c` is a hexadecimal digit, of either case.
pub open spec fn spec_is_hex_digit(c: char) -> bool {
    (48 <= c as u32 && c as u32 <= 57)  // '0' ..= '9'
    || (65 <= c as u32 && c as u32 <= 70)  // 'A' ..= 'F'
    || (97 <= c as u32 && c as u32 <= 102)  // 'a' ..= 'f'
}

/// The value of one hexadecimal digit.
pub open spec fn spec_hex_val(c: char) -> int {
    if 65 <= c as u32 && c as u32 <= 70 {
        c as u32 - 55
    } else if 97 <= c as u32 && c as u32 <= 102 {
        c as u32 - 87
    } else {
        c as u32 - 48
    }
}

/// What decoding a hex text yields: a byte for each pair of digits, or
/// nothing when the length is odd or any character is not a hex digit.
pub open spec fn spec_hex_decode(s: Seq<char>) -> Option<Seq<u8>>
    decreases s.len(),
{
    if s.len() % 2 != 0 {
        None
    } else if s.len() == 0 {
        Some(Seq::<u8>::empty())
    } else if spec_is_hex_digit(s[0]) && spec_is_hex_digit(s[1]) {
        match spec_hex_decode(s.skip(2)) {
            Some(rest) => Some(
                seq![(spec_hex_val(s[0]) * 16 + spec_hex_val(s[1])) as u8] + rest,
            ),
            None => None,
        }
    } else {
        None
    }
}

/// Relies on hex::decode: it turns pairs of hex digits, of either case,
/// into bytes, and refuses an odd length or any non-hex character.
#[verifier::external_body]
pub fn hex_decode(s: &str) -> (r: Option<Vec<u8>>)
    ensures
        match r {
            Some(v) => spec_hex_decode(s@) == Some(v@),
            None => spec_hex_decode(s@) is None,
        },
{
    hex::decode(s).ok()
}

/// The HMAC-SHA512 tag over a message under a key. The tag is a function
/// of the key and the message alone; what it is on given bytes only the
/// digest computation says.
pub uninterp spec fn hmac_sha512_of(key: Seq<u8>, msg: Seq<u8>) -> Seq<u8>;

/// Relies on hmac's Hmac over sha2's Sha512: the tag depends on the key
/// and the message alone, any key length is accepted, and SHA-512's
/// output is 64 bytes.
#[verifier::external_body]
pub fn hmac_sha512(key: &[u8], msg: &[u8]) -> (r: Vec<u8>)
    ensures
        r@ == hmac_sha512_of(key@, msg@),
        r@.len() == 64,
{
    let mut mac = <hmac::Hmac<sha2::Sha512> as hmac::Mac>::new_from_slice(key)
        .expect("any key length is accepted");
    mac.update(msg);
    mac.finalize().into_bytes().to_vec()
}

/// Compares two byte strings by their contents.
pub fn bytes_eq(a: &[u8], b: &[u8]) -> (r: bool)
    ensures
        r == (a@ == b@),
{
    if a.len() != b.len() {
        proof {
            assert(a@.len() != b@.len());
        }
        return false;
    }
    let n = a.len();
    let mut i: usize = 0;
    while i < n
        invariant
            n == a@.len(),
            n == b@.len(),
            0 <= i <= n,
            forall|j: int| 0 <= j < i ==> a@[j] == b@[j],
        decreases n - i,
    {
        if a[i] != b[i] {
            return false;
        }
        i += 1;
    }
    proof {
        assert(a@ =~= b@);
    }
    true
}

} // verus!
