//! The digest value type: a fixed-width 32-byte hash value, the atomic
//! unit moved through the transcript.  Any byte pattern is a valid
//! digest; construction is from raw bytes or from a lowercase
//! hexadecimal string.

use vstd::prelude::*;

verus! {

/// A fixed-width 32-byte hash value.
#[derive(Clone, Debug, PartialEq, Eq)]
pub struct Digest {
    pub bytes: Vec<u8>,
}

/// A digest is well formed when it holds exactly 32 bytes.
pub open spec fn digest_wf(d: Digest) -> bool {
    d.bytes@.len() == 32
}

/// Whether `c` is a lowercase hexadecimal digit.
pub open spec fn is_hex_digit(c: char) -> bool {
    (48 <= c as u32 && c as u32 <= 57) || (97 <= c as u32 && c as u32 <= 102)
}

/// The value of one lowercase hexadecimal digit.
pub open spec fn hex_digit_val(c: char) -> u8 {
    if 48 <= c as u32 && c as u32 <= 57 {
        (c as u32 - 48) as u8
    } else {
        (c as u32 - 87) as u8
    }
}

/// Whether `s` is a valid hexadecimal spelling of a digest: exactly 64
/// lowercase hexadecimal digits, one per nibble.
pub open spec fn hex_ok(s: Seq<char>) -> bool {
    s.len() == 64 && forall|i: int| 0 <= i < s.len() ==> is_hex_digit(#[trigger] s[i])
}

/// The byte spelled by two hexadecimal digits, high nibble first.
pub open spec fn hex_byte(hi: char, lo: char) -> u8 {
    (hex_digit_val(hi) * 16 + hex_digit_val(lo)) as u8
}

/// The bytes spelled by a hexadecimal string, two digits per byte.
pub open spec fn hex_decode(s: Seq<char>) -> Seq<u8> {
    Seq::new(s.len() / 2, |i: int| hex_byte(s[2 * i], s[2 * i + 1]))
}

/// The value of one lowercase hexadecimal digit, or `None` where the
/// character is no such digit.
fn hex_val(c: char) -> (r: Option<u8>)
    ensures
        r is Some <==> is_hex_digit(c),
        r is Some ==> r->0 == hex_digit_val(c),
{
    let u = c as u32;
    if 48 <= u && u <= 57 {
        Some((u - 48) as u8)
    } else if 97 <= u && u <= 102 {
        Some((u - 87) as u8)
    } else {
        None
    }
}

impl Digest {
    /// The all-zero digest.
    pub fn zero() -> (r: Digest)
        ensures
            digest_wf(r),
            r.bytes@ == Seq::new(32, |i: int| 0u8),
    {
        let mut bytes: Vec<u8> = Vec::new();
        let mut i: usize = 0;
        while i < 32
            invariant
                i <= 32,
                bytes@.len() == i,
                forall|j: int| 0 <= j < i ==> bytes@[j] == 0u8,
            decreases 32 - i,
        {
            bytes.push(0u8);
            i += 1;
        }
        proof {
            assert(bytes@ =~= Seq::new(32, |i: int| 0u8));
        }
        Digest { bytes }
    }

    /// Wrap 32 raw bytes as a digest.
    pub fn from_bytes(bytes: Vec<u8>) -> (r: Digest)
        requires
            bytes@.len() == 32,
        ensures
            digest_wf(r),
            r.bytes@ == bytes@,
    {
        Digest { bytes }
    }

    /// The raw bytes of this digest.
    pub fn as_bytes(&self) -> (r: &Vec<u8>)
        ensures
            r@ == self.bytes@,
    {
        &self.bytes
    }

    /// Parse a digest from its hexadecimal spelling: exactly 64
    /// lowercase hexadecimal digits, high nibble of each byte first.
    /// Returns `None` on any other string.
    pub fn from_hex(s: &str) -> (r: Option<Digest>)
        ensures
            r is Some <==> hex_ok(s@),
            r is Some ==> digest_wf(r->0) && r->0.bytes@ == hex_decode(s@),
    {
        let len = s.unicode_len();
        if len != 64 {
            return None;
        }
        let mut bytes: Vec<u8> = Vec::new();
        let mut i: usize = 0;
        while i < 32
            invariant
                i <= 32,
                s@.len() == 64,
                bytes@.len() == i,
                forall|j: int|
                    0 <= j < i ==> is_hex_digit(#[trigger] s@[2 * j]) && is_hex_digit(
                        s@[2 * j + 1],
                    ) && bytes@[j] == hex_byte(s@[2 * j], s@[2 * j + 1]),
            decreases 32 - i,
        {
            let hi = match hex_val(s.get_char(2 * i)) {
                Some(v) => v,
                None => {
                    return None;
                },
            };
            let lo = match hex_val(s.get_char(2 * i + 1)) {
                Some(v) => v,
                None => {
                    return None;
                },
            };
            bytes.push(hi * 16 + lo);
            i += 1;
        }
        proof {
            assert forall|k: int| 0 <= k < s@.len() implies is_hex_digit(#[trigger] s@[k]) by {
                let j = k / 2;
                assert(0 <= j < 32);
                assert(is_hex_digit(s@[2 * j]) && is_hex_digit(s@[2 * j + 1]));
                if k % 2 == 0 {
                    assert(k == 2 * j);
                } else {
                    assert(k == 2 * j + 1);
                }
            }
            assert(bytes@ =~= hex_decode(s@));
        }
        Some(Digest { bytes })
    }
}

} // verus!
