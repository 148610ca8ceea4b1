//! Decoding of the creation acknowledgment payload.
//!
//! The host reports an instantiated child through a binary envelope in
//! protobuf wire format; its field 1 (length-delimited) carries the
//! child contract's address. The decoder walks the fields, skips the
//! ones it does not know, and yields the last field-1 payload. A
//! truncated buffer, an over-long length prefix or an unsupported wire
//! type is malformed and yields nothing.

use vstd::prelude::*;

verus! {

/// Base-128 varints are accepted up to this many bytes; that covers
/// every length a real envelope can carry and keeps every decoded
/// value below `2^35`.
pub const VARINT_MAX_BYTES: u32 = 5;

/// The value and end position of the varint starting at `i`, given the
/// remaining byte allowance, or nothing if the buffer ends or the
/// allowance runs out first.
pub open spec fn spec_varint_at(s: Seq<u8>, i: int, allow: nat) -> Option<(nat, int)>
    decreases allow,
{
    if allow == 0 || i < 0 || i >= s.len() {
        None
    } else if s[i] < 0x80 {
        Some((s[i] as nat, i + 1))
    } else {
        match spec_varint_at(s, i + 1, (allow - 1) as nat) {
            None => None,
            Some((v, j)) => Some(((s[i] - 0x80) as nat + 128 * v, j)),
        }
    }
}

/// The varint at `i` under the fixed allowance.
pub open spec fn spec_varint(s: Seq<u8>, i: int) -> Option<(nat, int)> {
    spec_varint_at(s, i, VARINT_MAX_BYTES as nat)
}

/// A decoded varint advances the position and stays under `128 ^ allow`.
pub proof fn lemma_varint_at_bounds(s: Seq<u8>, i: int, allow: nat)
    ensures
        spec_varint_at(s, i, allow) matches Some(vj) ==> {
            &&& i < vj.1 <= s.len()
            &&& vj.1 <= i + allow
            &&& vj.0 < pow128(allow)
        },
    decreases allow,
{
    if allow > 0 && 0 <= i < s.len() {
        lemma_pow128_pos((allow - 1) as nat);
        if s[i] >= 0x80 {
            lemma_varint_at_bounds(s, i + 1, (allow - 1) as nat);
        }
    }
}

/// `pow128` is positive.
pub proof fn lemma_pow128_pos(n: nat)
    ensures
        pow128(n) >= 1,
    decreases n,
{
    if n > 0 {
        lemma_pow128_pos((n - 1) as nat);
    }
}

/// `128 ^ n`.
pub open spec fn pow128(n: nat) -> nat
    decreases n,
{
    if n == 0 {
        1
    } else {
        128 * pow128((n - 1) as nat)
    }
}

/// A decoded varint's value fits in a `u64`.
pub proof fn lemma_varint_fits(s: Seq<u8>, i: int)
    ensures
        spec_varint(s, i) matches Some(vj) ==> vj.0 < 0x8_0000_0000,
{
    lemma_varint_at_bounds(s, i, VARINT_MAX_BYTES as nat);
    assert(pow128(5) == 0x8_0000_0000) by {
        reveal_with_fuel(pow128, 6);
    }
}

/// The field-1 payload the envelope's fields from `i` on resolve to,
/// starting from the payload `acc` seen so far: `None` when the rest
/// of the buffer is malformed, otherwise the last field-1 payload.
pub open spec fn spec_fields(s: Seq<u8>, i: int, acc: Option<Seq<u8>>) -> Option<Option<Seq<u8>>>
    decreases s.len() - i,
    when i >= 0
    via spec_fields_decreases
{
    if i >= s.len() {
        Some(acc)
    } else {
        match spec_varint(s, i) {
            None => None,
            Some((tag, j)) => if tag % 8 == 0 {
                match spec_varint(s, j) {
                    None => None,
                    Some((v, j2)) => spec_fields(s, j2, acc),
                }
            } else if tag % 8 == 2 {
                match spec_varint(s, j) {
                    None => None,
                    Some((l, j2)) => if j2 + l <= s.len() {
                        spec_fields(
                            s,
                            j2 + l,
                            if tag / 8 == 1 {
                                Some(s.subrange(j2, j2 + l))
                            } else {
                                acc
                            },
                        )
                    } else {
                        None
                    },
                }
            } else {
                None
            },
        }
    }
}

#[via_fn]
proof fn spec_fields_decreases(s: Seq<u8>, i: int, acc: Option<Seq<u8>>) {
    lemma_varint_at_bounds(s, i, VARINT_MAX_BYTES as nat);
    match spec_varint(s, i) {
        Some((tag, j)) => {
            lemma_varint_at_bounds(s, j, VARINT_MAX_BYTES as nat);
        },
        None => {},
    }
}

/// The contract address the whole envelope decodes to, as raw bytes.
pub open spec fn spec_contract_addr(s: Seq<u8>) -> Option<Seq<u8>> {
    match spec_fields(s, 0, None) {
        None => None,
        Some(None) => None,
        Some(Some(b)) => Some(b),
    }
}

/// Decodes the varint at `i` with the given remaining allowance.
fn varint_at(data: &Vec<u8>, i: usize, allow: u32) -> (r: Option<(u64, usize)>)
    requires
        allow <= VARINT_MAX_BYTES,
    ensures
        r is Some <==> spec_varint_at(data@, i as int, allow as nat) is Some,
        r matches Some(vj) ==> spec_varint_at(data@, i as int, allow as nat) == Some(
            (vj.0 as nat, vj.1 as int),
        ),
    decreases allow,
{
    if allow == 0 || i >= data.len() {
        return None;
    }
    let b = data[i];
    if b < 0x80 {
        Some((b as u64, i + 1))
    } else {
        match varint_at(data, i + 1, allow - 1) {
            None => None,
            Some((v, j)) => {
                proof {
                    lemma_varint_at_bounds(data@, i + 1, (allow - 1) as nat);
                    assert(pow128(4) < 0x8_0000_0000) by {
                        reveal_with_fuel(pow128, 5);
                    }
                    lemma_pow128_mono((allow - 1) as nat, 4);
                }
                Some(((b - 0x80) as u64 + 128 * v, j))
            },
        }
    }
}

/// `pow128` is monotone in its exponent.
proof fn lemma_pow128_mono(a: nat, b: nat)
    requires
        a <= b,
    ensures
        pow128(a) <= pow128(b),
    decreases b,
{
    if a < b && b > 0 {
        lemma_pow128_mono(a, (b - 1) as nat);
    }
}

/// Walks the fields from `i` on, carrying the last field-1 payload.
fn fields_at(data: &Vec<u8>, i: usize, acc: Option<Vec<u8>>) -> (r: Option<Option<Vec<u8>>>)
    ensures
        ({
            let spec_r = spec_fields(
                data@,
                i as int,
                match acc {
                    None => None,
                    Some(v) => Some(v@),
                },
            );
            match r {
                None => spec_r is None,
                Some(None) => spec_r == Some(Option::<Seq<u8>>::None),
                Some(Some(v)) => spec_r matches Some(Some(b)) && v@ == b,
            }
        }),
    decreases data@.len() - i,
{
    if i >= data.len() {
        return Some(acc);
    }
    proof {
        lemma_varint_at_bounds(data@, i as int, VARINT_MAX_BYTES as nat);
        lemma_varint_fits(data@, i as int);
    }
    match varint_at(data, i, VARINT_MAX_BYTES) {
        None => None,
        Some((tag, j)) => {
            proof {
                lemma_varint_at_bounds(data@, j as int, VARINT_MAX_BYTES as nat);
                lemma_varint_fits(data@, j as int);
            }
            if tag % 8 == 0 {
                match varint_at(data, j, VARINT_MAX_BYTES) {
                    None => None,
                    Some((_v, j2)) => fields_at(data, j2, acc),
                }
            } else if tag % 8 == 2 {
                match varint_at(data, j, VARINT_MAX_BYTES) {
                    None => None,
                    Some((l, j2)) => {
                        if l <= (data.len() - j2) as u64 {
                            let end = j2 + (l as usize);
                            if tag / 8 == 1 {
                                let payload = vstd::slice::slice_to_vec(
                                    vstd::slice::slice_subrange(data.as_slice(), j2, end),
                                );
                                fields_at(data, end, Some(payload))
                            } else {
                                fields_at(data, end, acc)
                            }
                        } else {
                            None
                        }
                    },
                }
            } else {
                None
            }
        },
    }
}

/// The characters the given bytes spell, one character per byte.
pub open spec fn bytes_as_chars(b: Seq<u8>) -> Seq<char> {
    Seq::new(b.len(), |i: int| b[i] as char)
}

/// Whether every byte is an ASCII code point.
pub open spec fn bytes_ascii(b: Seq<u8>) -> bool {
    forall|i: int| 0 <= i < b.len() ==> b[i] < 128
}

/// Checks that every byte is an ASCII code point.
pub fn bytes_all_ascii(b: &Vec<u8>) -> (r: bool)
    ensures
        r == bytes_ascii(b@),
{
    let mut i: usize = 0;
    while i < b.len()
        invariant
            i <= b@.len(),
            forall|j: int| 0 <= j < i ==> b@[j] < 128,
        decreases b@.len() - i,
    {
        if b[i] >= 128 {
            return false;
        }
        i += 1;
    }
    true
}

/// Relies on `String::from_utf8`: ASCII bytes are valid UTF-8 and
/// decode to the characters with the same code points.
#[verifier::external_body]
pub fn ascii_to_string(b: Vec<u8>) -> (r: String)
    requires
        bytes_ascii(b@),
    ensures
        r@ == bytes_as_chars(b@),
{
    match String::from_utf8(b) {
        Ok(s) => s,
        Err(_) => String::new(),
    }
}

/// Decodes the envelope: the child contract's address as raw bytes,
/// or nothing if the envelope is malformed or carries no address.
pub fn parse_contract_addr(data: &Vec<u8>) -> (r: Option<Vec<u8>>)
    ensures
        r is Some <==> spec_contract_addr(data@) is Some,
        r matches Some(v) ==> spec_contract_addr(data@) == Some(v@),
{
    match fields_at(data, 0, None) {
        None => None,
        Some(None) => None,
        Some(Some(v)) => Some(v),
    }
}

} // verus!
