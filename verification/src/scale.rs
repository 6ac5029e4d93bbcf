//! SCALE encoding of the values that the pallets keep in off-chain storage, by way of
//! `parity_scale_codec`.
use parity_scale_codec::{Decode, Encode};
use vstd::prelude::*;

verus! {

/// The four little-endian bytes of `v`.
pub open spec fn u32_le(v: u32) -> Seq<u8> {
    seq![(v % 256) as u8, ((v / 256) % 256) as u8, ((v / 65536) % 256) as u8, (v / 16777216) as u8]
}

/// The number whose four little-endian bytes begin `b`.
pub open spec fn le_u32(b: Seq<u8>) -> u32 {
    (b[0] as int + b[1] as int * 256 + b[2] as int * 65536 + b[3] as int * 16777216) as u32
}

/// The number whose two little-endian bytes begin `b`.
pub open spec fn le_u16(b: Seq<u8>) -> int {
    b[0] as int + b[1] as int * 256
}

/// The compact form of a length: one byte for less than 64, two bytes for less than
/// 2^14, four bytes for less than 2^30, each holding four times the length plus the mode
/// in its low bits; else the mode byte 3 and the length's four little-endian bytes.
pub open spec fn compact_len_encoding(n: nat) -> Seq<u8> {
    if n < 64 {
        seq![(4 * n) as u8]
    } else if n < 16384 {
        let x = 4 * n + 1;
        seq![(x % 256) as u8, (x / 256) as u8]
    } else if n < 1073741824 {
        let x = 4 * n + 2;
        seq![(x % 256) as u8, ((x / 256) % 256) as u8, ((x / 65536) % 256) as u8, (x / 16777216) as u8]
    } else {
        seq![3u8, (n % 256) as u8, ((n / 256) % 256) as u8, ((n / 65536) % 256) as u8, (n / 16777216) as u8]
    }
}

/// The length in compact form at the start of `input`, and how many bytes it takes; only
/// the shortest form of a length is accepted.
pub open spec fn compact_len_decoding(input: Seq<u8>) -> Option<(nat, nat)> {
    if input.len() < 1 {
        None
    } else if input[0] % 4 == 0 {
        Some(((input[0] / 4) as nat, 1))
    } else if input[0] % 4 == 1 {
        if input.len() < 2 || le_u16(input) / 4 < 64 {
            None
        } else {
            Some(((le_u16(input) / 4) as nat, 2))
        }
    } else if input[0] % 4 == 2 {
        if input.len() < 4 || le_u32(input) / 4 < 16384 {
            None
        } else {
            Some(((le_u32(input) / 4) as nat, 4))
        }
    } else {
        if input[0] != 3 || input.len() < 5 || le_u32(input.subrange(1, 5)) < 1073741824 {
            None
        } else {
            Some((le_u32(input.subrange(1, 5)) as nat, 5))
        }
    }
}

/// What SCALE decoding of a byte vector gives at the start of `input`: the vector and the
/// bytes after it, or nothing where `input` does not begin with a byte vector.
pub open spec fn scale_byte_vec_decoding(input: Seq<u8>) -> Option<(Seq<u8>, Seq<u8>)> {
    match compact_len_decoding(input) {
        None => None,
        Some((n, used)) => {
            let rest = input.subrange(used as int, input.len() as int);
            if rest.len() < n {
                None
            } else {
                Some((rest.subrange(0, n as int), rest.subrange(n as int, rest.len() as int)))
            }
        },
    }
}

/// The SCALE encoding of a byte vector: its length in compact form, then its bytes.
pub open spec fn scale_byte_vec_encoding(bytes: Seq<u8>) -> Seq<u8> {
    compact_len_encoding(bytes.len()) + bytes
}

proof fn lemma_four_bytes(x: int)
    requires
        0 <= x < 4294967296,
    ensures
        x == x % 256 + ((x / 256) % 256) * 256 + ((x / 65536) % 256) * 65536 + (x / 16777216) * 16777216,
        0 <= x / 16777216 < 256,
{
    assert(x == x % 256 + ((x / 256) % 256) * 256 + ((x / 65536) % 256) * 65536 + (x / 16777216) * 16777216)
        by (nonlinear_arith)
        requires
            0 <= x < 4294967296,
    ;
    assert(0 <= x / 16777216 < 256) by (nonlinear_arith)
        requires
            0 <= x < 4294967296,
    ;
}

/// Reading a length back from its compact form, whatever follows, gives the length and
/// the size of the form.
pub proof fn lemma_compact_len_round_trip(n: nat, rest: Seq<u8>)
    requires
        n <= u32::MAX,
    ensures
        compact_len_decoding(compact_len_encoding(n) + rest) == Some((n, compact_len_encoding(n).len())),
{
    let e = compact_len_encoding(n);
    let b = e + rest;
    if n < 64 {
        assert(b[0] == (4 * n) as u8);
    } else if n < 16384 {
        let x = 4 * n + 1;
        assert(b[0] == (x % 256) as u8 && b[1] == (x / 256) as u8);
        assert(x == x % 256 + (x / 256) * 256 && (x % 256) % 4 == 1) by (nonlinear_arith)
            requires
                x == 4 * n + 1,
                0 <= n,
        ;
        assert(le_u16(b) == x);
    } else if n < 1073741824 {
        let x = 4 * n + 2;
        lemma_four_bytes(x as int);
        assert((x % 256) % 4 == 2) by (nonlinear_arith)
            requires
                x == 4 * n + 2,
                0 <= n,
        ;
        assert(b[0] == (x % 256) as u8);
        assert(b[1] == ((x / 256) % 256) as u8);
        assert(b[2] == ((x / 65536) % 256) as u8);
        assert(b[3] == (x / 16777216) as u8);
        assert(le_u32(b) == x);
    } else {
        lemma_four_bytes(n as int);
        let t = b.subrange(1, 5);
        assert(t[0] == (n % 256) as u8);
        assert(t[1] == ((n / 256) % 256) as u8);
        assert(t[2] == ((n / 65536) % 256) as u8);
        assert(t[3] == (n / 16777216) as u8);
        assert(le_u32(t) == n);
    }
}

/// Decoding a byte vector's encoding, whatever follows, gives back the bytes and what
/// follows.
pub proof fn lemma_byte_vec_round_trip(bytes: Seq<u8>, rest: Seq<u8>)
    requires
        bytes.len() <= u32::MAX,
    ensures
        scale_byte_vec_decoding(scale_byte_vec_encoding(bytes) + rest) == Some((bytes, rest)),
{
    let e = compact_len_encoding(bytes.len());
    let input = scale_byte_vec_encoding(bytes) + rest;
    assert(input =~= e + (bytes + rest));
    lemma_compact_len_round_trip(bytes.len(), bytes + rest);
    let after = input.subrange(e.len() as int, input.len() as int);
    assert(after =~= bytes + rest);
    assert(after.subrange(0, bytes.len() as int) =~= bytes);
    assert(after.subrange(bytes.len() as int, after.len() as int) =~= rest);
}

/// `<u32 as Decode>::decode` on a byte slice: the number read from the first four bytes,
/// little-endian, and the bytes after them; nothing where fewer than four bytes are given.
#[verifier::external_body]
pub fn decode_u32(input: &[u8]) -> (r: Option<(u32, &[u8])>)
    ensures
        r is Some <==> input@.len() >= 4,
        r matches Some((v, rest)) ==> v == le_u32(input@) && rest@ == input@.subrange(4, input@.len() as int),
{
    let mut rest = input;
    match u32::decode(&mut rest) {
        Ok(v) => Some((v, rest)),
        Err(_) => None,
    }
}

/// `<u32 as Encode>::encode`: the four little-endian bytes of `v`.
#[verifier::external_body]
pub fn encode_u32(v: u32) -> (r: Vec<u8>)
    ensures
        r@ == u32_le(v),
{
    v.encode()
}

/// `<bool as Decode>::decode` on a byte slice: the first byte read as `false` (0) or
/// `true` (1); nothing where there is no first byte or it is another value.
#[verifier::external_body]
pub fn decode_bool(input: &[u8]) -> (r: Option<bool>)
    ensures
        r == (if input@.len() >= 1 && (input@[0] == 0 || input@[0] == 1) {
            Some(input@[0] == 1)
        } else {
            None
        }),
{
    let mut rest = input;
    match bool::decode(&mut rest) {
        Ok(b) => Some(b),
        Err(_) => None,
    }
}

/// `<bool as Encode>::encode`: one byte, 1 for `true` and 0 for `false`.
#[verifier::external_body]
pub fn encode_bool(b: bool) -> (r: Vec<u8>)
    ensures
        r@ == seq![if b { 1u8 } else { 0u8 }],
{
    b.encode()
}

/// `<Vec<u8> as Decode>::decode` on a byte slice: the byte vector at its start and the
/// bytes after it, as [`scale_byte_vec_decoding`] states them.
#[verifier::external_body]
pub fn decode_byte_vec(input: &[u8]) -> (r: Option<(Vec<u8>, &[u8])>)
    ensures
        match r {
            Some((v, rest)) => scale_byte_vec_decoding(input@) == Some((v@, rest@)),
            None => scale_byte_vec_decoding(input@) is None,
        },
{
    let mut rest = input;
    match Vec::<u8>::decode(&mut rest) {
        Ok(v) => Some((v, rest)),
        Err(_) => None,
    }
}

/// `<[u8] as Encode>::encode`, for at most `u32::MAX` bytes (it panics on more): the
/// encoding that [`scale_byte_vec_encoding`] states.
#[verifier::external_body]
pub fn encode_byte_vec(bytes: &[u8]) -> (r: Vec<u8>)
    requires
        bytes@.len() <= u32::MAX,
    ensures
        r@ == scale_byte_vec_encoding(bytes@),
{
    bytes.encode()
}

/// Reading a number back from its little-endian bytes gives the number.
pub proof fn lemma_u32_le_round_trip(v: u32, rest: Seq<u8>)
    ensures
        le_u32(u32_le(v) + rest) == v,
        (u32_le(v) + rest).subrange(4, (u32_le(v) + rest).len() as int) == rest,
{
    let b = u32_le(v) + rest;
    lemma_four_bytes(v as int);
    assert(b[0] == (v % 256) as u8);
    assert(b[1] == ((v / 256) % 256) as u8);
    assert(b[2] == ((v / 65536) % 256) as u8);
    assert(b[3] == (v / 16777216) as u8);
    assert(b.subrange(4, b.len() as int) =~= rest);
}

} // verus!
