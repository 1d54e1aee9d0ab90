//! Primitives of the wire format: little-endian integer fields and
//! length-prefixed byte strings.
//!
//! Every value on the wire is laid down as a fixed-width little-endian
//! integer or as a byte string preceded by its unsigned 64-bit length.  For
//! each primitive this module gives the serializer, the parser, and the two
//! lemmas that tie them together: parsing what was serialized yields the
//! value back, and a successful parse pins the input down to the serialized
//! form of its result.

use vstd::bytes::*;
use vstd::prelude::*;

verus! {

/// A byte string on the wire: its length as a little-endian `u64`, then the
/// bytes themselves.
pub open spec fn spec_lp(b: Seq<u8>) -> Seq<u8> {
    spec_u64_to_le_bytes(b.len() as u64) + b
}

// ---------------------------------------------------------------------------
// Spec-level parsers.  Each consumes from the front of the input and returns
// the parsed value together with what is left, or `None` if the input is too
// short.
// ---------------------------------------------------------------------------
pub open spec fn spec_parse_u8(b: Seq<u8>) -> Option<(u8, Seq<u8>)> {
    if b.len() >= 1 {
        Some((b[0], b.skip(1)))
    } else {
        None
    }
}

pub open spec fn spec_parse_u16(b: Seq<u8>) -> Option<(u16, Seq<u8>)> {
    if b.len() >= 2 {
        Some((spec_u16_from_le_bytes(b.take(2)), b.skip(2)))
    } else {
        None
    }
}

pub open spec fn spec_parse_u32(b: Seq<u8>) -> Option<(u32, Seq<u8>)> {
    if b.len() >= 4 {
        Some((spec_u32_from_le_bytes(b.take(4)), b.skip(4)))
    } else {
        None
    }
}

pub open spec fn spec_parse_u64(b: Seq<u8>) -> Option<(u64, Seq<u8>)> {
    if b.len() >= 8 {
        Some((spec_u64_from_le_bytes(b.take(8)), b.skip(8)))
    } else {
        None
    }
}

pub open spec fn spec_parse_lp(b: Seq<u8>) -> Option<(Seq<u8>, Seq<u8>)> {
    match spec_parse_u64(b) {
        None => None,
        Some((n, rest)) => {
            if rest.len() >= n {
                Some((rest.take(n as int), rest.skip(n as int)))
            } else {
                None
            }
        },
    }
}

// ---------------------------------------------------------------------------
// Round-trip lemmas: parsing what was serialized yields the value back.
// ---------------------------------------------------------------------------
pub proof fn lemma_parse_u8_round_trip(x: u8, rest: Seq<u8>)
    ensures
        spec_parse_u8(seq![x] + rest) == Some((x, rest)),
{
    let b = seq![x] + rest;
    assert(b[0] == x);
    assert(b.skip(1) =~= rest);
}

pub proof fn lemma_parse_u16_round_trip(x: u16, rest: Seq<u8>)
    ensures
        spec_parse_u16(spec_u16_to_le_bytes(x) + rest) == Some((x, rest)),
{
    lemma_auto_spec_u16_to_from_le_bytes();
    let b = spec_u16_to_le_bytes(x) + rest;
    assert(b.take(2) =~= spec_u16_to_le_bytes(x));
    assert(b.skip(2) =~= rest);
}

pub proof fn lemma_parse_u32_round_trip(x: u32, rest: Seq<u8>)
    ensures
        spec_parse_u32(spec_u32_to_le_bytes(x) + rest) == Some((x, rest)),
{
    lemma_auto_spec_u32_to_from_le_bytes();
    let b = spec_u32_to_le_bytes(x) + rest;
    assert(b.take(4) =~= spec_u32_to_le_bytes(x));
    assert(b.skip(4) =~= rest);
}

pub proof fn lemma_parse_u64_round_trip(x: u64, rest: Seq<u8>)
    ensures
        spec_parse_u64(spec_u64_to_le_bytes(x) + rest) == Some((x, rest)),
{
    lemma_auto_spec_u64_to_from_le_bytes();
    let b = spec_u64_to_le_bytes(x) + rest;
    assert(b.take(8) =~= spec_u64_to_le_bytes(x));
    assert(b.skip(8) =~= rest);
}

pub proof fn lemma_parse_lp_round_trip(payload: Seq<u8>, rest: Seq<u8>)
    requires
        payload.len() <= u64::MAX,
    ensures
        spec_parse_lp(spec_lp(payload) + rest) == Some((payload, rest)),
{
    let n = payload.len() as u64;
    let b = spec_lp(payload) + rest;
    assert(b =~= spec_u64_to_le_bytes(n) + (payload + rest));
    lemma_parse_u64_round_trip(n, payload + rest);
    assert((payload + rest).take(n as int) =~= payload);
    assert((payload + rest).skip(n as int) =~= rest);
}

// ---------------------------------------------------------------------------
// Exactness lemmas: a successful parse pins the input down to the serialized
// form of its result followed by the leftover.
// ---------------------------------------------------------------------------
pub proof fn lemma_parse_u8_exact(b: Seq<u8>, x: u8, rest: Seq<u8>)
    requires
        spec_parse_u8(b) == Some((x, rest)),
    ensures
        b == seq![x] + rest,
{
    assert(b =~= seq![x] + b.skip(1));
}

pub proof fn lemma_parse_u16_exact(b: Seq<u8>, x: u16, rest: Seq<u8>)
    requires
        spec_parse_u16(b) == Some((x, rest)),
    ensures
        b == spec_u16_to_le_bytes(x) + rest,
{
    lemma_auto_spec_u16_to_from_le_bytes();
    assert(b.take(2).len() == 2);
    assert(spec_u16_to_le_bytes(spec_u16_from_le_bytes(b.take(2))) == b.take(2));
    assert(b =~= b.take(2) + b.skip(2));
}

pub proof fn lemma_parse_u32_exact(b: Seq<u8>, x: u32, rest: Seq<u8>)
    requires
        spec_parse_u32(b) == Some((x, rest)),
    ensures
        b == spec_u32_to_le_bytes(x) + rest,
{
    lemma_auto_spec_u32_to_from_le_bytes();
    assert(b.take(4).len() == 4);
    assert(spec_u32_to_le_bytes(spec_u32_from_le_bytes(b.take(4))) == b.take(4));
    assert(b =~= b.take(4) + b.skip(4));
}

pub proof fn lemma_parse_u64_exact(b: Seq<u8>, x: u64, rest: Seq<u8>)
    requires
        spec_parse_u64(b) == Some((x, rest)),
    ensures
        b == spec_u64_to_le_bytes(x) + rest,
{
    lemma_auto_spec_u64_to_from_le_bytes();
    assert(b.take(8).len() == 8);
    assert(spec_u64_to_le_bytes(spec_u64_from_le_bytes(b.take(8))) == b.take(8));
    assert(b =~= b.take(8) + b.skip(8));
}

pub proof fn lemma_parse_lp_exact(b: Seq<u8>, payload: Seq<u8>, rest: Seq<u8>)
    requires
        spec_parse_lp(b) == Some((payload, rest)),
    ensures
        b == spec_lp(payload) + rest,
        payload.len() <= u64::MAX,
{
    let (n, after_len) = spec_parse_u64(b).unwrap();
    lemma_parse_u64_exact(b, n, after_len);
    assert(payload =~= after_len.take(n as int));
    assert(rest =~= after_len.skip(n as int));
    assert(payload.len() == n);
    assert(after_len =~= payload + rest);
    assert(b =~= spec_u64_to_le_bytes(n) + (payload + rest));
    assert(spec_lp(payload) + rest =~= spec_u64_to_le_bytes(payload.len() as u64) + (payload
        + rest));
}

// ---------------------------------------------------------------------------
// Serializers: each appends its field to the end of the output buffer.
// ---------------------------------------------------------------------------
pub fn write_u8(out: &mut Vec<u8>, x: u8)
    ensures
        final(out)@ == old(out)@ + seq![x],
{
    out.push(x);
    assert(out@ =~= old(out)@ + seq![x]);
}

pub fn write_u16(out: &mut Vec<u8>, x: u16)
    ensures
        final(out)@ == old(out)@ + spec_u16_to_le_bytes(x),
{
    let mut le = u16_to_le_bytes(x);
    out.append(&mut le);
}

pub fn write_u32(out: &mut Vec<u8>, x: u32)
    ensures
        final(out)@ == old(out)@ + spec_u32_to_le_bytes(x),
{
    let mut le = u32_to_le_bytes(x);
    out.append(&mut le);
}

pub fn write_u64(out: &mut Vec<u8>, x: u64)
    ensures
        final(out)@ == old(out)@ + spec_u64_to_le_bytes(x),
{
    let mut le = u64_to_le_bytes(x);
    out.append(&mut le);
}

pub fn write_lp(out: &mut Vec<u8>, payload: &[u8])
    ensures
        final(out)@ == old(out)@ + spec_lp(payload@),
{
    write_u64(out, payload.len() as u64);
    let mut copy = vstd::slice::slice_to_vec(payload);
    out.append(&mut copy);
    assert(out@ =~= old(out)@ + spec_lp(payload@));
}

// ---------------------------------------------------------------------------
// Exec parsers over a cursor.  Each mirrors its spec parser on the suffix of
// the input that starts at the cursor.
// ---------------------------------------------------------------------------
pub fn read_u8(b: &[u8], pos: usize) -> (r: Option<(u8, usize)>)
    requires
        pos <= b@.len(),
    ensures
        match r {
            Some(parsed) => {
                &&& spec_parse_u8(b@.skip(pos as int)) == Some(
                    (parsed.0, b@.skip(parsed.1 as int)),
                )
                &&& parsed.1 == pos + 1
            },
            None => spec_parse_u8(b@.skip(pos as int)) is None,
        },
{
    if b.len() - pos >= 1 {
        let x = b[pos];
        assert(b@.skip(pos as int)[0] == x);
        assert(b@.skip(pos as int).skip(1) =~= b@.skip(pos as int + 1));
        Some((x, pos + 1))
    } else {
        None
    }
}

pub fn read_u16(b: &[u8], pos: usize) -> (r: Option<(u16, usize)>)
    requires
        pos <= b@.len(),
    ensures
        match r {
            Some(parsed) => {
                &&& spec_parse_u16(b@.skip(pos as int)) == Some(
                    (parsed.0, b@.skip(parsed.1 as int)),
                )
                &&& parsed.1 == pos + 2
            },
            None => spec_parse_u16(b@.skip(pos as int)) is None,
        },
{
    if b.len() - pos >= 2 {
        let field = vstd::slice::slice_subrange(b, pos, pos + 2);
        let x = u16_from_le_bytes(field);
        assert(b@.skip(pos as int).take(2) =~= b@.subrange(pos as int, pos as int + 2));
        assert(b@.skip(pos as int).skip(2) =~= b@.skip(pos as int + 2));
        Some((x, pos + 2))
    } else {
        None
    }
}

pub fn read_u32(b: &[u8], pos: usize) -> (r: Option<(u32, usize)>)
    requires
        pos <= b@.len(),
    ensures
        match r {
            Some(parsed) => {
                &&& spec_parse_u32(b@.skip(pos as int)) == Some(
                    (parsed.0, b@.skip(parsed.1 as int)),
                )
                &&& parsed.1 == pos + 4
            },
            None => spec_parse_u32(b@.skip(pos as int)) is None,
        },
{
    if b.len() - pos >= 4 {
        let field = vstd::slice::slice_subrange(b, pos, pos + 4);
        let x = u32_from_le_bytes(field);
        assert(b@.skip(pos as int).take(4) =~= b@.subrange(pos as int, pos as int + 4));
        assert(b@.skip(pos as int).skip(4) =~= b@.skip(pos as int + 4));
        Some((x, pos + 4))
    } else {
        None
    }
}

pub fn read_u64(b: &[u8], pos: usize) -> (r: Option<(u64, usize)>)
    requires
        pos <= b@.len(),
    ensures
        match r {
            Some(parsed) => {
                &&& spec_parse_u64(b@.skip(pos as int)) == Some(
                    (parsed.0, b@.skip(parsed.1 as int)),
                )
                &&& parsed.1 == pos + 8
            },
            None => spec_parse_u64(b@.skip(pos as int)) is None,
        },
{
    if b.len() - pos >= 8 {
        let field = vstd::slice::slice_subrange(b, pos, pos + 8);
        let x = u64_from_le_bytes(field);
        assert(b@.skip(pos as int).take(8) =~= b@.subrange(pos as int, pos as int + 8));
        assert(b@.skip(pos as int).skip(8) =~= b@.skip(pos as int + 8));
        Some((x, pos + 8))
    } else {
        None
    }
}

/// Turns parsed bytes back into text.
///
/// Relies on `String::from_utf8`: it succeeds exactly on valid UTF-8 and
/// returns the string those bytes encode, stated here over vstd's own UTF-8
/// model (the same model vstd gives `str::as_bytes`).
#[verifier::external_body]
pub fn bytes_to_string(v: Vec<u8>) -> (r: Option<String>)
    ensures
        match r {
            Some(s) => vstd::utf8::valid_utf8(v@) && s@ == vstd::utf8::decode_utf8(v@),
            None => !vstd::utf8::valid_utf8(v@),
        },
{
    match String::from_utf8(v) {
        Ok(s) => Some(s),
        Err(_) => None,
    }
}

pub fn read_lp(b: &[u8], pos: usize) -> (r: Option<(Vec<u8>, usize)>)
    requires
        pos <= b@.len(),
    ensures
        match r {
            Some(parsed) => {
                &&& spec_parse_lp(b@.skip(pos as int)) == Some(
                    (parsed.0@, b@.skip(parsed.1 as int)),
                )
                &&& pos <= parsed.1 <= b@.len()
            },
            None => spec_parse_lp(b@.skip(pos as int)) is None,
        },
{
    match read_u64(b, pos) {
        None => None,
        Some((n, after_len)) => {
            if n <= (b.len() - after_len) as u64 {
                let n_us = n as usize;
                let payload = vstd::slice::slice_to_vec(
                    vstd::slice::slice_subrange(b, after_len, after_len + n_us),
                );
                proof {
                    let tail = b@.skip(pos as int).skip(8);
                    assert(tail =~= b@.skip(after_len as int));
                    assert(tail.take(n as int) =~= b@.subrange(
                        after_len as int,
                        after_len as int + n,
                    ));
                    assert(tail.skip(n as int) =~= b@.skip(after_len as int + n));
                }
                Some((payload, after_len + n_us))
            } else {
                proof {
                    let tail = b@.skip(pos as int).skip(8);
                    assert(tail =~= b@.skip(after_len as int));
                }
                None
            }
        },
    }
}

} // verus!
