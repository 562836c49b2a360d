//! Primitive layer of the wire encoding: fixed-width little-endian
//! integers, one-byte booleans, length-prefixed byte strings and optional
//! fields, together with the reader functions and the lemmas showing that
//! each reader inverts its writer.

use vstd::bytes::*;
use vstd::prelude::*;
use vstd::slice::{slice_subrange, slice_to_vec};

verus! {

// ---------------------------------------------------------------------
// Spec-level writers.
// ---------------------------------------------------------------------
/// A `u64` as 8 little-endian bytes.
pub open spec fn enc_u64(x: u64) -> Seq<u8> {
    spec_u64_to_le_bytes(x)
}

/// A `u32` as 4 little-endian bytes.
pub open spec fn enc_u32(x: u32) -> Seq<u8> {
    spec_u32_to_le_bytes(x)
}

/// A boolean as one byte, 0 or 1.
pub open spec fn enc_bool(b: bool) -> Seq<u8> {
    seq![if b { 1u8 } else { 0u8 }]
}

/// A byte string, prefixed by its length as a `u64`.
pub open spec fn enc_bytes(b: Seq<u8>) -> Seq<u8>
    recommends
        b.len() <= u64::MAX,
{
    enc_u64(b.len() as u64) + b
}

/// An optional byte string: a presence byte, then the string if present.
pub open spec fn enc_opt_bytes(o: Option<Seq<u8>>) -> Seq<u8> {
    match o {
        None => seq![0u8],
        Some(b) => seq![1u8] + enc_bytes(b),
    }
}

/// An optional `u64`: a presence byte, then the value if present.
pub open spec fn enc_opt_u64(o: Option<u64>) -> Seq<u8> {
    match o {
        None => seq![0u8],
        Some(x) => seq![1u8] + enc_u64(x),
    }
}

pub broadcast proof fn lemma_enc_u64_len(x: u64)
    ensures
        (#[trigger] enc_u64(x)).len() == 8,
{
    lemma_auto_spec_u64_to_from_le_bytes();
}

pub broadcast proof fn lemma_enc_u32_len(x: u32)
    ensures
        (#[trigger] enc_u32(x)).len() == 4,
{
    lemma_auto_spec_u32_to_from_le_bytes();
}

pub broadcast proof fn lemma_enc_bytes_len(b: Seq<u8>)
    ensures
        (#[trigger] enc_bytes(b)).len() == 8 + b.len(),
{
    broadcast use lemma_enc_u64_len;

}

// ---------------------------------------------------------------------
// Spec-level readers.  Each takes the whole message and an offset and
// returns the value read together with the offset just past it, or
// nothing if the bytes at the offset do not form such a value.
// ---------------------------------------------------------------------
pub open spec fn rd_byte(s: Seq<u8>, i: int) -> Option<(u8, int)> {
    if 0 <= i < s.len() {
        Some((s[i], i + 1))
    } else {
        None
    }
}

pub open spec fn rd_bool(s: Seq<u8>, i: int) -> Option<(bool, int)> {
    match rd_byte(s, i) {
        Some(p) => {
            if p.0 == 1 {
                Some((true, p.1))
            } else if p.0 == 0 {
                Some((false, p.1))
            } else {
                None
            }
        },
        None => None,
    }
}

pub open spec fn rd_u64(s: Seq<u8>, i: int) -> Option<(u64, int)> {
    if 0 <= i && i + 8 <= s.len() {
        Some((spec_u64_from_le_bytes(s.subrange(i, i + 8)), i + 8))
    } else {
        None
    }
}

pub open spec fn rd_u32(s: Seq<u8>, i: int) -> Option<(u32, int)> {
    if 0 <= i && i + 4 <= s.len() {
        Some((spec_u32_from_le_bytes(s.subrange(i, i + 4)), i + 4))
    } else {
        None
    }
}

pub open spec fn rd_bytes(s: Seq<u8>, i: int) -> Option<(Seq<u8>, int)> {
    match rd_u64(s, i) {
        Some(p) => {
            let n = p.0 as int;
            if p.1 + n <= s.len() {
                Some((s.subrange(p.1, p.1 + n), p.1 + n))
            } else {
                None
            }
        },
        None => None,
    }
}

pub open spec fn rd_opt_bytes(s: Seq<u8>, i: int) -> Option<(Option<Seq<u8>>, int)> {
    match rd_bool(s, i) {
        Some(p) => {
            if p.0 {
                match rd_bytes(s, p.1) {
                    Some(q) => Some((Some(q.0), q.1)),
                    None => None,
                }
            } else {
                Some((None, p.1))
            }
        },
        None => None,
    }
}

pub open spec fn rd_opt_u64(s: Seq<u8>, i: int) -> Option<(Option<u64>, int)> {
    match rd_bool(s, i) {
        Some(p) => {
            if p.0 {
                match rd_u64(s, p.1) {
                    Some(q) => Some((Some(q.0), q.1)),
                    None => None,
                }
            } else {
                Some((None, p.1))
            }
        },
        None => None,
    }
}

// ---------------------------------------------------------------------
// Reader-inverts-writer lemmas.  Each says: in a message that holds the
// encoding of `x` at offset `pre.len()`, the reader finds `x` and stops
// right after it.
// ---------------------------------------------------------------------
pub proof fn lemma_rd_byte_at(pre: Seq<u8>, x: u8, post: Seq<u8>)
    ensures
        rd_byte(pre + seq![x] + post, pre.len() as int) == Some((x, pre.len() as int + 1)),
{
    let s = pre + seq![x] + post;
    assert(s[pre.len() as int] == x);
}

pub proof fn lemma_rd_bool_at(pre: Seq<u8>, b: bool, post: Seq<u8>)
    ensures
        rd_bool(pre + enc_bool(b) + post, pre.len() as int) == Some((b, pre.len() as int + 1)),
{
    lemma_rd_byte_at(pre, if b { 1u8 } else { 0u8 }, post);
    assert(pre + enc_bool(b) + post =~= pre + seq![if b { 1u8 } else { 0u8 }] + post);
}

pub proof fn lemma_rd_u64_at(pre: Seq<u8>, x: u64, post: Seq<u8>)
    ensures
        rd_u64(pre + enc_u64(x) + post, pre.len() as int) == Some((x, pre.len() as int + 8)),
{
    lemma_auto_spec_u64_to_from_le_bytes();
    let s = pre + enc_u64(x) + post;
    let i = pre.len() as int;
    assert(s.subrange(i, i + 8) =~= enc_u64(x));
}

pub proof fn lemma_rd_u32_at(pre: Seq<u8>, x: u32, post: Seq<u8>)
    ensures
        rd_u32(pre + enc_u32(x) + post, pre.len() as int) == Some((x, pre.len() as int + 4)),
{
    lemma_auto_spec_u32_to_from_le_bytes();
    let s = pre + enc_u32(x) + post;
    let i = pre.len() as int;
    assert(s.subrange(i, i + 4) =~= enc_u32(x));
}

pub proof fn lemma_rd_bytes_at(pre: Seq<u8>, b: Seq<u8>, post: Seq<u8>)
    requires
        b.len() <= u64::MAX,
    ensures
        rd_bytes(pre + enc_bytes(b) + post, pre.len() as int) == Some(
            (b, pre.len() as int + 8 + b.len() as int),
        ),
{
    broadcast use lemma_enc_u64_len;

    let n = b.len() as u64;
    let s = pre + enc_bytes(b) + post;
    let i = pre.len() as int;
    assert(s =~= pre + enc_u64(n) + (b + post));
    lemma_rd_u64_at(pre, n, b + post);
    assert(s.subrange(i + 8, i + 8 + n as int) =~= b);
}

pub proof fn lemma_rd_opt_bytes_at(pre: Seq<u8>, o: Option<Seq<u8>>, post: Seq<u8>)
    requires
        o matches Some(b) ==> b.len() <= u64::MAX,
    ensures
        rd_opt_bytes(pre + enc_opt_bytes(o) + post, pre.len() as int) == Some(
            (o, pre.len() as int + enc_opt_bytes(o).len() as int),
        ),
{
    broadcast use lemma_enc_u64_len;

    let s = pre + enc_opt_bytes(o) + post;
    match o {
        None => {
            assert(s =~= pre + enc_bool(false) + post);
            lemma_rd_bool_at(pre, false, post);
        },
        Some(b) => {
            assert(s =~= pre + enc_bool(true) + (enc_bytes(b) + post));
            lemma_rd_bool_at(pre, true, enc_bytes(b) + post);
            assert(s =~= (pre + enc_bool(true)) + enc_bytes(b) + post);
            lemma_rd_bytes_at(pre + enc_bool(true), b, post);
        },
    }
}

pub proof fn lemma_rd_opt_u64_at(pre: Seq<u8>, o: Option<u64>, post: Seq<u8>)
    ensures
        rd_opt_u64(pre + enc_opt_u64(o) + post, pre.len() as int) == Some(
            (o, pre.len() as int + enc_opt_u64(o).len() as int),
        ),
{
    broadcast use lemma_enc_u64_len;

    let s = pre + enc_opt_u64(o) + post;
    match o {
        None => {
            assert(s =~= pre + enc_bool(false) + post);
            lemma_rd_bool_at(pre, false, post);
        },
        Some(x) => {
            assert(s =~= pre + enc_bool(true) + (enc_u64(x) + post));
            lemma_rd_bool_at(pre, true, enc_u64(x) + post);
            assert(s =~= (pre + enc_bool(true)) + enc_u64(x) + post);
            lemma_rd_u64_at(pre + enc_bool(true), x, post);
        },
    }
}

// ---------------------------------------------------------------------
// Executable writers.  Each appends one encoded value to `out`.
// ---------------------------------------------------------------------
pub fn push_byte(out: &mut Vec<u8>, x: u8)
    ensures
        final(out)@ == old(out)@ + seq![x],
{
    out.push(x);
    proof {
        assert(out@ =~= old(out)@ + seq![x]);
    }
}

pub fn push_bool(out: &mut Vec<u8>, b: bool)
    ensures
        final(out)@ == old(out)@ + enc_bool(b),
{
    push_byte(out, if b { 1 } else { 0 });
}

pub fn push_u64(out: &mut Vec<u8>, x: u64)
    ensures
        final(out)@ == old(out)@ + enc_u64(x),
{
    let mut b = u64_to_le_bytes(x);
    out.append(&mut b);
}

pub fn push_u32(out: &mut Vec<u8>, x: u32)
    ensures
        final(out)@ == old(out)@ + enc_u32(x),
{
    let mut b = u32_to_le_bytes(x);
    out.append(&mut b);
}

pub fn push_bytes(out: &mut Vec<u8>, b: &[u8])
    ensures
        final(out)@ == old(out)@ + enc_bytes(b@),
{
    push_u64(out, b.len() as u64);
    let mut tail = slice_to_vec(b);
    out.append(&mut tail);
}

pub fn push_opt_bytes(out: &mut Vec<u8>, o: &Option<Vec<u8>>)
    ensures
        final(out)@ == old(out)@ + enc_opt_bytes(match o {
            Some(b) => Some(b@),
            None => None,
        }),
{
    match o {
        None => {
            push_bool(out, false);
        },
        Some(b) => {
            push_bool(out, true);
            push_bytes(out, b.as_slice());
        },
    }
}

pub fn push_opt_u64(out: &mut Vec<u8>, o: Option<u64>)
    ensures
        final(out)@ == old(out)@ + enc_opt_u64(o),
{
    match o {
        None => {
            push_bool(out, false);
        },
        Some(x) => {
            push_bool(out, true);
            push_u64(out, x);
        },
    }
}

// ---------------------------------------------------------------------
// Executable readers, each agreeing with its spec-level reader.
// ---------------------------------------------------------------------
pub fn read_byte(s: &[u8], i: usize) -> (r: Option<(u8, usize)>)
    ensures
        match r {
            Some(p) => rd_byte(s@, i as int) == Some((p.0, p.1 as int)),
            None => rd_byte(s@, i as int) is None,
        },
{
    if i < s.len() {
        Some((s[i], i + 1))
    } else {
        None
    }
}

pub fn read_bool(s: &[u8], i: usize) -> (r: Option<(bool, usize)>)
    ensures
        match r {
            Some(p) => rd_bool(s@, i as int) == Some((p.0, p.1 as int)),
            None => rd_bool(s@, i as int) is None,
        },
{
    match read_byte(s, i) {
        Some((x, j)) => {
            if x == 1 {
                Some((true, j))
            } else if x == 0 {
                Some((false, j))
            } else {
                None
            }
        },
        None => None,
    }
}

pub fn read_u64(s: &[u8], i: usize) -> (r: Option<(u64, usize)>)
    ensures
        match r {
            Some(p) => rd_u64(s@, i as int) == Some((p.0, p.1 as int)),
            None => rd_u64(s@, i as int) is None,
        },
{
    if i <= s.len() && s.len() - i >= 8 {
        let sub = slice_subrange(s, i, i + 8);
        Some((u64_from_le_bytes(sub), i + 8))
    } else {
        None
    }
}

pub fn read_u32(s: &[u8], i: usize) -> (r: Option<(u32, usize)>)
    ensures
        match r {
            Some(p) => rd_u32(s@, i as int) == Some((p.0, p.1 as int)),
            None => rd_u32(s@, i as int) is None,
        },
{
    if i <= s.len() && s.len() - i >= 4 {
        let sub = slice_subrange(s, i, i + 4);
        Some((u32_from_le_bytes(sub), i + 4))
    } else {
        None
    }
}

pub fn read_bytes(s: &[u8], i: usize) -> (r: Option<(Vec<u8>, usize)>)
    ensures
        match r {
            Some(p) => rd_bytes(s@, i as int) matches Some(q) && p.0@ == q.0 && p.1 as int == q.1,
            None => rd_bytes(s@, i as int) is None,
        },
{
    match read_u64(s, i) {
        Some((n, j)) => {
            if (s.len() - j) as u64 >= n {
                let m = n as usize;
                let sub = slice_subrange(s, j, j + m);
                Some((slice_to_vec(sub), j + m))
            } else {
                None
            }
        },
        None => None,
    }
}

pub fn read_opt_bytes(s: &[u8], i: usize) -> (r: Option<(Option<Vec<u8>>, usize)>)
    ensures
        match r {
            Some(p) => rd_opt_bytes(s@, i as int) matches Some(q) && (match (p.0, q.0) {
                (Some(b), Some(bs)) => b@ == bs,
                (None, None) => true,
                _ => false,
            }) && p.1 as int == q.1,
            None => rd_opt_bytes(s@, i as int) is None,
        },
{
    match read_bool(s, i) {
        Some((present, j)) => {
            if present {
                match read_bytes(s, j) {
                    Some((b, k)) => Some((Some(b), k)),
                    None => None,
                }
            } else {
                Some((None, j))
            }
        },
        None => None,
    }
}

pub fn read_opt_u64(s: &[u8], i: usize) -> (r: Option<(Option<u64>, usize)>)
    ensures
        match r {
            Some(p) => rd_opt_u64(s@, i as int) == Some((p.0, p.1 as int)),
            None => rd_opt_u64(s@, i as int) is None,
        },
{
    match read_bool(s, i) {
        Some((present, j)) => {
            if present {
                match read_u64(s, j) {
                    Some((x, k)) => Some((Some(x), k)),
                    None => None,
                }
            } else {
                Some((None, j))
            }
        },
        None => None,
    }
}

} // verus!
