use vstd::prelude::*;
use vstd::slice::slice_to_vec;
use vstd::utf8::encode_utf8;

use crate::entries::entries_view;

verus! {

/// The symbol of the standard base64 alphabet (RFC 4648) for a 6-bit
/// value.
pub open spec fn b64_symbol(v: u8) -> u8 {
    if v < 26 {
        (65 + v) as u8
    } else if v < 52 {
        (97 + v - 26) as u8
    } else if v < 62 {
        (48 + v - 52) as u8
    } else if v == 62 {
        43
    } else {
        47
    }
}

/// The padding symbol `=`.
pub const PAD: u8 = 61;

/// The four symbols that encode one group of one to three bytes, padded
/// with `=` where the group is short.
pub open spec fn b64_group(s: Seq<u8>) -> Seq<u8> {
    let b0 = s[0];
    let b1: u8 = if s.len() > 1 { s[1] } else { 0 };
    let b2: u8 = if s.len() > 2 { s[2] } else { 0 };
    seq![
        b64_symbol(b0 >> 2),
        b64_symbol(((b0 & 3) << 4) | (b1 >> 4)),
        if s.len() > 1 { b64_symbol(((b1 & 15) << 2) | (b2 >> 6)) } else { PAD },
        if s.len() > 2 { b64_symbol(b2 & 63) } else { PAD },
    ]
}

/// The base64 encoding (RFC 4648, standard alphabet, padded) of `s`.
pub open spec fn base64(s: Seq<u8>) -> Seq<u8>
    decreases s.len(),
{
    if s.len() == 0 {
        seq![]
    } else if s.len() <= 3 {
        b64_group(s)
    } else {
        b64_group(s.subrange(0, 3)) + base64(s.subrange(3, s.len() as int))
    }
}

fn symbol(v: u8) -> (r: u8)
    ensures
        r == b64_symbol(v),
{
    if v < 26 {
        65 + v
    } else if v < 52 {
        97 + v - 26
    } else if v < 62 {
        48 + v - 52
    } else if v == 62 {
        43
    } else {
        47
    }
}

/// Encodes `b` as `base64` states.
pub fn base64_encode(b: &[u8]) -> (r: Vec<u8>)
    ensures
        r@ == base64(b@),
{
    let n = b.len();
    let mut out: Vec<u8> = Vec::new();
    let mut i: usize = 0;
    assert(b@.subrange(0, n as int) =~= b@);
    assert(out@ + base64(b@) =~= base64(b@));
    while i < n
        invariant
            n == b@.len(),
            i <= n,
            out@ + base64(b@.subrange(i as int, n as int)) == base64(b@),
        decreases n - i,
    {
        let ghost rest = b@.subrange(i as int, n as int);
        let left = n - i;
        let b0 = b[i];
        let b1: u8 = if left > 1 { b[i + 1] } else { 0 };
        let b2: u8 = if left > 2 { b[i + 2] } else { 0 };
        let ghost g = if left <= 3 { rest } else { rest.subrange(0, 3) };
        assert(g[0] == b0);
        assert(g.len() > 1 ==> g[1] == b1);
        assert(g.len() > 2 ==> g[2] == b2);
        let ghost before = out@;
        out.push(symbol(b0 >> 2));
        out.push(symbol(((b0 & 3) << 4) | (b1 >> 4)));
        if left > 1 {
            out.push(symbol(((b1 & 15) << 2) | (b2 >> 6)));
        } else {
            out.push(PAD);
        }
        if left > 2 {
            out.push(symbol(b2 & 63));
        } else {
            out.push(PAD);
        }
        assert(out@ =~= before + b64_group(g));
        if left <= 3 {
            i = n;
            assert(b@.subrange(i as int, n as int) =~= Seq::<u8>::empty());
            assert(out@ + base64(b@.subrange(i as int, n as int)) =~= out@);
        } else {
            i = i + 3;
            assert(rest.subrange(3, rest.len() as int) =~= b@.subrange(i as int, n as int));
            assert(out@ + base64(b@.subrange(i as int, n as int)) =~= before + base64(rest));
        }
    }
    assert(b@.subrange(n as int, n as int) =~= Seq::<u8>::empty());
    assert(out@ + base64(b@.subrange(n as int, n as int)) =~= out@);
    out
}

/// One entry of the `Upload-Metadata` header: the key, a space, and the
/// base64 of the value's UTF-8 bytes.
pub open spec fn metadata_entry(k: Seq<char>, v: Seq<char>) -> Seq<u8> {
    encode_utf8(k) + seq![32u8] + base64(encode_utf8(v))
}

/// The value of the `Upload-Metadata` header for the entries `m`: their
/// encodings, in order, separated by commas.
pub open spec fn metadata_text(m: Seq<(Seq<char>, Seq<char>)>) -> Seq<u8>
    decreases m.len(),
{
    if m.len() == 0 {
        seq![]
    } else if m.len() == 1 {
        metadata_entry(m[0].0, m[0].1)
    } else {
        metadata_text(m.drop_last()) + seq![44u8] + metadata_entry(m.last().0, m.last().1)
    }
}

/// Builds the value of the `Upload-Metadata` header for `m`.
pub fn metadata_header(m: &Vec<(String, String)>) -> (r: Vec<u8>)
    ensures
        r@ == metadata_text(entries_view(m@)),
{
    let ghost v = entries_view(m@);
    let mut out: Vec<u8> = Vec::new();
    let mut i: usize = 0;
    while i < m.len()
        invariant
            v == entries_view(m@),
            i <= m@.len(),
            out@ == metadata_text(v.subrange(0, i as int)),
        decreases m@.len() - i,
    {
        let ghost before = out@;
        if i > 0 {
            out.push(44);
        }
        let mut key = slice_to_vec(m[i].0.as_str().as_bytes());
        out.append(&mut key);
        out.push(32);
        let mut val = base64_encode(m[i].1.as_str().as_bytes());
        out.append(&mut val);
        proof {
            let p = v.subrange(0, i + 1);
            assert(p.drop_last() =~= v.subrange(0, i as int));
            assert(p.last() == (m@[i as int].0@, m@[i as int].1@));
            if i == 0 {
                assert(out@ =~= metadata_entry(p[0].0, p[0].1));
            } else {
                assert(out@ =~= before + seq![44u8] + metadata_entry(p.last().0, p.last().1));
            }
        }
        i = i + 1;
    }
    assert(v.subrange(0, i as int) =~= v);
    out
}

} // verus!
