use vstd::prelude::*;
use vstd::slice::slice_to_vec;
use vstd::utf8::encode_utf8;

use crate::config::TusConfig;
use crate::encoding::metadata_text;
use crate::entries::entries_view;
use crate::number::{decimal, decimal_text};
use crate::upload::Upload;

verus! {

/// The protocol version spoken.
pub const TUS_VERSION: &'static str = "1.0.0";

/// Header naming the protocol version, on every request.
pub const TUS_RESUMABLE: &'static str = "Tus-Resumable";

/// Header giving the file size, on the creation request.
pub const UPLOAD_LENGTH: &'static str = "Upload-Length";

/// Header carrying the metadata, on the creation request.
pub const UPLOAD_METADATA: &'static str = "Upload-Metadata";

/// Header giving the offset: asked for by `HEAD`, sent with `PATCH`.
pub const UPLOAD_OFFSET: &'static str = "Upload-Offset";

/// Header giving the type of a chunk's body.
pub const CONTENT_TYPE: &'static str = "Content-Type";

/// The type of a chunk's body.
pub const OFFSET_CONTENT_TYPE: &'static str = "application/offset+octet-stream";

/// Headers as names and the bytes of their values.
pub open spec fn headers_view(h: Seq<(String, Vec<u8>)>) -> Seq<(Seq<char>, Seq<u8>)> {
    h.map_values(|e: (String, Vec<u8>)| (e.0@, e.1@))
}

/// The extra headers of the settings, values as UTF-8 bytes.
pub open spec fn config_headers(c: TusConfig) -> Seq<(Seq<char>, Seq<u8>)> {
    entries_view(c.headers@).map_values(|e: (Seq<char>, Seq<char>)| (e.0, encode_utf8(e.1)))
}

/// One header from a name and a text value.
pub open spec fn text_header(name: &str, value: Seq<char>) -> (Seq<char>, Seq<u8>) {
    (name@, encode_utf8(value))
}

/// The headers of the creation request (`POST` to the endpoint): the extra
/// headers, the protocol version, the file size, and the metadata where
/// there is any.
pub open spec fn creation_headers_spec(c: TusConfig, u: Upload) -> Seq<(Seq<char>, Seq<u8>)> {
    let base = config_headers(c) + seq![
        text_header(TUS_RESUMABLE, TUS_VERSION@),
        text_header(UPLOAD_LENGTH, decimal(u.progress.total_bytes as nat)),
    ];
    if u.metadata@.len() == 0 {
        base
    } else {
        base.push((UPLOAD_METADATA@, metadata_text(entries_view(u.metadata@))))
    }
}

/// The headers of the offset request (`HEAD` to the location).
pub open spec fn offset_headers_spec(c: TusConfig) -> Seq<(Seq<char>, Seq<u8>)> {
    config_headers(c).push(text_header(TUS_RESUMABLE, TUS_VERSION@))
}

/// The headers of a chunk request (`PATCH` to the location) at `offset`.
pub open spec fn patch_headers_spec(c: TusConfig, offset: u64) -> Seq<(Seq<char>, Seq<u8>)> {
    config_headers(c) + seq![
        text_header(TUS_RESUMABLE, TUS_VERSION@),
        text_header(UPLOAD_OFFSET, decimal(offset as nat)),
        text_header(CONTENT_TYPE, OFFSET_CONTENT_TYPE@),
    ]
}

fn extra_headers(c: &TusConfig) -> (r: Vec<(String, Vec<u8>)>)
    ensures
        headers_view(r@) == config_headers(*c),
{
    let ghost v = entries_view(c.headers@);
    let mut out: Vec<(String, Vec<u8>)> = Vec::new();
    let mut i: usize = 0;
    while i < c.headers.len()
        invariant
            v == entries_view(c.headers@),
            i <= c.headers@.len(),
            headers_view(out@) == v.subrange(0, i as int).map_values(
                |e: (Seq<char>, Seq<char>)| (e.0, encode_utf8(e.1)),
            ),
        decreases c.headers@.len() - i,
    {
        let name = c.headers[i].0.clone();
        let text = c.headers[i].1.as_str();
        let value = slice_to_vec(text.as_bytes());
        assert(value@ == encode_utf8(v[i as int].1));
        assert(name@ == v[i as int].0);
        let ghost before = out@;
        out.push((name, value));
        assert(headers_view(out@) =~= headers_view(before).push((v[i as int].0, encode_utf8(v[i as int].1))));
        assert(v.subrange(0, i + 1) =~= v.subrange(0, i as int).push(v[i as int]));
        i = i + 1;
        assert(headers_view(out@) =~= v.subrange(0, i as int).map_values(
            |e: (Seq<char>, Seq<char>)| (e.0, encode_utf8(e.1)),
        ));
    }
    assert(v.subrange(0, i as int) =~= v);
    out
}

fn push_text(h: &mut Vec<(String, Vec<u8>)>, name: &str, value: &str)
    ensures
        headers_view(final(h)@) == headers_view(old(h)@).push(text_header(name, value@)),
{
    let ghost before = h@;
    h.push((String::from_str(name), slice_to_vec(value.as_bytes())));
    assert(headers_view(h@) =~= headers_view(before).push(text_header(name, value@)));
}

/// The headers of the creation request, as `creation_headers_spec` states.
pub fn creation_headers(c: &TusConfig, u: &Upload) -> (r: Vec<(String, Vec<u8>)>)
    ensures
        headers_view(r@) == creation_headers_spec(*c, *u),
{
    let mut h = extra_headers(c);
    push_text(&mut h, TUS_RESUMABLE, TUS_VERSION);
    let len = decimal_text(u.progress.total_bytes);
    push_text(&mut h, UPLOAD_LENGTH, len.as_str());
    let ghost base = headers_view(h@);
    assert(base =~= config_headers(*c) + seq![
        text_header(TUS_RESUMABLE, TUS_VERSION@),
        text_header(UPLOAD_LENGTH, decimal(u.progress.total_bytes as nat)),
    ]);
    match u.upload_metadata() {
        Some(m) => {
            let ghost mv = m@;
            h.push((String::from_str(UPLOAD_METADATA), m));
            assert(headers_view(h@) =~= base.push((UPLOAD_METADATA@, mv)));
        },
        None => {},
    }
    h
}

/// The headers of the offset request, as `offset_headers_spec` states.
pub fn offset_headers(c: &TusConfig) -> (r: Vec<(String, Vec<u8>)>)
    ensures
        headers_view(r@) == offset_headers_spec(*c),
{
    let mut h = extra_headers(c);
    push_text(&mut h, TUS_RESUMABLE, TUS_VERSION);
    h
}

/// The headers of a chunk request at `offset`, as `patch_headers_spec`
/// states.
pub fn patch_headers(c: &TusConfig, offset: u64) -> (r: Vec<(String, Vec<u8>)>)
    ensures
        headers_view(r@) == patch_headers_spec(*c, offset),
{
    let mut h = extra_headers(c);
    push_text(&mut h, TUS_RESUMABLE, TUS_VERSION);
    let o = decimal_text(offset);
    push_text(&mut h, UPLOAD_OFFSET, o.as_str());
    push_text(&mut h, CONTENT_TYPE, OFFSET_CONTENT_TYPE);
    assert(headers_view(h@) =~= patch_headers_spec(*c, offset));
    h
}

} // verus!
