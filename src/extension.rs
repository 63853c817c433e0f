use vstd::prelude::*;

verus! {

/// `i` is the position of the one and only `/` in `m`.
pub open spec fn sole_slash_at(m: Seq<char>, i: int) -> bool {
    &&& 0 <= i < m.len()
    &&& m[i] == '/'
    &&& forall|j: int| 0 <= j < m.len() && j != i ==> m[j] != '/'
}

/// The extension that a MIME value gives: it must split on `/` into exactly
/// two parts, and the second part, verbatim and non-empty, is the extension.
pub open spec fn mime_extension(m: Seq<char>) -> Option<Seq<char>> {
    if exists|i: int| sole_slash_at(m, i) {
        let i = choose|i: int| sole_slash_at(m, i);
        if i + 1 < m.len() {
            Some(m.subrange(i + 1, m.len() as int))
        } else {
            None
        }
    } else {
        None
    }
}

/// The extension that an optional MIME value gives.
pub open spec fn mime_option_extension(mime: Option<Seq<char>>) -> Option<Seq<char>> {
    match mime {
        Some(m) => mime_extension(m),
        None => None,
    }
}

/// The canonical extension of the image format recognised from a body's
/// leading bytes, if any.
pub uninterp spec fn sniffed_extension(body: Seq<u8>) -> Option<Seq<char>>;

/// The eight-byte PNG signature.
pub open spec fn png_signature() -> Seq<u8> {
    seq![0x89u8, 0x50u8, 0x4eu8, 0x47u8, 0x0du8, 0x0au8, 0x1au8, 0x0au8]
}

pub open spec fn starts_with_png_signature(body: Seq<u8>) -> bool {
    body.len() >= 8 && body.subrange(0, 8) == png_signature()
}

pub open spec fn starts_with_jpeg_signature(body: Seq<u8>) -> bool {
    body.len() >= 3 && body.subrange(0, 3) == seq![0xffu8, 0xd8u8, 0xffu8]
}

/// `GIF87a` or `GIF89a`.
pub open spec fn starts_with_gif_signature(body: Seq<u8>) -> bool {
    body.len() >= 6 && (body.subrange(0, 6) == seq![0x47u8, 0x49u8, 0x46u8, 0x38u8, 0x37u8, 0x61u8]
        || body.subrange(0, 6) == seq![0x47u8, 0x49u8, 0x46u8, 0x38u8, 0x39u8, 0x61u8])
}

/// The extension used when neither the MIME value nor the body tells one.
pub open spec fn fallback_extension() -> Seq<char> {
    seq!['d', 'a', 't']
}

/// Extension inference: the MIME value first, then the body's signature,
/// then the fallback.
pub open spec fn inferred_extension(mime: Option<Seq<char>>, body: Seq<u8>) -> Seq<char> {
    match mime_option_extension(mime) {
        Some(e) => e,
        None => match sniffed_extension(body) {
            Some(e) => e,
            None => fallback_extension(),
        },
    }
}

/// A MIME value of the form `type/subtype` with a non-empty subtype gives the
/// subtype as the extension, whatever the body holds.
pub proof fn lemma_mime_subtype_first(m: Seq<char>, i: int, body: Seq<u8>)
    requires
        sole_slash_at(m, i),
        i + 1 < m.len(),
    ensures
        inferred_extension(Some(m), body) == m.subrange(i + 1, m.len() as int),
{
    let j = choose|j: int| sole_slash_at(m, j);
    assert(j == i);
}

/// With no MIME value and a body of no recognised format, the extension is
/// the fallback `dat`.
pub proof fn lemma_fallback_last(body: Seq<u8>)
    requires
        sniffed_extension(body) is None,
    ensures
        inferred_extension(None, body) == fallback_extension(),
{
}

pub open spec fn view_option(o: Option<String>) -> Option<Seq<char>> {
    match o {
        Some(s) => Some(s@),
        None => None,
    }
}

/// Relies on `image::guess_format`, which matches the body's leading bytes
/// against a fixed table of non-empty signatures (PNG first, then JPEG, then
/// the two GIF ones), and on `ImageFormat::extensions_str`, whose first
/// entries for these are `"png"`, `"jpg"` and `"gif"`; every format's list
/// starts with a short lowercase name.
#[verifier::external_body]
pub(crate) fn sniff_extension(body: &[u8]) -> (r: Option<String>)
    ensures
        view_option(r) == sniffed_extension(body@),
        starts_with_png_signature(body@) ==> view_option(r) == Some(seq!['p', 'n', 'g']),
        starts_with_jpeg_signature(body@) ==> view_option(r) == Some(seq!['j', 'p', 'g']),
        starts_with_gif_signature(body@) ==> view_option(r) == Some(seq!['g', 'i', 'f']),
        body@.len() == 0 ==> r is None,
        r matches Some(e) ==> e@.len() > 0 && !e@.contains('/'),
{
    match image::guess_format(body) {
        Ok(format) => format.extensions_str().first().map(|e| e.to_string()),
        Err(_) => None,
    }
}

} // verus!
