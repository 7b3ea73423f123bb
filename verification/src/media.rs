use vstd::prelude::*;

use base64::Engine;

use crate::error::TypeError;
use crate::text::{ascii_lower, concat, str_eq, to_ascii_lower};

verus! {

/// The set of texts that a list of strings holds.
pub open spec fn str_set(v: Seq<&str>) -> Set<Seq<char>> {
    Set::new(|x: Seq<char>| exists|i: int| 0 <= i < v.len() && #[trigger] v[i]@ == x)
}

/// The media types of documents that the providers accept.
pub open spec fn document_media_types() -> Set<Seq<char>> {
    set![
        "application/pdf"@,
        "text/plain"@,
        "text/csv"@,
        "application/vnd.openxmlformats-officedocument.wordprocessingml.document"@,
        "application/vnd.openxmlformats-officedocument.spreadsheetml.sheet"@,
        "text/html"@,
        "text/markdown"@,
        "application/vnd.ms-excel"@,
    ]
}

/// The media types of audio that the providers accept.
pub open spec fn audio_media_types() -> Set<Seq<char>> {
    set!["audio/mpeg"@, "audio/wav"@]
}

/// The media types of images that the providers accept.
pub open spec fn image_media_types() -> Set<Seq<char>> {
    set!["image/jpeg"@, "image/png"@, "image/gif"@, "image/webp"@]
}

/// The document media types.
pub fn get_document_media_types() -> (r: Vec<&'static str>)
    ensures
        str_set(r@) == document_media_types(),
{
    let r = vec![
        "application/pdf",
        "text/plain",
        "text/csv",
        "application/vnd.openxmlformats-officedocument.wordprocessingml.document",
        "application/vnd.openxmlformats-officedocument.spreadsheetml.sheet",
        "text/html",
        "text/markdown",
        "application/vnd.ms-excel",
    ];
    proof {
        assert forall|x: Seq<char>| str_set(r@).contains(x) <==> document_media_types().contains(x) by {
            if document_media_types().contains(x) {
                if x == "application/pdf"@ { assert(r@[0]@ == x); }
                else if x == "text/plain"@ { assert(r@[1]@ == x); }
                else if x == "text/csv"@ { assert(r@[2]@ == x); }
                else if x == "application/vnd.openxmlformats-officedocument.wordprocessingml.document"@ { assert(r@[3]@ == x); }
                else if x == "application/vnd.openxmlformats-officedocument.spreadsheetml.sheet"@ { assert(r@[4]@ == x); }
                else if x == "text/html"@ { assert(r@[5]@ == x); }
                else if x == "text/markdown"@ { assert(r@[6]@ == x); }
                else { assert(r@[7]@ == x); }
            }
        }
        assert(str_set(r@) =~= document_media_types());
    }
    r
}

/// The audio media types.
pub fn get_audio_media_types() -> (r: Vec<&'static str>)
    ensures
        str_set(r@) == audio_media_types(),
{
    let r = vec!["audio/mpeg", "audio/wav"];
    proof {
        assert forall|x: Seq<char>| str_set(r@).contains(x) <==> audio_media_types().contains(x) by {
            if audio_media_types().contains(x) {
                if x == "audio/mpeg"@ { assert(r@[0]@ == x); }
                else { assert(r@[1]@ == x); }
            }
        }
        assert(str_set(r@) =~= audio_media_types());
    }
    r
}

/// The image media types.
pub fn get_image_media_types() -> (r: Vec<&'static str>)
    ensures
        str_set(r@) == image_media_types(),
{
    let r = vec!["image/jpeg", "image/png", "image/gif", "image/webp"];
    proof {
        assert forall|x: Seq<char>| str_set(r@).contains(x) <==> image_media_types().contains(x) by {
            if image_media_types().contains(x) {
                if x == "image/jpeg"@ { assert(r@[0]@ == x); }
                else if x == "image/png"@ { assert(r@[1]@ == x); }
                else if x == "image/gif"@ { assert(r@[2]@ == x); }
                else { assert(r@[3]@ == x); }
            }
        }
        assert(str_set(r@) =~= image_media_types());
    }
    r
}

/// Whether `s` is one of the listed texts.
pub fn contains_text(v: &Vec<&str>, s: &str) -> (r: bool)
    ensures
        r == str_set(v@).contains(s@),
{
    let mut i: usize = 0;
    while i < v.len()
        invariant
            i <= v@.len(),
            forall|k: int| 0 <= k < i ==> v@[k]@ != s@,
        decreases v@.len() - i,
    {
        if str_eq(v[i], s) {
            return true;
        }
        i = i + 1;
    }
    false
}

/// What a piece of media is used as.
#[derive(Debug, Clone, Copy, PartialEq, Eq, Structural, Hash)]
pub enum MediaKind {
    Image,
    Document,
}

/// Where the bytes of a piece of media come from.
#[allow(inconsistent_fields)]
#[derive(Debug, Clone, PartialEq, Eq)]
pub enum MediaSource {
    Url { url: String, mime_type: Option<String> },
    Base64 { mime_type: String, data: String },
}

/// A piece of media that a message refers to.
#[derive(Debug, Clone, PartialEq, Eq)]
pub struct MediaRef {
    pub kind: MediaKind,
    pub source: MediaSource,
}

/// The character of the standard base64 alphabet for the six bits `v`:
/// `A`-`Z`, `a`-`z`, `0`-`9`, `+`, `/`.
pub open spec fn base64_char(v: int) -> char {
    if v < 26 {
        (65 + v) as char
    } else if v < 52 {
        (97 + v - 26) as char
    } else if v < 62 {
        (48 + v - 52) as char
    } else if v == 62 {
        '+'
    } else {
        '/'
    }
}

/// Standard base64 with padding (RFC 4648, section 4): each group of three
/// bytes becomes four characters, and a last group of one or two bytes becomes
/// two or three characters followed by `=` up to four.
pub open spec fn base64_standard(data: Seq<u8>) -> Seq<char>
    decreases data.len(),
{
    if data.len() == 0 {
        Seq::empty()
    } else {
        let b0 = data[0] as int;
        if data.len() == 1 {
            seq![base64_char(b0 / 4), base64_char((b0 % 4) * 16), '=', '=']
        } else {
            let b1 = data[1] as int;
            if data.len() == 2 {
                seq![base64_char(b0 / 4), base64_char((b0 % 4) * 16 + b1 / 16), base64_char((b1 % 16) * 4), '=']
            } else {
                let b2 = data[2] as int;
                seq![
                    base64_char(b0 / 4),
                    base64_char((b0 % 4) * 16 + b1 / 16),
                    base64_char((b1 % 16) * 4 + b2 / 64),
                    base64_char(b2 % 64),
                ] + base64_standard(data.skip(3))
            }
        }
    }
}

/// Encodes `data` with the standard alphabet and padding of the `base64` crate
/// (`general_purpose::STANDARD.encode`).
///
/// Trusted: the contract claims that the crate's standard engine writes the
/// RFC 4648 encoding with padding, `base64_standard`.
#[verifier::external_body]
fn encode_base64(data: &[u8]) -> (r: String)
    ensures
        r@ == base64_standard(data@),
{
    base64::engine::general_purpose::STANDARD.encode(data)
}

/// The media type that a lower-case file extension stands for.
pub open spec fn mime_for_extension(ext: Seq<char>) -> Option<Seq<char>> {
    if ext == "png"@ {
        Some("image/png"@)
    } else if ext == "jpg"@ || ext == "jpeg"@ {
        Some("image/jpeg"@)
    } else if ext == "gif"@ {
        Some("image/gif"@)
    } else if ext == "webp"@ {
        Some("image/webp"@)
    } else if ext == "pdf"@ {
        Some("application/pdf"@)
    } else if ext == "txt"@ {
        Some("text/plain"@)
    } else {
        None
    }
}

/// The media type of a file, from its extension (`None` for a file without one),
/// in any ASCII case.
pub fn infer_mime_from_extension(ext: Option<&str>) -> (r: Result<String, TypeError>)
    ensures
        match ext {
            None => r matches Err(TypeError::InvalidMediaType(m))
                && m@ == "path has no extension; pass mime_type explicitly via image_bytes"@,
            Some(e) => match mime_for_extension(ascii_lower(e@)) {
                Some(mime) => r matches Ok(m) && m@ == mime,
                None => r matches Err(TypeError::InvalidMediaType(m))
                    && m@ == "unrecognized extension: "@ + ascii_lower(e@),
            },
        },
{
    match ext {
        None => Err(
            TypeError::InvalidMediaType(
                "path has no extension; pass mime_type explicitly via image_bytes".to_owned(),
            ),
        ),
        Some(e) => {
            let lower = to_ascii_lower(e);
            let l = lower.as_str();
            if str_eq(l, "png") {
                Ok("image/png".to_owned())
            } else if str_eq(l, "jpg") || str_eq(l, "jpeg") {
                Ok("image/jpeg".to_owned())
            } else if str_eq(l, "gif") {
                Ok("image/gif".to_owned())
            } else if str_eq(l, "webp") {
                Ok("image/webp".to_owned())
            } else if str_eq(l, "pdf") {
                Ok("application/pdf".to_owned())
            } else if str_eq(l, "txt") {
                Ok("text/plain".to_owned())
            } else {
                Err(TypeError::InvalidMediaType(concat("unrecognized extension: ", l)))
            }
        },
    }
}

impl MediaRef {
    /// Media at a URL.
    pub fn new_url(kind: MediaKind, url: String, mime_type: Option<String>) -> (r: MediaRef)
        ensures
            r == (MediaRef { kind, source: MediaSource::Url { url, mime_type } }),
    {
        MediaRef { kind, source: MediaSource::Url { url, mime_type } }
    }

    /// Media given as base64 text.
    pub fn new_base64(kind: MediaKind, mime_type: String, data: String) -> (r: MediaRef)
        ensures
            r == (MediaRef { kind, source: MediaSource::Base64 { mime_type, data } }),
    {
        MediaRef { kind, source: MediaSource::Base64 { mime_type, data } }
    }

    /// Media given as raw bytes, which are encoded as base64 at once.
    pub fn from_bytes(kind: MediaKind, mime_type: String, data: &[u8]) -> (r: MediaRef)
        ensures
            r.kind == kind,
            r.source matches MediaSource::Base64 { mime_type: m, data: d } && m == mime_type
                && d@ == base64_standard(data@),
    {
        let encoded = encode_base64(data);
        MediaRef::new_base64(kind, mime_type, encoded)
    }

    /// Media read from a file whose extension is `ext` and whose bytes are `data`.
    ///
    /// Fails as `infer_mime_from_extension` fails when the extension names no
    /// known media type.
    pub fn from_file(kind: MediaKind, ext: Option<&str>, data: &[u8]) -> (r: Result<MediaRef, TypeError>)
        ensures
            match infer_mime_from_extension_spec(ext) {
                Some(mime) => r matches Ok(m) && m.kind == kind && (m.source matches MediaSource::Base64 { mime_type: t, data: d }
                    && t@ == mime && d@ == base64_standard(data@)),
                None => r matches Err(TypeError::InvalidMediaType(e)) && e@ == mime_error_message(ext),
            },
    {
        match infer_mime_from_extension(ext) {
            Ok(mime) => Ok(MediaRef::from_bytes(kind, mime, data)),
            Err(e) => Err(e),
        }
    }

    /// An image at a URL.
    pub fn image_url(url: String, mime_type: Option<String>) -> (r: MediaRef)
        ensures
            r == (MediaRef { kind: MediaKind::Image, source: MediaSource::Url { url, mime_type } }),
    {
        MediaRef::new_url(MediaKind::Image, url, mime_type)
    }

    /// An image given as raw bytes.
    pub fn image_bytes(mime_type: String, data: &[u8]) -> (r: MediaRef)
        ensures
            r.kind == MediaKind::Image,
            r.source matches MediaSource::Base64 { mime_type: m, data: d } && m == mime_type
                && d@ == base64_standard(data@),
    {
        MediaRef::from_bytes(MediaKind::Image, mime_type, data)
    }

    /// A document at a URL.
    pub fn document_url(url: String, mime_type: Option<String>) -> (r: MediaRef)
        ensures
            r == (MediaRef { kind: MediaKind::Document, source: MediaSource::Url { url, mime_type } }),
    {
        MediaRef::new_url(MediaKind::Document, url, mime_type)
    }

    /// A document given as raw bytes.
    pub fn document_bytes(mime_type: String, data: &[u8]) -> (r: MediaRef)
        ensures
            r.kind == MediaKind::Document,
            r.source matches MediaSource::Base64 { mime_type: m, data: d } && m == mime_type
                && d@ == base64_standard(data@),
    {
        MediaRef::from_bytes(MediaKind::Document, mime_type, data)
    }
}

/// The message when a file's extension names no known media type.
pub open spec fn mime_error_message(ext: Option<&str>) -> Seq<char> {
    match ext {
        None => "path has no extension; pass mime_type explicitly via image_bytes"@,
        Some(e) => "unrecognized extension: "@ + ascii_lower(e@),
    }
}

/// The common image and document extensions, in any ASCII case, give their
/// standard media types: `jpg` and `jpeg` both `image/jpeg`, `png`
/// `image/png`, `gif` `image/gif`, `webp` `image/webp`, `pdf`
/// `application/pdf` and `txt` `text/plain`; any other extension names no
/// media type.
pub proof fn lemma_common_extensions(e: &str)
    ensures
        ascii_lower(e@) == "jpg"@ ==> infer_mime_from_extension_spec(Some(e)) == Some("image/jpeg"@),
        ascii_lower(e@) == "jpeg"@ ==> infer_mime_from_extension_spec(Some(e)) == Some("image/jpeg"@),
        ascii_lower(e@) == "png"@ ==> infer_mime_from_extension_spec(Some(e)) == Some("image/png"@),
        ascii_lower(e@) == "gif"@ ==> infer_mime_from_extension_spec(Some(e)) == Some("image/gif"@),
        ascii_lower(e@) == "webp"@ ==> infer_mime_from_extension_spec(Some(e)) == Some("image/webp"@),
        ascii_lower(e@) == "pdf"@ ==> infer_mime_from_extension_spec(Some(e)) == Some("application/pdf"@),
        ascii_lower(e@) == "txt"@ ==> infer_mime_from_extension_spec(Some(e)) == Some("text/plain"@),
        !(seq!["jpg"@, "jpeg"@, "png"@, "gif"@, "webp"@, "pdf"@, "txt"@].contains(ascii_lower(e@)))
            ==> infer_mime_from_extension_spec(Some(e)) is None,
{
    reveal_strlit("png");
    reveal_strlit("jpg");
    reveal_strlit("jpeg");
    reveal_strlit("gif");
    reveal_strlit("webp");
    reveal_strlit("pdf");
    reveal_strlit("txt");
    assert("jpg"@[0] != "png"@[0]);
    assert("jpeg"@.len() != "png"@.len());
    assert("gif"@[0] != "png"@[0] && "gif"@[0] != "jpg"@[0]);
    assert("webp"@.len() != "png"@.len() && "webp"@[0] != "jpeg"@[0]);
    assert("pdf"@[1] != "png"@[1] && "pdf"@[0] != "jpg"@[0] && "pdf"@[0] != "gif"@[0]);
    assert("txt"@[0] != "png"@[0] && "txt"@[0] != "jpg"@[0] && "txt"@[0] != "gif"@[0] && "txt"@[0] != "pdf"@[0]);
    let known = seq!["jpg"@, "jpeg"@, "png"@, "gif"@, "webp"@, "pdf"@, "txt"@];
    let l = ascii_lower(e@);
    if l == "jpg"@ { assert(known[0] == l); }
    if l == "jpeg"@ { assert(known[1] == l); }
    if l == "png"@ { assert(known[2] == l); }
    if l == "gif"@ { assert(known[3] == l); }
    if l == "webp"@ { assert(known[4] == l); }
    if l == "pdf"@ { assert(known[5] == l); }
    if l == "txt"@ { assert(known[6] == l); }
}

/// The media type that a file's extension stands for, if any.
pub open spec fn infer_mime_from_extension_spec(ext: Option<&str>) -> Option<Seq<char>> {
    match ext {
        None => None,
        Some(e) => mime_for_extension(ascii_lower(e@)),
    }
}
} // verus!
