//! Turning an image into a document with a vision model: the image's MIME
//! type, its base64 data URL, the endpoint, and the text of the reply.
use vstd::prelude::*;
use crate::json::{as_str_spec, get_opt, get_spec, index_spec, as_array_spec, JsonValue};
use crate::stream::{opt_view, trim_end_char};
use crate::text::{ascii_lowercase, ascii_lowercase_chars, chars_of, concat2, concat3, string_of};

verus! {

/// What `Path::extension` gives for a path: the part of its file name after
/// the last dot, where there is one that is not the name's first character.
pub uninterp spec fn extension_of(path: Seq<char>) -> Option<Seq<char>>;

/// `Path::extension` of a path given as text: the result is `extension_of`
/// the path (an extension of a path that is a `str` is valid UTF-8).
#[verifier::external_body]
pub(crate) fn path_extension(path: &str) -> (r: Option<String>)
    ensures
        opt_view(r) == extension_of(path@),
{
    match std::path::Path::new(path).extension() {
        Some(ext) => Some(ext.to_string_lossy().into_owned()),
        None => None,
    }
}

/// The character that stands for the six-bit value `v` in the standard
/// base64 alphabet.
pub open spec fn b64_char(v: int) -> char {
    if v < 26 {
        (65 + v) as char
    } else if v < 52 {
        (97 + v - 26) as char
    } else if v < 62 {
        (48 + v - 52) as char
    } else if v == 62 {
        '+'
    } else {
        '/'
    }
}

/// The standard base64 encoding of `b` (RFC 4648 alphabet, padded with
/// `=`): each group of three bytes becomes four characters; a last group
/// of one or two bytes becomes two or three characters and padding.
pub open spec fn base64_encode(b: Seq<u8>) -> Seq<char>
    decreases b.len(),
{
    if b.len() == 0 {
        Seq::empty()
    } else if b.len() == 1 {
        let x = b[0] as int;
        seq![b64_char(x / 4), b64_char((x % 4) * 16), '=', '=']
    } else if b.len() == 2 {
        let x = b[0] as int;
        let y = b[1] as int;
        seq![b64_char(x / 4), b64_char((x % 4) * 16 + y / 16), b64_char((y % 16) * 4), '=']
    } else {
        let x = b[0] as int;
        let y = b[1] as int;
        let z = b[2] as int;
        seq![
            b64_char(x / 4),
            b64_char((x % 4) * 16 + y / 16),
            b64_char((y % 16) * 4 + z / 64),
            b64_char(z % 64),
        ] + base64_encode(b.skip(3))
    }
}

/// `base64::engine::general_purpose::STANDARD.encode`: the standard
/// alphabet with padding, as the crate documents it.
#[verifier::external_body]
fn base64_standard_encode(bytes: &[u8]) -> (r: String)
    ensures
        r@ == base64_encode(bytes@),
{
    base64::Engine::encode(&base64::engine::general_purpose::STANDARD, bytes)
}

/// The image bytes in standard base64, as they go into a data URL.
pub fn encode_image_base64(bytes: &[u8]) -> (r: String)
    ensures
        r@ == base64_encode(bytes@),
{
    base64_standard_encode(bytes)
}

/// `base64::engine::general_purpose::STANDARD.decode`: the engine requires
/// canonical padding and rejects trailing bits, so it succeeds exactly on
/// the texts that its encoder writes, and gives back the bytes encoded.
#[verifier::external_body]
fn base64_standard_decode(text: &str) -> (r: Option<Vec<u8>>)
    ensures
        r is Some <==> exists|b: Seq<u8>| base64_encode(b) == text@,
        r matches Some(b) ==> base64_encode(b@) == text@,
{
    base64::Engine::decode(&base64::engine::general_purpose::STANDARD, text).ok()
}

/// The bytes that the base64 text `text` encodes, or none where it is not
/// the standard padded encoding of any bytes.
pub fn decode_image_base64(text: &str) -> (r: Option<Vec<u8>>)
    ensures
        r is Some <==> exists|b: Seq<u8>| base64_encode(b) == text@,
        r matches Some(b) ==> base64_encode(b@) == text@,
{
    base64_standard_decode(text)
}

/// The MIME type that an image path's extension names, in any case:
/// PNG, JPEG (`jpg` or `jpeg`), GIF and WebP, and PNG for anything else.
pub open spec fn mime_for_extension(ext: Seq<char>) -> Seq<char> {
    if ext == "png"@ {
        "image/png"@
    } else if ext == "jpg"@ || ext == "jpeg"@ {
        "image/jpeg"@
    } else if ext == "gif"@ {
        "image/gif"@
    } else if ext == "webp"@ {
        "image/webp"@
    } else {
        "image/png"@
    }
}

/// The MIME type of the image at `path`.
pub open spec fn mime_of_path(path: Seq<char>) -> Seq<char> {
    mime_for_extension(
        ascii_lowercase(
            match extension_of(path) {
                Some(e) => e,
                None => Seq::empty(),
            },
        ),
    )
}

/// The MIME type of the image at `image_path`, from its extension.
pub fn detect_mime_type(image_path: &str) -> (r: String)
    ensures
        r@ == mime_of_path(image_path@),
{
    let ext = match path_extension(image_path) {
        Some(e) => e,
        None => String::new(),
    };
    let lower = ascii_lowercase_chars(&chars_of(ext.as_str()));
    let e = string_of(&lower);
    let is = |lit: &str| -> (b: bool)
        ensures
            b == (e@ == lit@),
        { crate::json::str_eq(e.as_str(), lit) };
    let m = if is("png") {
        "image/png"
    } else if is("jpg") || is("jpeg") {
        "image/jpeg"
    } else if is("gif") {
        "image/gif"
    } else if is("webp") {
        "image/webp"
    } else {
        "image/png"
    };
    String::from_str(m)
}

/// The chat completions endpoint under `api_base`, whose slashes at the end
/// are dropped.
pub open spec fn chat_endpoint(api_base: Seq<char>) -> Seq<char> {
    trim_end_char(api_base, '/') + "/chat/completions"@
}

/// The chat completions endpoint under `api_base`.
pub fn chat_completions_url(api_base: &str) -> (r: String)
    ensures
        r@ == chat_endpoint(api_base@),
{
    let v = chars_of(api_base);
    let mut e = v.len();
    assert(v@.take(e as int) =~= v@);
    while e > 0 && v[e - 1] == '/'
        invariant
            e <= v@.len(),
            v@ == api_base@,
            trim_end_char(api_base@, '/') == trim_end_char(v@.take(e as int), '/'),
        decreases e,
    {
        assert(v@.take(e as int).drop_last() =~= v@.take(e - 1));
        e = e - 1;
    }
    let base = crate::text::string_from_chars(v.as_slice(), 0, e);
    assert(v@.subrange(0, e as int) =~= v@.take(e as int));
    concat2(base.as_str(), "/chat/completions")
}

/// The data URL of an image: `data:<mime>;base64,<data>`.
pub open spec fn data_url(mime: Seq<char>, data: Seq<char>) -> Seq<char> {
    "data:"@ + mime + ";base64,"@ + data
}

/// The data URL of an image.
pub fn image_data_url(mime: &str, image_base64: &str) -> (r: String)
    ensures
        r@ == data_url(mime@, image_base64@),
{
    let a = concat3("data:", mime, ";base64,");
    concat2(a.as_str(), image_base64)
}

/// The text of a chat completion reply: `choices[0].message.content`,
/// where it is a string.
pub open spec fn reply_content(body: JsonValue) -> Option<Seq<char>> {
    as_str_spec(
        get_opt(
            get_opt(index_spec(as_array_spec(get_spec(body, "choices"@)), 0), "message"@),
            "content"@,
        ),
    )
}

/// The text of a chat completion reply, where the reply has one.
pub fn vision_reply_content(body: &JsonValue) -> (r: Option<String>)
    ensures
        opt_view(r) == reply_content(*body),
{
    let choices = match body.get("choices") {
        Some(c) => c,
        None => return None,
    };
    let items = match choices.as_array() {
        Some(a) => a,
        None => return None,
    };
    if items.len() == 0 {
        return None;
    }
    let message = match items[0].get("message") {
        Some(m) => m,
        None => return None,
    };
    match crate::json::get_str(message, "content") {
        Some(s) => Some(crate::json::to_owned_string(s)),
        None => None,
    }
}

} // verus!
