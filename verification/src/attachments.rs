//! Managed attachments: how files and pasted images are classified, named and
//! checked before they are stored for a chat turn.
//!
//! Reading, copying and deleting the files is left to the caller; the checks
//! here are given what it read.

use vstd::prelude::*;
use vstd::string::StringSliceAdditionalSpecFns;
use crate::paths::file_name_of;
use crate::paths::file_name_str;
use crate::session::hyphenated_uuid;
use crate::text::{
    before_first, byte_len, chars_of, concat, eq_str, has_sub, is_ascii_alnum, is_ws, slice,
    string_of, take_at_most, take_before, trim_by, trim_ws, to_lowercase, unicode_lowercase,
    ascii_alnum, whitespace, append_str, trim, trim_pair, trim_chars,
};

verus! {

/// Largest image accepted, in bytes.
pub const MAX_IMAGE_BYTES: u64 = 20971520;

/// Largest attachment accepted, in bytes.
pub const MAX_ATTACHMENT_BYTES: u64 = 209715200;

/// Longest path accepted from the interface, in bytes.
pub const MAX_PATH_BYTES: usize = 4096;

/// What the interface is told about a stored attachment.
pub struct SavedImage {
    pub id: String,
    pub path: String,
    pub filename: String,
    pub mime: String,
    pub size_bytes: u64,
    pub kind: String,
}

// ---------------------------------------------------------------------------
// Classification by extension
// ---------------------------------------------------------------------------

/// Extensions of executables and shortcuts that are never attached.
pub open spec fn dangerous_ext(ext: Seq<char>) -> bool {
    ext == "exe"@ || ext == "dll"@ || ext == "msi"@ || ext == "msp"@ || ext == "com"@ || ext
        == "scr"@ || ext == "pif"@ || ext == "cpl"@ || ext == "sys"@ || ext == "drv"@ || ext
        == "lnk"@ || ext == "url"@ || ext == "reg"@
}

/// Extensions of the image formats that are accepted.
pub open spec fn image_ext(ext: Seq<char>) -> bool {
    ext == "jpg"@ || ext == "jpeg"@ || ext == "png"@ || ext == "gif"@ || ext == "webp"@ || ext
        == "bmp"@
}

/// Extensions shown as video.
pub open spec fn video_ext(ext: Seq<char>) -> bool {
    ext == "mp4"@ || ext == "webm"@ || ext == "mov"@ || ext == "m4v"@ || ext == "avi"@ || ext
        == "mkv"@
}

/// Extensions shown as audio.
pub open spec fn audio_ext(ext: Seq<char>) -> bool {
    ext == "mp3"@ || ext == "wav"@ || ext == "m4a"@ || ext == "aac"@ || ext == "ogg"@ || ext
        == "flac"@
}

/// The kind of an attachment with extension `ext`.
pub open spec fn kind_of(ext: Seq<char>) -> Seq<char> {
    if image_ext(ext) {
        "image"@
    } else if video_ext(ext) {
        "video"@
    } else if audio_ext(ext) {
        "audio"@
    } else {
        "file"@
    }
}

/// Whether `ext` names an executable or shortcut (see `dangerous_ext`).
pub fn is_dangerous_attachment_ext(ext: &str) -> (r: bool)
    ensures
        r == dangerous_ext(ext@),
{
    let e = chars_of(ext);
    eq_str(&e, "exe") || eq_str(&e, "dll") || eq_str(&e, "msi") || eq_str(&e, "msp") || eq_str(
        &e,
        "com",
    ) || eq_str(&e, "scr") || eq_str(&e, "pif") || eq_str(&e, "cpl") || eq_str(&e, "sys")
        || eq_str(&e, "drv") || eq_str(&e, "lnk") || eq_str(&e, "url") || eq_str(&e, "reg")
}

/// Whether `ext` is an accepted image extension (see `image_ext`).
pub fn is_allowed_image_ext(ext: &str) -> (r: bool)
    ensures
        r == image_ext(ext@),
{
    let e = chars_of(ext);
    eq_str(&e, "jpg") || eq_str(&e, "jpeg") || eq_str(&e, "png") || eq_str(&e, "gif") || eq_str(
        &e,
        "webp",
    ) || eq_str(&e, "bmp")
}

/// `image`, `video`, `audio` or `file`, by extension (see `kind_of`).
pub fn attachment_kind(ext: &str) -> (r: &'static str)
    ensures
        r@ == kind_of(ext@),
{
    let e = chars_of(ext);
    if is_allowed_image_ext(ext) {
        "image"
    } else if eq_str(&e, "mp4") || eq_str(&e, "webm") || eq_str(&e, "mov") || eq_str(&e, "m4v")
        || eq_str(&e, "avi") || eq_str(&e, "mkv") {
        "video"
    } else if eq_str(&e, "mp3") || eq_str(&e, "wav") || eq_str(&e, "m4a") || eq_str(&e, "aac")
        || eq_str(&e, "ogg") || eq_str(&e, "flac") {
        "audio"
    } else {
        "file"
    }
}

/// The media type announced for an attachment with extension `ext`.
pub open spec fn attachment_mime(ext: Seq<char>) -> Seq<char> {
    if ext == "png"@ {
        "image/png"@
    } else if ext == "jpg"@ || ext == "jpeg"@ {
        "image/jpeg"@
    } else if ext == "gif"@ {
        "image/gif"@
    } else if ext == "webp"@ {
        "image/webp"@
    } else if ext == "bmp"@ {
        "image/bmp"@
    } else if ext == "mp4"@ || ext == "m4v"@ {
        "video/mp4"@
    } else if ext == "webm"@ {
        "video/webm"@
    } else if ext == "mov"@ {
        "video/quicktime"@
    } else if ext == "avi"@ {
        "video/x-msvideo"@
    } else if ext == "mkv"@ {
        "video/x-matroska"@
    } else if ext == "mp3"@ {
        "audio/mpeg"@
    } else if ext == "wav"@ {
        "audio/wav"@
    } else if ext == "m4a"@ {
        "audio/mp4"@
    } else if ext == "ogg"@ {
        "audio/ogg"@
    } else if ext == "flac"@ {
        "audio/flac"@
    } else if ext == "pdf"@ {
        "application/pdf"@
    } else if ext == "json"@ {
        "application/json"@
    } else if ext == "csv"@ {
        "text/csv"@
    } else if ext == "txt"@ || ext == "md"@ || ext == "log"@ {
        "text/plain"@
    } else {
        "application/octet-stream"@
    }
}

/// The media type for an attachment (see `attachment_mime`).
pub fn mime_for_attachment(ext: &str) -> (r: &'static str)
    ensures
        r@ == attachment_mime(ext@),
{
    let e = chars_of(ext);
    if eq_str(&e, "png") {
        "image/png"
    } else if eq_str(&e, "jpg") || eq_str(&e, "jpeg") {
        "image/jpeg"
    } else if eq_str(&e, "gif") {
        "image/gif"
    } else if eq_str(&e, "webp") {
        "image/webp"
    } else if eq_str(&e, "bmp") {
        "image/bmp"
    } else if eq_str(&e, "mp4") || eq_str(&e, "m4v") {
        "video/mp4"
    } else if eq_str(&e, "webm") {
        "video/webm"
    } else if eq_str(&e, "mov") {
        "video/quicktime"
    } else if eq_str(&e, "avi") {
        "video/x-msvideo"
    } else if eq_str(&e, "mkv") {
        "video/x-matroska"
    } else if eq_str(&e, "mp3") {
        "audio/mpeg"
    } else if eq_str(&e, "wav") {
        "audio/wav"
    } else if eq_str(&e, "m4a") {
        "audio/mp4"
    } else if eq_str(&e, "ogg") {
        "audio/ogg"
    } else if eq_str(&e, "flac") {
        "audio/flac"
    } else if eq_str(&e, "pdf") {
        "application/pdf"
    } else if eq_str(&e, "json") {
        "application/json"
    } else if eq_str(&e, "csv") {
        "text/csv"
    } else if eq_str(&e, "txt") || eq_str(&e, "md") || eq_str(&e, "log") {
        "text/plain"
    } else {
        "application/octet-stream"
    }
}

/// The media type of an image file by its (lower-case) extension.
pub open spec fn image_mime_for_ext(ext: Seq<char>) -> Seq<char> {
    if ext == "jpg"@ || ext == "jpeg"@ {
        "image/jpeg"@
    } else if ext == "png"@ {
        "image/png"@
    } else if ext == "gif"@ {
        "image/gif"@
    } else if ext == "webp"@ {
        "image/webp"@
    } else if ext == "bmp"@ {
        "image/bmp"@
    } else {
        "application/octet-stream"@
    }
}

/// The media type of an imported image (see `image_mime_for_ext`).
pub fn mime_for_extension(ext: &str) -> (r: String)
    ensures
        r@ == image_mime_for_ext(ext@),
{
    let e = chars_of(ext);
    if eq_str(&e, "jpg") || eq_str(&e, "jpeg") {
        String::from_str("image/jpeg")
    } else if eq_str(&e, "png") {
        String::from_str("image/png")
    } else if eq_str(&e, "gif") {
        String::from_str("image/gif")
    } else if eq_str(&e, "webp") {
        String::from_str("image/webp")
    } else if eq_str(&e, "bmp") {
        String::from_str("image/bmp")
    } else {
        String::from_str("application/octet-stream")
    }
}

/// Media types of pasted images that are accepted, once lower-cased.
pub open spec fn allowed_mime(lower: Seq<char>) -> bool {
    lower == "image/jpeg"@ || lower == "image/jpg"@ || lower == "image/png"@ || lower
        == "image/gif"@ || lower == "image/webp"@ || lower == "image/bmp"@
}

/// Whether an already lower-cased media type is accepted (see `allowed_mime`).
pub fn allowed_lower_mime(lower: &str) -> (r: bool)
    ensures
        r == allowed_mime(lower@),
{
    let l = chars_of(lower);
    eq_str(&l, "image/jpeg") || eq_str(&l, "image/jpg") || eq_str(&l, "image/png") || eq_str(
        &l,
        "image/gif",
    ) || eq_str(&l, "image/webp") || eq_str(&l, "image/bmp")
}

/// Whether a pasted image's media type is accepted, in any letter case.
pub fn is_allowed_image_mime(mime: &str) -> (r: bool)
    ensures
        r == allowed_mime(unicode_lowercase(mime@)),
{
    let lower = to_lowercase(mime);
    allowed_lower_mime(lower.as_str())
}

/// The file extension written for a lower-cased image media type.
pub open spec fn ext_for_mime(lower: Seq<char>) -> Seq<char> {
    if lower == "image/jpeg"@ || lower == "image/jpg"@ {
        "jpg"@
    } else if lower == "image/gif"@ {
        "gif"@
    } else if lower == "image/webp"@ {
        "webp"@
    } else if lower == "image/bmp"@ {
        "bmp"@
    } else {
        "png"@
    }
}

/// The extension for an already lower-cased media type (see `ext_for_mime`).
pub fn extension_for_lower_mime(lower: &str) -> (r: &'static str)
    ensures
        r@ == ext_for_mime(lower@),
{
    let l = chars_of(lower);
    if eq_str(&l, "image/jpeg") || eq_str(&l, "image/jpg") {
        "jpg"
    } else if eq_str(&l, "image/gif") {
        "gif"
    } else if eq_str(&l, "image/webp") {
        "webp"
    } else if eq_str(&l, "image/bmp") {
        "bmp"
    } else {
        "png"
    }
}

/// The extension for a media type in any letter case.
pub fn extension_for_mime(mime: &str) -> (r: &'static str)
    ensures
        r@ == ext_for_mime(unicode_lowercase(mime@)),
{
    let lower = to_lowercase(mime);
    extension_for_lower_mime(lower.as_str())
}

// ---------------------------------------------------------------------------
// Content sniffing
// ---------------------------------------------------------------------------

/// `b` begins with the signature of a PNG, JPEG, GIF, BMP or WebP file.
pub open spec fn image_magic(b: Seq<u8>) -> bool {
    &&& b.len() >= 4
    &&& {
        ||| (b[0] == 0x89u8 && b[1] == 0x50u8 && b[2] == 0x4eu8 && b[3] == 0x47u8)
        ||| (b[0] == 0xffu8 && b[1] == 0xd8u8 && b[2] == 0xffu8)
        ||| (b[0] == 0x47u8 && b[1] == 0x49u8 && b[2] == 0x46u8 && b[3] == 0x38u8)
        ||| (b[0] == 0x42u8 && b[1] == 0x4du8)
        ||| (b.len() >= 12 && b[0] == 0x52u8 && b[1] == 0x49u8 && b[2] == 0x46u8 && b[3]
            == 0x46u8 && b[8] == 0x57u8 && b[9] == 0x45u8 && b[10] == 0x42u8 && b[11] == 0x50u8)
    }
}

/// Whether `bytes` start like a supported image (see `image_magic`).
pub fn looks_like_image(bytes: &[u8]) -> (r: bool)
    ensures
        r == image_magic(bytes@),
{
    if bytes.len() < 4 {
        return false;
    }
    if bytes[0] == 0x89u8 && bytes[1] == 0x50u8 && bytes[2] == 0x4eu8 && bytes[3] == 0x47u8 {
        return true;
    }
    if bytes[0] == 0xffu8 && bytes[1] == 0xd8u8 && bytes[2] == 0xffu8 {
        return true;
    }
    if bytes[0] == 0x47u8 && bytes[1] == 0x49u8 && bytes[2] == 0x46u8 && bytes[3] == 0x38u8 {
        return true;
    }
    if bytes[0] == 0x42u8 && bytes[1] == 0x4du8 {
        return true;
    }
    bytes.len() >= 12 && bytes[0] == 0x52u8 && bytes[1] == 0x49u8 && bytes[2] == 0x46u8
        && bytes[3] == 0x46u8 && bytes[8] == 0x57u8 && bytes[9] == 0x45u8 && bytes[10] == 0x42u8
        && bytes[11] == 0x50u8
}


// ---------------------------------------------------------------------------
// File names
// ---------------------------------------------------------------------------

/// A character of a stored attachment name: ASCII letters, digits, `.`, `-`,
/// `_` and space are kept, anything else becomes `_`.
pub open spec fn attachment_name_char(c: char) -> char {
    if is_ascii_alnum(c) || c == '.' || c == '-' || c == '_' || c == ' ' {
        c
    } else {
        '_'
    }
}

/// `s` with every character made safe by `attachment_name_char`.
pub open spec fn attachment_name_chars(s: Seq<char>) -> Seq<char> {
    s.map_values(|c: char| attachment_name_char(c))
}

/// The stored name of an attachment called `name`: its first 120 characters
/// made safe, without spaces and dots at either end, then trimmed; `attachment`
/// when nothing is left.
pub open spec fn attachment_file_name(name: Seq<char>) -> Seq<char> {
    let t = trim_ws(trim_pair(attachment_name_chars(take_at_most(name, 120)), ' ', '.'));
    if t.len() == 0 {
        "attachment"@
    } else {
        t
    }
}

/// The safe stored name for an attachment (see `attachment_file_name`).
pub fn sanitize_attachment_filename(name: &str) -> (r: String)
    ensures
        r@ == attachment_file_name(name@),
{
    let v = chars_of(name);
    let n: usize = if v.len() < 120 {
        v.len()
    } else {
        120
    };
    let mut m: Vec<char> = Vec::new();
    let mut i: usize = 0;
    while i < n
        invariant
            n <= v.len(),
            i <= n,
            m@ == attachment_name_chars(v@.take(i as int)),
        decreases n - i,
    {
        let c = v[i];
        let d = if ascii_alnum(c) || c == '.' || c == '-' || c == '_' || c == ' ' {
            c
        } else {
            '_'
        };
        m.push(d);
        assert(attachment_name_chars(v@.take(i + 1)) =~= attachment_name_chars(v@.take(i as int)).push(
            attachment_name_char(v@[i as int]),
        ));
        i += 1;
    }
    assert(take_at_most(v@, 120) =~= v@.take(n as int));
    let inner = trim_chars(&m, ' ', '.');
    let t = trim(&inner);
    if t.len() == 0 {
        String::from_str("attachment")
    } else {
        string_of(&t)
    }
}

/// A character of a stored image name: ASCII letters, digits, `.`, `-` and `_`
/// are kept, anything else becomes `_`.
pub open spec fn image_name_char(c: char) -> char {
    if is_ascii_alnum(c) || c == '.' || c == '-' || c == '_' {
        c
    } else {
        '_'
    }
}

/// `s` with every character made safe by `image_name_char`.
pub open spec fn image_name_chars(s: Seq<char>) -> Seq<char> {
    s.map_values(|c: char| image_name_char(c))
}

/// The stored name for an image whose suggested name is `name`: the last path
/// component of the suggestion (`image` when it has none), made safe, without
/// dots at either end; then at most 80 characters before its first dot and the
/// extension `ext`. `image.{ext}` when nothing safe is left.
pub open spec fn image_file_name(name: Seq<char>, ext: Seq<char>) -> Seq<char> {
    let base = match file_name_of(name) {
        Some(n) => n,
        None => "image"@,
    };
    let safe = trim_pair(image_name_chars(base), '.', '.');
    if safe.len() == 0 {
        "image."@ + ext
    } else {
        take_at_most(before_first(safe, '.'), 80) + "."@ + ext
    }
}

/// The safe stored name for a suggested image name (see `image_file_name`).
pub fn sanitize_filename(name: &str, default_ext: &str) -> (r: String)
    ensures
        r@ == image_file_name(name@, default_ext@),
{
    let base = match file_name_str(name) {
        Some(b) => b,
        None => chars_of("image"),
    };
    let mut m: Vec<char> = Vec::new();
    let mut i: usize = 0;
    while i < base.len()
        invariant
            i <= base.len(),
            m@ == image_name_chars(base@.take(i as int)),
        decreases base.len() - i,
    {
        let c = base[i];
        let d = if ascii_alnum(c) || c == '.' || c == '-' || c == '_' {
            c
        } else {
            '_'
        };
        m.push(d);
        assert(image_name_chars(base@.take(i + 1)) =~= image_name_chars(base@.take(i as int)).push(
            image_name_char(base@[i as int]),
        ));
        i += 1;
    }
    assert(base@.take(base.len() as int) =~= base@);
    let safe = trim_chars(&m, '.', '.');
    let mut out: Vec<char> = Vec::new();
    if safe.len() == 0 {
        append_str(&mut out, "image.");
    } else {
        let stem = take_before(&safe, '.');
        let k: usize = if stem.len() < 80 {
            stem.len()
        } else {
            80
        };
        out = slice(&stem, 0, k);
        assert(out@ == take_at_most(stem@, 80));
        append_str(&mut out, ".");
    }
    append_str(&mut out, default_ext);
    string_of(&out)
}

/// `id` is long enough, and plain enough, to take its first eight characters
/// as eight bytes.
pub open spec fn short_id_ok(id: Seq<char>) -> bool {
    id.len() >= 8 && forall|i: int| 0 <= i < 8 ==> (#[trigger] id[i] as u32) < 0x80
}

/// The name under which a pasted image is stored: the safe form of a suggested
/// name that is not blank, else `img_{stamp}_{first 8 of id}.{ext}`.
pub open spec fn stored_image_name(
    hint: Option<Seq<char>>,
    ext: Seq<char>,
    stamp: Seq<char>,
    id: Seq<char>,
) -> Seq<char> {
    if hint is Some && trim_ws(hint->0).len() > 0 {
        image_file_name(hint->0, ext)
    } else {
        "img_"@ + stamp + "_"@ + id.take(8) + "."@ + ext
    }
}

/// The name for a pasted image (see `stored_image_name`).
pub fn image_file_name_for(hint: Option<String>, ext: &str, stamp: &str, id: &str) -> (r: String)
    requires
        short_id_ok(id@),
    ensures
        r@ == stored_image_name(crate::session::opt_view(hint), ext@, stamp@, id@),
{
    match hint {
        Some(h) => {
            let hv = chars_of(h.as_str());
            let ht = trim(&hv);
            if ht.len() > 0 {
                return sanitize_filename(h.as_str(), ext);
            }
        },
        None => {},
    }
    let idv = chars_of(id);
    let short = slice(&idv, 0, 8);
    let mut out: Vec<char> = Vec::new();
    append_str(&mut out, "img_");
    append_str(&mut out, stamp);
    append_str(&mut out, "_");
    crate::text::append(&mut out, &short);
    append_str(&mut out, ".");
    append_str(&mut out, ext);
    assert(out@ =~= "img_"@ + stamp@ + "_"@ + id@.take(8) + "."@ + ext@);
    string_of(&out)
}

/// The name under which an imported image file is stored.
pub open spec fn imported_image_name(ext: Seq<char>, stamp: Seq<char>, id: Seq<char>) -> Seq<char> {
    "img_"@ + stamp + "_"@ + id.take(8) + "."@ + ext
}

/// The name for an imported image (see `imported_image_name`).
pub fn import_file_name(ext: &str, stamp: &str, id: &str) -> (r: String)
    requires
        short_id_ok(id@),
    ensures
        r@ == imported_image_name(ext@, stamp@, id@),
{
    image_file_name_for(None, ext, stamp, id)
}

/// The name under which a copied attachment is stored.
pub open spec fn stored_attachment_name(safe_name: Seq<char>, stamp: Seq<char>, id: Seq<char>) -> Seq<
    char,
> {
    "file_"@ + stamp + "_"@ + id.take(8) + "_"@ + safe_name
}

/// The name for a copied attachment (see `stored_attachment_name`).
pub fn attachment_file_name_for(safe_name: &str, stamp: &str, id: &str) -> (r: String)
    requires
        short_id_ok(id@),
    ensures
        r@ == stored_attachment_name(safe_name@, stamp@, id@),
{
    let idv = chars_of(id);
    let short = slice(&idv, 0, 8);
    let mut out: Vec<char> = Vec::new();
    append_str(&mut out, "file_");
    append_str(&mut out, stamp);
    append_str(&mut out, "_");
    crate::text::append(&mut out, &short);
    append_str(&mut out, "_");
    append_str(&mut out, safe_name);
    assert(out@ =~= "file_"@ + stamp@ + "_"@ + id@.take(8) + "_"@ + safe_name@);
    string_of(&out)
}


// ---------------------------------------------------------------------------
// Pasted image payloads
// ---------------------------------------------------------------------------

/// The media type and base64 text of a pasted payload: a `data:` URL (its
/// media type before the first `;`, `image/png` when empty; it must mention
/// `base64`), or else the trimmed text with the hinted type (`image/png` when
/// there is no hint).
pub open spec fn payload_parts(data: Seq<char>, hint: Option<Seq<char>>) -> Result<
    (Seq<char>, Seq<char>),
    Seq<char>,
> {
    let t = trim_ws(data);
    if "data:"@.is_prefix_of(t) {
        let rest = t.skip(5);
        let k = crate::text::first_index(rest, ',');
        if k < 0 {
            Err("Malformed data URL"@)
        } else {
            let meta = rest.take(k);
            let m = before_first(meta, ';');
            if !has_sub(meta, "base64"@) {
                Err("Only base64 data URLs are supported"@)
            } else {
                Ok((
                    if m.len() == 0 {
                        "image/png"@
                    } else {
                        m
                    },
                    rest.skip(k + 1),
                ))
            }
        }
    } else {
        Ok(
            (
                match hint {
                    Some(h) => h,
                    None => "image/png"@,
                },
                t,
            ),
        )
    }
}

/// Splits a pasted payload into media type and base64 text (see `payload_parts`).
pub fn parse_payload(data: &str, mime_hint: Option<String>) -> (r: Result<(String, String), String>)
    ensures
        match r {
            Ok((m, p)) => payload_parts(data@, crate::session::opt_view(mime_hint)) == Ok::<
                (Seq<char>, Seq<char>),
                Seq<char>,
            >((m@, p@)),
            Err(e) => payload_parts(data@, crate::session::opt_view(mime_hint)) == Err::<
                (Seq<char>, Seq<char>),
                Seq<char>,
            >(e@),
        },
{
    let dv = chars_of(data);
    let t = trim(&dv);
    if crate::text::starts_with_str(&t, "data:") {
        proof {
            reveal_strlit("data:");
        }
        let rest = slice(&t, 5, t.len());
        assert(rest@ =~= t@.skip(5));
        proof {
            crate::text::lemma_first_index(rest@, ',');
        }
        match crate::text::find_char(&rest, ',') {
            None => Err(String::from_str("Malformed data URL")),
            Some(k) => {
                let meta = slice(&rest, 0, k);
                let payload = slice(&rest, k + 1, rest.len());
                let m = take_before(&meta, ';');
                if !crate::text::contains_str(&meta, "base64") {
                    return Err(String::from_str("Only base64 data URLs are supported"));
                }
                let mime = if m.len() == 0 {
                    String::from_str("image/png")
                } else {
                    string_of(&m)
                };
                Ok((mime, string_of(&payload)))
            },
        }
    } else {
        let mime = match mime_hint {
            Some(h) => h,
            None => String::from_str("image/png"),
        };
        Ok((mime, string_of(&t)))
    }
}

/// What decoding `text` with base64's standard alphabet (with padding) gives:
/// the bytes, or the decoder's error message.
pub uninterp spec fn base64_standard_decode(text: Seq<char>) -> Result<Seq<u8>, Seq<char>>;

/// Calls `Engine::decode` of `base64::engine::general_purpose::STANDARD` on the
/// bytes of `text`, turning an error into its message. The contract names the
/// outcome `base64_standard_decode(text)` and claims nothing more of it.
#[verifier::external_body]
fn decode_base64(text: &str) -> (r: Result<Vec<u8>, String>)
    ensures
        match r {
            Ok(b) => base64_standard_decode(text@) == Ok::<Seq<u8>, Seq<char>>(b@),
            Err(e) => base64_standard_decode(text@) == Err::<Seq<u8>, Seq<char>>(e@),
        },
{
    base64::Engine::decode(&base64::engine::general_purpose::STANDARD, text.as_bytes()).map_err(
        |e| e.to_string(),
    )
}

/// What is kept of a decoded image: an error when the decoder failed, or when
/// the bytes are empty, over 20 MB, or not an image; else the media type and
/// the bytes.
pub open spec fn decoded_image(mime: Seq<char>, decoded: Result<Seq<u8>, Seq<char>>) -> Result<
    (Seq<char>, Seq<u8>),
    Seq<char>,
> {
    match decoded {
        Err(e) => Err("Invalid base64 image data: "@ + e),
        Ok(bytes) => if bytes.len() == 0 {
            Err("Empty image payload"@)
        } else if bytes.len() > MAX_IMAGE_BYTES {
            Err("Image exceeds 20 MB limit"@)
        } else if !image_magic(bytes) {
            Err("Payload does not look like a supported image"@)
        } else {
            Ok((mime, bytes))
        },
    }
}

/// Checks what the base64 decoder gave for an image (see `decoded_image`).
pub fn check_decoded_image(mime: String, decoded: Result<Vec<u8>, String>) -> (r: Result<
    (String, Vec<u8>),
    String,
>)
    ensures
        match r {
            Ok((m, b)) => decoded_image(
                mime@,
                match decoded {
                    Ok(d) => Ok::<Seq<u8>, Seq<char>>(d@),
                    Err(e) => Err::<Seq<u8>, Seq<char>>(e@),
                },
            ) == Ok::<(Seq<char>, Seq<u8>), Seq<char>>((m@, b@)),
            Err(e) => decoded_image(
                mime@,
                match decoded {
                    Ok(d) => Ok::<Seq<u8>, Seq<char>>(d@),
                    Err(e) => Err::<Seq<u8>, Seq<char>>(e@),
                },
            ) == Err::<(Seq<char>, Seq<u8>), Seq<char>>(e@),
        },
{
    match decoded {
        Err(e) => Err(crate::text::join2("Invalid base64 image data: ", e.as_str())),
        Ok(bytes) => {
            if bytes.len() == 0 {
                Err(String::from_str("Empty image payload"))
            } else if bytes.len() as u64 > MAX_IMAGE_BYTES {
                Err(String::from_str("Image exceeds 20 MB limit"))
            } else if !looks_like_image(bytes.as_slice()) {
                Err(String::from_str("Payload does not look like a supported image"))
            } else {
                Ok((mime, bytes))
            }
        },
    }
}

/// What a pasted image payload gives: an error for a payload over twice the
/// image limit in bytes, a malformed payload (`payload_parts`), a media type
/// that is not accepted, or what `decoded_image` refuses; else the media type
/// and the image bytes.
pub open spec fn image_payload(data: Seq<char>, hint: Option<Seq<char>>) -> Result<
    (Seq<char>, Seq<u8>),
    Seq<char>,
> {
    if vstd::utf8::encode_utf8(data).len() > 2 * MAX_IMAGE_BYTES {
        Err("Image payload too large"@)
    } else {
        match payload_parts(data, hint) {
            Err(e) => Err(e),
            Ok((mime, text)) => if !allowed_mime(unicode_lowercase(mime)) {
                Err("Unsupported image type: "@ + mime)
            } else {
                decoded_image(mime, base64_standard_decode(text))
            },
        }
    }
}

/// Decodes and checks a pasted image (see `image_payload`).
pub fn decode_image_payload(data: &str, mime_hint: Option<String>) -> (r: Result<
    (String, Vec<u8>),
    String,
>)
    ensures
        match r {
            Ok((m, b)) => image_payload(data@, crate::session::opt_view(mime_hint)) == Ok::<
                (Seq<char>, Seq<u8>),
                Seq<char>,
            >((m@, b@)),
            Err(e) => image_payload(data@, crate::session::opt_view(mime_hint)) == Err::<
                (Seq<char>, Seq<u8>),
                Seq<char>,
            >(e@),
        },
{
    if byte_len(data) > 41943040 {
        return Err(String::from_str("Image payload too large"));
    }
    let (mime, text) = parse_payload(data, mime_hint)?;
    if !is_allowed_image_mime(mime.as_str()) {
        return Err(crate::text::join2("Unsupported image type: ", mime.as_str()));
    }
    let decoded = decode_base64(text.as_str());
    check_decoded_image(mime, decoded)
}


// ---------------------------------------------------------------------------
// Checks on files chosen by the user
// ---------------------------------------------------------------------------

/// A path from the interface is usable: not blank, at most 4096 bytes, no NUL.
pub open spec fn attachment_path_ok(p: Seq<char>) -> bool {
    trim_ws(p).len() > 0 && vstd::utf8::encode_utf8(p).len() <= 4096 && !p.contains('\0')
}

/// Refuses a path that `attachment_path_ok` does not accept.
pub fn check_attachment_path(path: &str) -> (r: Result<(), String>)
    ensures
        r is Ok <==> attachment_path_ok(path@),
        r matches Err(e) ==> e@ == "Invalid attachment path"@,
{
    let v = chars_of(path);
    let t = trim(&v);
    if t.len() == 0 || byte_len(path) > MAX_PATH_BYTES || crate::text::has_char(&v, '\0') {
        return Err(String::from_str("Invalid attachment path"));
    }
    Ok(())
}

/// The components of `root` begin the components of `path`.
pub open spec fn components_prefix(root: Seq<Seq<char>>, path: Seq<Seq<char>>) -> bool {
    root.len() <= path.len() && forall|i: int| 0 <= i < root.len() ==> #[trigger] path[i]
        == root[i]
}

/// Whether an attachment may be sent or discarded: its path must be usable
/// (`attachment_path_ok`), and once resolved it must be a regular file inside
/// the resolved managed folder. `root` and `resolved` are the components of
/// the two resolved paths.
pub fn validate_managed_attachment(
    attachment_path: &str,
    root: &Vec<String>,
    resolved: &Vec<String>,
    is_file: bool,
) -> (r: Result<(), String>)
    ensures
        !attachment_path_ok(attachment_path@) ==> (r matches Err(e) && e@
            == "Invalid attachment path"@),
        attachment_path_ok(attachment_path@) ==> (r is Ok <==> (components_prefix(
            crate::text::str_views(root@),
            crate::text::str_views(resolved@),
        ) && is_file)),
        attachment_path_ok(attachment_path@) && r is Err ==> (r matches Err(e) && e@
            == "Attachment is not a managed file"@),
{
    check_attachment_path(attachment_path)?;
    let ghost rv = crate::text::str_views(root@);
    let ghost pv = crate::text::str_views(resolved@);
    let mut inside = root.len() <= resolved.len();
    let mut i: usize = 0;
    while inside && i < root.len()
        invariant
            inside ==> root.len() <= resolved.len(),
            i <= root.len(),
            rv == crate::text::str_views(root@),
            pv == crate::text::str_views(resolved@),
            inside ==> forall|j: int| 0 <= j < i ==> #[trigger] pv[j] == rv[j],
            !inside ==> !components_prefix(rv, pv),
        decreases root.len() - i + (if inside { 1int } else { 0int }),
    {
        let a = chars_of(root[i].as_str());
        if !crate::text::eq_str(&a, resolved[i].as_str()) {
            assert(pv[i as int] == resolved@[i as int]@);
            assert(rv[i as int] == root@[i as int]@);
            inside = false;
        } else {
            i += 1;
        }
    }
    if inside {
        assert(components_prefix(rv, pv));
    }
    if !inside || !is_file {
        return Err(String::from_str("Attachment is not a managed file"));
    }
    Ok(())
}

/// Refuses a blank image path or one over 4096 bytes.
pub fn check_image_path(path: &str) -> (r: Result<(), String>)
    ensures
        r is Ok <==> (trim_ws(path@).len() > 0 && vstd::utf8::encode_utf8(path@).len() <= 4096),
        r matches Err(e) ==> e@ == "Invalid image path"@,
{
    let v = chars_of(path);
    let t = trim(&v);
    if t.len() == 0 || byte_len(path) > MAX_PATH_BYTES {
        return Err(String::from_str("Invalid image path"));
    }
    Ok(())
}

/// The error for an imported image file's lower-cased extension, if it is not
/// an accepted image extension.
pub open spec fn image_ext_error(lower: Seq<char>) -> Option<Seq<char>> {
    if image_ext(lower) {
        None
    } else {
        Some(
            "Unsupported image extension '."@ + lower
                + "' (allowed: png, jpg, jpeg, gif, webp, bmp)"@,
        )
    }
}

/// Checks an imported image's already lower-cased extension (see `image_ext_error`).
pub fn check_lower_image_ext(lower: &str) -> (r: Result<(), String>)
    ensures
        match image_ext_error(lower@) {
            Some(e) => r matches Err(x) && x@ == e,
            None => r is Ok,
        },
{
    if is_allowed_image_ext(lower) {
        return Ok(());
    }
    Err(crate::text::join3(
        "Unsupported image extension '.",
        lower,
        "' (allowed: png, jpg, jpeg, gif, webp, bmp)",
    ))
}

/// Lower-cases an imported image's extension and checks it; gives the
/// lower-cased extension.
pub fn image_import_ext(ext: &str) -> (r: Result<String, String>)
    ensures
        match image_ext_error(unicode_lowercase(ext@)) {
            Some(e) => r matches Err(x) && x@ == e,
            None => r matches Ok(l) && l@ == unicode_lowercase(ext@),
        },
{
    let lower = to_lowercase(ext);
    check_lower_image_ext(lower.as_str())?;
    Ok(lower)
}

/// Checks an imported image's size and contents.
pub fn check_image_file(size: u64, bytes: &[u8]) -> (r: Result<(), String>)
    ensures
        size > MAX_IMAGE_BYTES ==> (r matches Err(e) && e@ == "Image exceeds 20 MB limit"@),
        size <= MAX_IMAGE_BYTES && !image_magic(bytes@) ==> (r matches Err(e) && e@
            == "File does not look like a supported image"@),
        r is Ok <==> (size <= MAX_IMAGE_BYTES && image_magic(bytes@)),
{
    if size > MAX_IMAGE_BYTES {
        return Err(String::from_str("Image exceeds 20 MB limit"));
    }
    if !looks_like_image(bytes) {
        return Err(String::from_str("File does not look like a supported image"));
    }
    Ok(())
}

/// The error for an attachment of `size` bytes with (ASCII lower-cased)
/// extension `lower`, if any: empty, over 200 MB, or an executable.
pub open spec fn attachment_error(size: nat, lower: Seq<char>) -> Option<Seq<char>> {
    if size == 0 {
        Some("Attachment is empty"@)
    } else if size > MAX_ATTACHMENT_BYTES {
        Some("Attachment exceeds the 200 MB limit"@)
    } else if dangerous_ext(lower) {
        Some("Executable attachment '."@ + lower + "' is not allowed"@)
    } else {
        None
    }
}

/// Checks a chosen attachment by size and extension; gives the ASCII
/// lower-cased extension and the attachment's kind.
pub fn classify_attachment(size: u64, ext: &str) -> (r: Result<(String, &'static str), String>)
    ensures
        match attachment_error(size as nat, crate::text::ascii_lower_seq(ext@)) {
            Some(e) => r matches Err(x) && x@ == e,
            None => r matches Ok((l, k)) && l@ == crate::text::ascii_lower_seq(ext@) && k@
                == kind_of(l@),
        },
{
    let ev = chars_of(ext);
    let lv = crate::text::to_ascii_lower(&ev);
    let lower = string_of(&lv);
    if size == 0 {
        return Err(String::from_str("Attachment is empty"));
    }
    if size > MAX_ATTACHMENT_BYTES {
        return Err(String::from_str("Attachment exceeds the 200 MB limit"));
    }
    if is_dangerous_attachment_ext(lower.as_str()) {
        return Err(crate::text::join3("Executable attachment '.", lower.as_str(), "' is not allowed"));
    }
    let kind = attachment_kind(lower.as_str());
    Ok((lower, kind))
}

/// Refuses an attachment whose extension says image when its first bytes do
/// not look like one.
pub fn check_attachment_header(kind: &str, header: &[u8]) -> (r: Result<(), String>)
    ensures
        r is Ok <==> (kind@ != "image"@ || image_magic(header@)),
        r matches Err(e) ==> e@ == "Attachment extension says image, but its contents do not match"@,
{
    if crate::text::str_is(kind, "image") && !looks_like_image(header) {
        return Err(String::from_str("Attachment extension says image, but its contents do not match"));
    }
    Ok(())
}

// ---------------------------------------------------------------------------
// Fresh identifiers and free names
// ---------------------------------------------------------------------------

/// Calls `uuid::Uuid::new_v4` and formats the id with `to_string`. The result
/// is random; the contract claims only its hyphenated shape, which the crate's
/// `Display` (lower-case hexadecimal, hyphenated) gives every id.
#[verifier::external_body]
fn new_uuid() -> (r: String)
    ensures
        hyphenated_uuid(r@),
{
    uuid::Uuid::new_v4().to_string()
}

proof fn lemma_uuid_short(id: Seq<char>)
    requires
        hyphenated_uuid(id),
    ensures
        short_id_ok(id),
{
    assert forall|i: int| 0 <= i < 8 implies (#[trigger] id[i] as u32) < 0x80 by {
        assert(crate::session::is_hex_char(id[i]));
    }
}

/// A fresh id and the stored name for a pasted image (see `stored_image_name`).
pub fn new_image_name(hint: Option<String>, ext: &str, stamp: &str) -> (r: (String, String))
    ensures
        hyphenated_uuid(r.0@),
        r.1@ == stored_image_name(crate::session::opt_view(hint), ext@, stamp@, r.0@),
{
    let id = new_uuid();
    proof {
        lemma_uuid_short(id@);
    }
    let name = image_file_name_for(hint, ext, stamp, id.as_str());
    (id, name)
}

/// A fresh id and the stored name for an imported image (see `imported_image_name`).
pub fn new_import_name(ext: &str, stamp: &str) -> (r: (String, String))
    ensures
        hyphenated_uuid(r.0@),
        r.1@ == imported_image_name(ext@, stamp@, r.0@),
{
    let id = new_uuid();
    proof {
        lemma_uuid_short(id@);
    }
    let name = import_file_name(ext, stamp, id.as_str());
    (id, name)
}

/// A fresh id, the safe name and the stored name for a copied attachment whose
/// own file name is `original` (`attachment` when it has none).
pub fn new_attachment_name(original: Option<&str>, stamp: &str) -> (r: (String, String, String))
    ensures
        hyphenated_uuid(r.0@),
        r.1@ == attachment_file_name(
            match original {
                Some(o) => o@,
                None => "attachment"@,
            },
        ),
        r.2@ == stored_attachment_name(r.1@, stamp@, r.0@),
{
    let safe = match original {
        Some(o) => sanitize_attachment_filename(o),
        None => sanitize_attachment_filename("attachment"),
    };
    let id = new_uuid();
    proof {
        lemma_uuid_short(id@);
    }
    let name = attachment_file_name_for(safe.as_str(), stamp, id.as_str());
    (id, safe, name)
}

/// The `k`-th name tried for a file called `filename`: the name itself, then
/// `{stem}_{k}.{ext}` (stem `img` and extension `png` when the name has none).
pub open spec fn candidate_name(filename: Seq<char>, k: nat) -> Seq<char> {
    if k == 0 {
        filename
    } else {
        let stem = match file_name_of(filename) {
            Some(n) => crate::paths::stem_of(n),
            None => "img"@,
        };
        let ext = match file_name_of(filename) {
            Some(n) => match crate::paths::extension_of(n) {
                Some(e) => e,
                None => "png"@,
            },
            None => "png"@,
        };
        stem + "_"@ + crate::text::dec_nat(k) + "."@ + ext
    }
}

fn candidate(filename: &str, k: u64) -> (r: String)
    ensures
        r@ == candidate_name(filename@, k as nat),
{
    if k == 0 {
        return String::from_str(filename);
    }
    let (stem, ext) = match file_name_str(filename) {
        Some(n) => {
            let (s, e) = crate::paths::split_extension(&n);
            let e2 = match e {
                Some(x) => x,
                None => chars_of("png"),
            };
            (s, e2)
        },
        None => (chars_of("img"), chars_of("png")),
    };
    let mut out = stem;
    append_str(&mut out, "_");
    let digits = crate::text::u64_text(k);
    crate::text::append(&mut out, &digits);
    append_str(&mut out, ".");
    crate::text::append(&mut out, &ext);
    string_of(&out)
}

/// The first of the names `candidate_name(filename, 0..1000)` that `taken`
/// does not report as taken; an error when all of them are.
pub fn unique_file_name<F: Fn(&String) -> bool>(filename: &str, taken: F) -> (r: Result<
    String,
    String,
>)
    requires
        forall|s: &String| #[trigger] taken.requires((s,)),
    ensures
        match r {
            Ok(n) => exists|k: nat|
                k < 1000 && n@ == #[trigger] candidate_name(filename@, k) && taken.ensures(
                    (&n,),
                    false,
                ) && forall|j: nat|
                    j < k ==> exists|s: String|
                        s@ == #[trigger] candidate_name(filename@, j) && taken.ensures((&s,), true),
            Err(e) => e@ == "Could not allocate unique image filename"@ && forall|k: nat|
                k < 1000 ==> exists|s: String|
                    s@ == #[trigger] candidate_name(filename@, k) && taken.ensures((&s,), true),
        },
{
    let mut k: u64 = 0;
    while k < 1000
        invariant
            k <= 1000,
            forall|s: &String| #[trigger] taken.requires((s,)),
            forall|j: nat|
                j < k ==> exists|s: String|
                    s@ == #[trigger] candidate_name(filename@, j) && taken.ensures((&s,), true),
        decreases 1000 - k,
    {
        let name = candidate(filename, k);
        let busy = taken(&name);
        if !busy {
            assert(name@ == candidate_name(filename@, k as nat));
            return Ok(name);
        }
        assert forall|j: nat| j < k + 1 implies exists|s: String|
            s@ == #[trigger] candidate_name(filename@, j) && taken.ensures((&s,), true) by {
            if j == k {
                assert(name@ == candidate_name(filename@, j) && taken.ensures((&name,), true));
            }
        }
        k += 1;
    }
    Err(String::from_str("Could not allocate unique image filename"))
}

} // verus!
