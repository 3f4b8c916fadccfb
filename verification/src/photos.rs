//! Where play and profile photos live on disk, the URLs they are served
//! under, and the checks made before one is read back.

use vstd::prelude::*;
use image::imageops::FilterType;
use image::{ImageFormat, ImageReader};
use std::io::Cursor;

use crate::text::{
    after_last, chars_of, decimal_i64, decimal_u128, ends_with, has_char, contains, push_all,
    push_str, spec_after_last, spec_contains, spec_decimal, spec_digits, spec_ends_with,
    spec_has_char, string_of, to_lower, lower_case_of,
};

verus! {

/// At most this many photos are kept for one play.
pub const MAX_PHOTOS_PER_PLAY: i64 = 5;

/// Uploaded play photos larger than this on either side are scaled down.
pub const PLAY_PHOTO_MAX_SIDE: u32 = 1600;

/// Uploaded profile photos larger than this on either side are scaled down.
pub const PROFILE_PHOTO_MAX_SIDE: u32 = 800;

pub open spec fn spec_content_type(lower: Seq<char>) -> Seq<char> {
    if spec_ends_with(lower, ".png"@) {
        "image/png"@
    } else if spec_ends_with(lower, ".gif"@) {
        "image/gif"@
    } else if spec_ends_with(lower, ".webp"@) {
        "image/webp"@
    } else {
        "image/jpeg"@
    }
}

/// The `Content-Type` a photo is served with, chosen by the extension of its
/// file name in any letter case; JPEG for anything that is not PNG, GIF or
/// WebP, since uploads are stored as JPEG.
pub fn content_type_for(filename: &str) -> (r: &'static str)
    ensures
        r@ == spec_content_type(lower_case_of(filename@)),
{
    let lower = to_lower(filename);
    let l = chars_of(lower.as_str());
    if ends_with(&l, ".png") {
        "image/png"
    } else if ends_with(&l, ".gif") {
        "image/gif"
    } else if ends_with(&l, ".webp") {
        "image/webp"
    } else {
        "image/jpeg"
    }
}

pub open spec fn spec_profile_photo_path(user_id: int) -> Seq<char> {
    "data/profile_photos/"@ + spec_decimal(user_id) + ".jpg"@
}

/// The file a user's profile photo is stored in.
pub fn profile_photo_path(user_id: i64) -> (r: String)
    ensures
        r@ == spec_profile_photo_path(user_id as int),
{
    let mut out: Vec<char> = Vec::new();
    push_str(&mut out, "data/profile_photos/");
    let d = decimal_i64(user_id);
    push_all(&mut out, &d);
    push_str(&mut out, ".jpg");
    string_of(&out)
}

pub open spec fn spec_photo_dir(play_id: int) -> Seq<char> {
    "data/photos/"@ + spec_decimal(play_id)
}

/// The directory that holds the photos of one play.
pub fn photo_dir(play_id: i64) -> (r: String)
    ensures
        r@ == spec_photo_dir(play_id as int),
{
    let mut out: Vec<char> = Vec::new();
    push_str(&mut out, "data/photos/");
    let d = decimal_i64(play_id);
    push_all(&mut out, &d);
    string_of(&out)
}

pub open spec fn spec_photo_path(play_id: int, filename: Seq<char>) -> Seq<char> {
    spec_photo_dir(play_id) + "/"@ + filename
}

/// The path a photo file of a play is stored under.
pub fn photo_path(play_id: i64, filename: &str) -> (r: String)
    ensures
        r@ == spec_photo_path(play_id as int, filename@),
{
    let mut out: Vec<char> = Vec::new();
    push_str(&mut out, "data/photos/");
    let d = decimal_i64(play_id);
    push_all(&mut out, &d);
    push_str(&mut out, "/");
    push_str(&mut out, filename);
    string_of(&out)
}

pub open spec fn spec_upload_file_name(nanos: nat, order: int) -> Seq<char> {
    spec_digits(nanos) + "_"@ + spec_decimal(order) + ".jpg"@
}

/// The file name given to the photo uploaded as number `order` of a play:
/// the upload time in nanoseconds, then the order, so that names never come
/// from what the browser sent.
pub fn upload_file_name(nanos: u128, order: i64) -> (r: String)
    ensures
        r@ == spec_upload_file_name(nanos as nat, order as int),
{
    let mut out = decimal_u128(nanos);
    push_str(&mut out, "_");
    let d = decimal_i64(order);
    push_all(&mut out, &d);
    push_str(&mut out, ".jpg");
    string_of(&out)
}

pub open spec fn spec_photo_url(play_id: int, file_path: Seq<char>) -> Seq<char> {
    "/photos/"@ + spec_decimal(play_id) + "/"@ + spec_after_last(file_path, '/', '/')
}

/// The URL a stored photo of a play is served under: its file name (what
/// follows the last `/` of its stored path) below `/photos/{play_id}/`.
pub fn photo_url(play_id: i64, file_path: &str) -> (r: String)
    ensures
        r@ == spec_photo_url(play_id as int, file_path@),
{
    let mut out: Vec<char> = Vec::new();
    push_str(&mut out, "/photos/");
    let d = decimal_i64(play_id);
    push_all(&mut out, &d);
    push_str(&mut out, "/");
    let p = chars_of(file_path);
    let name = after_last(&p, '/', '/');
    push_all(&mut out, &name);
    string_of(&out)
}

/// A file name that names a file inside one directory: no separator and no
/// `..` in it.
pub open spec fn is_plain_file_name(name: Seq<char>) -> bool {
    !spec_has_char(name, '/') && !spec_has_char(name, '\\') && !spec_contains(name, ".."@)
}

/// Whether a requested photo file name stays inside its play's directory;
/// any other request is refused as a bad request.
pub fn is_plain_photo_name(name: &str) -> (r: bool)
    ensures
        r == is_plain_file_name(name@),
{
    let n = chars_of(name);
    !has_char(&n, '/') && !has_char(&n, '\\') && !contains(&n, "..")
}

/// Whether one more photo may be added to a play that has `count` already.
pub fn photo_slot_free(count: i64) -> (r: bool)
    ensures
        r == (count < MAX_PHOTOS_PER_PLAY),
{
    count < MAX_PHOTOS_PER_PLAY
}

/// Whether an image of the given size must be scaled down to fit `max_side`.
pub fn needs_resize(width: u32, height: u32, max_side: u32) -> (r: bool)
    ensures
        r == (width > max_side || height > max_side),
{
    width > max_side || height > max_side
}

// ---------------------------------------------------------------------------
// Re-encoding uploads
// ---------------------------------------------------------------------------
/// The width and height that the `image` crate's decoder reports for the
/// encoded image `bytes` (its format guessed from the bytes), if it can read
/// them.
pub uninterp spec fn image_size_of(bytes: Seq<u8>) -> Option<(u32, u32)>;

/// `ImageReader::new(..).with_guessed_format()` and `into_dimensions()`.
/// Claims: the answer is `image_size_of(bytes)`.
#[verifier::external_body]
fn image_size(bytes: &Vec<u8>) -> (r: Option<(u32, u32)>)
    ensures
        r == image_size_of(bytes@),
{
    ImageReader::new(Cursor::new(bytes.as_slice())).with_guessed_format().ok()?.into_dimensions().ok()
}

/// The JPEG the `image` crate writes for the decoded image `bytes`, as 8-bit
/// RGB at its default quality; `None` when the bytes do not decode or the
/// encoder refuses the image.
pub uninterp spec fn jpeg_of(bytes: Seq<u8>) -> Option<Seq<u8>>;

/// `image::load_from_memory`, `to_rgb8` and `write_to` with
/// `ImageFormat::Jpeg`. Claims: the answer is `jpeg_of(bytes)`.
#[verifier::external_body]
fn reencode_jpeg(bytes: &Vec<u8>) -> (r: Option<Vec<u8>>)
    ensures
        opt_bytes(r) == jpeg_of(bytes@),
{
    let img = image::load_from_memory(bytes).ok()?;
    let mut out = Cursor::new(Vec::new());
    img.to_rgb8().write_to(&mut out, ImageFormat::Jpeg).ok()?;
    Some(out.into_inner())
}

/// The JPEG the `image` crate writes for the decoded image `bytes` after
/// `resize(max_side, max_side, Lanczos3)`, which scales it, keeping its
/// proportions, to fit a `max_side` square.
pub uninterp spec fn shrunk_jpeg_of(bytes: Seq<u8>, max_side: u32) -> Option<Seq<u8>>;

/// `image::load_from_memory`, `resize` with `FilterType::Lanczos3`, `to_rgb8`
/// and `write_to` with `ImageFormat::Jpeg`. Claims: the answer is
/// `shrunk_jpeg_of(bytes, max_side)`. A zero side is left out.
#[verifier::external_body]
fn shrink_to_jpeg(bytes: &Vec<u8>, max_side: u32) -> (r: Option<Vec<u8>>)
    requires
        max_side > 0,
    ensures
        opt_bytes(r) == shrunk_jpeg_of(bytes@, max_side),
{
    let img = image::load_from_memory(bytes).ok()?.resize(max_side, max_side, FilterType::Lanczos3);
    let mut out = Cursor::new(Vec::new());
    img.to_rgb8().write_to(&mut out, ImageFormat::Jpeg).ok()?;
    Some(out.into_inner())
}

pub open spec fn opt_bytes(o: Option<Vec<u8>>) -> Option<Seq<u8>> {
    match o {
        Some(v) => Some(v@),
        None => None,
    }
}

/// The file stored for an upload: nothing for an empty upload or one that is
/// not an image; otherwise the image re-encoded as JPEG (which also drops
/// its metadata, such as where a phone photo was taken), scaled down first
/// when either side is longer than `max_side`.
pub open spec fn spec_prepared_photo(bytes: Seq<u8>, max_side: u32) -> Option<Seq<u8>> {
    if bytes.len() == 0 {
        None
    } else {
        match image_size_of(bytes) {
            None => None,
            Some((w, h)) => if w > max_side || h > max_side {
                shrunk_jpeg_of(bytes, max_side)
            } else {
                jpeg_of(bytes)
            },
        }
    }
}

/// Turns an uploaded photo into the JPEG that is stored for it.
pub fn prepare_upload(bytes: &Vec<u8>, max_side: u32) -> (r: Option<Vec<u8>>)
    requires
        max_side > 0,
    ensures
        opt_bytes(r) == spec_prepared_photo(bytes@, max_side),
        bytes@.len() == 0 ==> r is None,
{
    if bytes.len() == 0 {
        return None;
    }
    match image_size(bytes) {
        None => None,
        Some((w, h)) => if needs_resize(w, h, max_side) {
            shrink_to_jpeg(bytes, max_side)
        } else {
            reencode_jpeg(bytes)
        },
    }
}

/// A photo served at the URL of a stored path is the file stored there: the
/// name in the URL is a plain file name when the stored one is, and the path
/// rebuilt from it is the stored path.
pub proof fn law_photo_url_round_trip(play_id: int, filename: Seq<char>)
    requires
        is_plain_file_name(filename),
    ensures
        spec_photo_url(play_id, spec_photo_path(play_id, filename)) == "/photos/"@
            + spec_decimal(play_id) + "/"@ + filename,
{
    reveal_strlit("/");
    let prefix = spec_photo_dir(play_id) + "/"@;
    assert(prefix.last() == '/');
    lemma_after_last_plain(prefix, filename);
}

/// What follows the last `/` of `prefix + "/" + name`, where `name` has no
/// `/`, is `name`.
proof fn lemma_after_last_plain(prefix: Seq<char>, name: Seq<char>)
    requires
        prefix.len() > 0,
        prefix.last() == '/',
        !spec_has_char(name, '/'),
    ensures
        spec_after_last(prefix + name, '/', '/') == name,
    decreases name.len(),
{
    if name.len() == 0 {
        assert(prefix + name =~= prefix);
    } else {
        assert((prefix + name).drop_last() =~= prefix + name.drop_last());
        assert(!spec_has_char(name.drop_last(), '/')) by {
            if spec_has_char(name.drop_last(), '/') {
                let i = choose|i: int| 0 <= i < name.drop_last().len() && name.drop_last()[i] == '/';
                assert(name[i] == '/');
            }
        }
        assert(name.last() == name[name.len() - 1]);
        lemma_after_last_plain(prefix, name.drop_last());
        assert(name.drop_last().push(name.last()) =~= name);
    }
}

} // verus!
