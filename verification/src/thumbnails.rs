//! Small thumbnails of downloaded wallpapers: what identifies a version of
//! a source file, the names of the cache and control files, when a
//! thumbnail is made, and making it with the `image` crate.
use vstd::prelude::*;
use crate::text::{push_all, string_of};
use image::{ImageFormat, ImageReader, Limits};

verus! {

/// Width of a thumbnail in pixels.
pub const THUMBNAIL_WIDTH: u32 = 440;

/// Height of a thumbnail in pixels.
pub const THUMBNAIL_HEIGHT: u32 = 248;

/// Largest width or height of a source image that is decoded.
pub const MAX_SOURCE_DIMENSION: u32 = 16384;

/// Largest memory the decoder may use, in bytes.
pub const MAX_DECODE_ALLOC: u64 = 268435456;

/// Version of the cache layout, part of every cache key.
pub const CACHE_VERSION: u8 = 1;

/// What identifies one version of a source file: its path, length and
/// modification time (nanoseconds since 1970, when known).
#[derive(Clone, Debug, PartialEq, Eq, Hash)]
pub struct SourceFingerprint {
    pub source: String,
    pub length: u64,
    pub modified_nanos: Option<u128>,
}

pub open spec fn control_name_of(file_name: Seq<char>) -> Seq<char> {
    file_name + ".aria2"@
}

/// Name of the control file the download tool keeps next to a file while
/// it is being downloaded.
pub fn control_file_name(file_name: &str) -> (r: String)
    ensures
        r@ == control_name_of(file_name@),
{
    let mut out: Vec<char> = Vec::new();
    push_all(&mut out, file_name);
    push_all(&mut out, ".aria2");
    string_of(out.as_slice())
}

/// Lowercase hexadecimal digit for `d < 16`.
pub open spec fn hex_char(d: int) -> char {
    if d < 10 {
        ((d + 48) as u8) as char
    } else {
        ((d - 10 + 97) as u8) as char
    }
}

/// The last `k` hexadecimal digits of `n`, most significant first.
pub open spec fn hex_tail(n: nat, k: nat) -> Seq<char>
    decreases k,
{
    if k == 0 {
        Seq::empty()
    } else {
        hex_tail(n / 16, (k - 1) as nat).push(hex_char((n % 16) as int))
    }
}

fn hex16(n: u64) -> (r: Vec<char>)
    ensures
        r@ == hex_tail(n as nat, 16),
{
    let mut digits: Vec<char> = Vec::new();
    let mut m: u64 = n;
    let mut k: usize = 0;
    let ghost parts: Seq<nat> = seq![n as nat];
    while k < 16
        invariant
            0 <= k <= 16,
            digits@.len() == k,
            parts.len() == k + 1,
            parts[k as int] == m,
            parts[0] == n,
            forall|j: int| 0 <= j < k ==> #[trigger] parts[j + 1] == parts[j] / 16,
            forall|j: int|
                0 <= j < k ==> #[trigger] digits@[j] == hex_char((parts[k - 1 - j] % 16) as int),
        decreases 16 - k,
    {
        let d = m % 16;
        let c = if d < 10 {
            ((d + 48) as u8) as char
        } else {
            ((d - 10 + 97) as u8) as char
        };
        let ghost old_digits = digits@;
        digits.insert(0, c);
        proof {
            parts = parts.push((m / 16) as nat);
            assert forall|j: int| 0 <= j < k + 1 implies #[trigger] digits@[j] == hex_char(
                (parts[k - j] % 16) as int,
            ) by {
                if j > 0 {
                    assert(digits@[j] == old_digits[j - 1]);
                }
            }
        }
        m = m / 16;
        k = k + 1;
    }
    proof {
        lemma_hex_tail_digits(parts, 16, n as nat, digits@);
    }
    digits
}

proof fn lemma_hex_tail_digits(parts: Seq<nat>, k: nat, n: nat, digits: Seq<char>)
    requires
        parts.len() >= k + 1,
        parts[0] == n,
        forall|j: int| 0 <= j < k ==> #[trigger] parts[j + 1] == parts[j] / 16,
        digits.len() >= k,
        forall|j: int| 0 <= j < k ==> #[trigger] digits[digits.len() - k + j] == hex_char((parts[k - 1 - j] % 16) as int),
    ensures
        digits.subrange(digits.len() - k, digits.len() as int) == hex_tail(n, k),
    decreases k,
{
    if k > 0 {
        let sub = parts.drop_first();
        assert forall|j: int| 0 <= j < k - 1 implies #[trigger] sub[j + 1] == sub[j] / 16 by {
            assert(sub[j + 1] == parts[j + 2]);
            assert(sub[j] == parts[j + 1]);
        }
        let d2 = digits.drop_last();
        assert forall|j: int| 0 <= j < k - 1 implies #[trigger] d2[d2.len() - (k - 1) + j] == hex_char(
            (sub[k - 2 - j] % 16) as int,
        ) by {
            assert(d2[d2.len() - (k - 1) + j] == digits[digits.len() - k + j]);
            assert(sub[k - 2 - j] == parts[k - 1 - j]);
        }
        assert(sub[0] == n / 16);
        lemma_hex_tail_digits(sub, (k - 1) as nat, n / 16, d2);
        assert(digits[digits.len() - k + (k - 1)] == hex_char((parts[k - 1 - (k - 1)] % 16) as int));
        assert(digits[digits.len() - 1] == hex_char((parts[0] % 16) as int));
        assert(digits.subrange(digits.len() - k, digits.len() as int) =~= d2.subrange(
            d2.len() - (k - 1),
            d2.len() as int,
        ).push(hex_char((n % 16) as int)));
    } else {
        assert(digits.subrange(digits.len() - k, digits.len() as int) =~= Seq::<char>::empty());
    }
}

pub open spec fn thumbnail_name_of(hash: u64) -> Seq<char> {
    hex_tail(hash as nat, 16) + ".jpg"@
}

/// File name of the cached thumbnail whose key hashes to `hash`: the hash
/// as 16 lowercase hexadecimal digits, then `.jpg`.
pub fn thumbnail_file_name(hash: u64) -> (r: String)
    ensures
        r@ == thumbnail_name_of(hash),
{
    let mut out = hex16(hash);
    push_all(&mut out, ".jpg");
    string_of(out.as_slice())
}

pub open spec fn thumbnail_temp_name_of(hash: u64) -> Seq<char> {
    hex_tail(hash as nat, 16) + ".tmp.jpg"@
}

/// File name the thumbnail is written to before it replaces the cached one.
pub fn thumbnail_temp_file_name(hash: u64) -> (r: String)
    ensures
        r@ == thumbnail_temp_name_of(hash),
{
    let mut out = hex16(hash);
    push_all(&mut out, ".tmp.jpg");
    string_of(out.as_slice())
}

/// What `image` makes of the encoded picture `source`: decoded under the
/// given limits, shrunk with `DynamicImage::thumbnail` to fit `width` x
/// `height`, and written as JPEG; `None` when a step fails.
pub uninterp spec fn jpeg_thumbnail_of(source: Seq<u8>, width: u32, height: u32, max_dimension: u32, max_alloc: u64) -> Option<Seq<u8>>;

/// Calls the `image` crate: `ImageReader::new(..).with_guessed_format()`,
/// `limits` with `max_image_width`, `max_image_height` and `max_alloc`,
/// `decode`, `DynamicImage::thumbnail(width, height)` and
/// `write_to(.., ImageFormat::Jpeg)`. Each step is a function of its input
/// alone, so the bytes are named by `jpeg_thumbnail_of`; an error of any step
/// gives `None`. A zero width or height is not admitted.
#[verifier::external_body]
pub(crate) fn jpeg_thumbnail(source: &[u8], width: u32, height: u32, max_dimension: u32, max_alloc: u64) -> (r: Option<Vec<u8>>)
    requires
        width > 0,
        height > 0,
    ensures
        r is None <==> jpeg_thumbnail_of(source@, width, height, max_dimension, max_alloc) is None,
        r matches Some(v) ==> jpeg_thumbnail_of(source@, width, height, max_dimension, max_alloc) == Some(v@),
{
    let mut reader = ImageReader::new(std::io::Cursor::new(source)).with_guessed_format().ok()?;
    let mut limits = Limits::default();
    limits.max_image_width = Some(max_dimension);
    limits.max_image_height = Some(max_dimension);
    limits.max_alloc = Some(max_alloc);
    reader.limits(limits);
    let thumbnail = reader.decode().ok()?.thumbnail(width, height);
    let mut out = std::io::Cursor::new(Vec::new());
    thumbnail.write_to(&mut out, ImageFormat::Jpeg).ok()?;
    Some(out.into_inner())
}

/// The JPEG thumbnail of the wallpaper file contents `source`: at most
/// `THUMBNAIL_WIDTH` x `THUMBNAIL_HEIGHT`, decoding at most
/// `MAX_SOURCE_DIMENSION` pixels a side and `MAX_DECODE_ALLOC` bytes; `None`
/// when the contents do not decode within those limits or do not encode.
pub fn thumbnail_jpeg(source: &[u8]) -> (r: Option<Vec<u8>>)
    ensures
        r is None <==> jpeg_thumbnail_of(source@, THUMBNAIL_WIDTH, THUMBNAIL_HEIGHT, MAX_SOURCE_DIMENSION, MAX_DECODE_ALLOC) is None,
        r matches Some(v) ==> jpeg_thumbnail_of(source@, THUMBNAIL_WIDTH, THUMBNAIL_HEIGHT, MAX_SOURCE_DIMENSION, MAX_DECODE_ALLOC) == Some(v@),
{
    jpeg_thumbnail(source, THUMBNAIL_WIDTH, THUMBNAIL_HEIGHT, MAX_SOURCE_DIMENSION, MAX_DECODE_ALLOC)
}

/// The `(width, height)` that `image` reads from the header of the encoded
/// picture `bytes`, or `None` when it cannot.
pub uninterp spec fn image_dimensions_of(bytes: Seq<u8>) -> Option<(u32, u32)>;

/// Calls `image::ImageReader::new(..).with_guessed_format()` and
/// `into_dimensions`, which read the picture's header; an error gives `None`.
#[verifier::external_body]
pub(crate) fn image_dimensions(bytes: &[u8]) -> (r: Option<(u32, u32)>)
    ensures
        r == image_dimensions_of(bytes@),
{
    let reader = ImageReader::new(std::io::Cursor::new(bytes)).with_guessed_format().ok()?;
    reader.into_dimensions().ok()
}

/// A cached thumbnail whose header read as `d` is usable: it has a width
/// and a height above zero.
pub fn cached_thumbnail_is_valid(d: Option<(u32, u32)>) -> (r: bool)
    ensures
        r == (d matches Some((w, h)) && w > 0 && h > 0),
{
    match d {
        Some((w, h)) => w > 0 && h > 0,
        None => false,
    }
}

/// Whether the cached thumbnail file contents `bytes` are usable.
pub fn cached_image_is_valid(bytes: &[u8]) -> (r: bool)
    ensures
        r == (image_dimensions_of(bytes@) matches Some((w, h)) && w > 0 && h > 0),
{
    cached_thumbnail_is_valid(image_dimensions(bytes))
}

/// What to do for a thumbnail request.
#[derive(Clone, Copy, Debug, PartialEq, Eq, Structural)]
pub enum ThumbnailStep {
    /// The source is still being downloaded: refuse.
    Downloading,
    /// The source is not the version asked for: refuse.
    Changed,
    /// The cached thumbnail is usable: hand it out.
    UseCached,
    /// Make the thumbnail.
    Generate,
}

/// The step for a request: a source still downloading is refused first,
/// then one that changed; a usable cached thumbnail is used; otherwise the
/// thumbnail is made.
pub fn thumbnail_step(downloading: bool, fingerprint_matches: bool, cached_valid: bool) -> (r: ThumbnailStep)
    ensures
        r == (if downloading {
            ThumbnailStep::Downloading
        } else if !fingerprint_matches {
            ThumbnailStep::Changed
        } else if cached_valid {
            ThumbnailStep::UseCached
        } else {
            ThumbnailStep::Generate
        }),
{
    if downloading {
        ThumbnailStep::Downloading
    } else if !fingerprint_matches {
        ThumbnailStep::Changed
    } else if cached_valid {
        ThumbnailStep::UseCached
    } else {
        ThumbnailStep::Generate
    }
}

} // verus!
