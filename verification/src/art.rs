//! Album art: which URIs the loader serves, the file each one is cached
//! under, and when a loaded picture is let go.

use vstd::prelude::*;
use vstd::string::StringExecFns;
use vstd::utf8::encode_utf8;
use crate::text::{hex_lower, push_char, starts_with};
use sha1::Digest;

verus! {

/// How long a picture may go undrawn before it is let go: 150 seconds.
pub const STALE_AFTER_NANOS: u128 = 150_000_000_000;

/// Whether the loader serves `uri`: web addresses only.
pub fn is_art_uri(uri: &str) -> (r: bool)
    ensures
        r == ("https://"@.is_prefix_of(uri@) || "http://"@.is_prefix_of(uri@)),
{
    starts_with(uri, "https://") || starts_with(uri, "http://")
}

/// What SHA-1 makes of `bytes`.
pub uninterp spec fn sha1_of(bytes: Seq<u8>) -> Seq<u8>;

/// The SHA-1 digest of `bytes`: `sha1::Sha1::digest`. The digest is the
/// 20 bytes FIPS 180-4 defines, named here rather than stated.
#[verifier::external_body]
fn sha1_digest(bytes: &[u8]) -> (r: Vec<u8>)
    ensures
        r@ == sha1_of(bytes@),
        r@.len() == 20,
{
    sha1::Sha1::digest(bytes).to_vec()
}

/// `bytes` as lowercase hexadecimal, two digits a byte.
pub open spec fn hex_text(bytes: Seq<u8>) -> Seq<char>
    decreases bytes.len(),
{
    if bytes.len() == 0 {
        seq![]
    } else {
        hex_text(bytes.drop_last()) + seq![hex_lower(bytes.last() as int / 16), hex_lower(bytes.last() as int % 16)]
    }
}

/// The lowercase hexadecimal digit of `d`.
fn hex_digit(d: u8) -> (c: char)
    requires
        d < 16,
    ensures
        c == hex_lower(d as int),
{
    if d < 10 {
        (48u8 + d) as char
    } else {
        (87u8 + d) as char
    }
}

/// The name of the disk-cache file for `url`: the SHA-1 of its bytes in
/// lowercase hexadecimal.
pub fn cache_file_name(url: &str) -> (r: String)
    ensures
        r@ == hex_text(sha1_of(encode_utf8(url@))),
        r@.len() == 40,
{
    let digest = sha1_digest(url.as_bytes());
    let mut name = String::new();
    let mut i: usize = 0;
    while i < digest.len()
        invariant
            i <= digest@.len(),
            name@ == hex_text(digest@.take(i as int)),
            name@.len() == 2 * i,
        decreases digest@.len() - i,
    {
        let byte = digest[i];
        proof {
            let t = digest@.take(i + 1);
            assert(t.drop_last() == digest@.take(i as int));
            assert(t.last() == byte);
        }
        push_char(&mut name, hex_digit(byte / 16));
        push_char(&mut name, hex_digit(byte % 16));
        i = i + 1;
    }
    assert(digest@.take(digest@.len() as int) == digest@);
    name
}

/// Where one picture stands in the loader.
#[derive(Clone, Copy, Debug, PartialEq, Eq, Structural)]
pub enum ArtState {
    /// Its download or disk read is under way.
    Pending,
    /// It is loaded, and was last drawn this long ago.
    Ready { undrawn_nanos: u128 },
    /// Its download failed.
    Failed,
}

/// Whether the loader lets a picture go: a failure always, so that it is
/// asked for again, and a loaded picture no view has drawn for longer than
/// `STALE_AFTER_NANOS`.
pub fn is_stale(state: ArtState) -> (r: bool)
    ensures
        r == match state {
            ArtState::Pending => false,
            ArtState::Ready { undrawn_nanos } => undrawn_nanos > STALE_AFTER_NANOS,
            ArtState::Failed => true,
        },
{
    match state {
        ArtState::Pending => false,
        ArtState::Ready { undrawn_nanos } => undrawn_nanos > STALE_AFTER_NANOS,
        ArtState::Failed => true,
    }
}

/// The largest picture the loader takes: 8 MiB.
pub const MAX_ART_BYTES: usize = 8388608;

/// Whether a downloaded picture is kept: the server must have answered
/// with success (`status` is how it answered), and the picture must not be
/// larger than `MAX_ART_BYTES`.
pub fn download_verdict(success: bool, status: &str, len: usize) -> (r: Result<(), String>)
    ensures
        !success ==> r is Err && r->Err_0@ == "artwork request failed: "@ + status@,
        success && len > MAX_ART_BYTES ==> r is Err && r->Err_0@ == "artwork is too large"@,
        success && len <= MAX_ART_BYTES ==> r is Ok,
{
    if !success {
        let mut message = String::from_str("artwork request failed: ");
        proof {
            reveal_strlit("artwork request failed: ");
        }
        message.append(status);
        return Err(message);
    }
    if len > MAX_ART_BYTES {
        return Err(String::from_str("artwork is too large"));
    }
    Ok(())
}

/// Whether a cache file is artwork: a file, and not an empty one. A
/// download is written aside and renamed into place, so one that is there
/// is complete.
pub fn cached_artwork(is_file: bool, len: u64) -> (r: bool)
    ensures
        r == (is_file && len > 0),
{
    is_file && len > 0
}

/// What the loader answers when a view asks for a picture.
#[derive(Clone, Copy, Debug, PartialEq, Eq, Structural)]
pub enum ArtLoad {
    /// Not a web address: another loader's business.
    NotSupported,
    /// The picture is in; it counts as drawn now.
    Ready,
    /// Its download or disk read is under way.
    Pending,
    /// Its download failed, with the error on record.
    Failed,
    /// Nothing is on record: the entry becomes pending and the fetch starts.
    Start,
}

/// What the loader answers for `uri`, whose entry stands at `entry` (none
/// when it has none).
pub fn load_step(uri: &str, entry: Option<ArtState>) -> (r: ArtLoad)
    ensures
        !("https://"@.is_prefix_of(uri@) || "http://"@.is_prefix_of(uri@)) ==> r == ArtLoad::NotSupported,
        ("https://"@.is_prefix_of(uri@) || "http://"@.is_prefix_of(uri@)) ==> r == match entry {
            Some(ArtState::Ready { .. }) => ArtLoad::Ready,
            Some(ArtState::Pending) => ArtLoad::Pending,
            Some(ArtState::Failed) => ArtLoad::Failed,
            None => ArtLoad::Start,
        },
{
    if !is_art_uri(uri) {
        return ArtLoad::NotSupported;
    }
    match entry {
        Some(ArtState::Ready { .. }) => ArtLoad::Ready,
        Some(ArtState::Pending) => ArtLoad::Pending,
        Some(ArtState::Failed) => ArtLoad::Failed,
        None => ArtLoad::Start,
    }
}

} // verus!
