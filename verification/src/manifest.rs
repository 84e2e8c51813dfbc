//! Tile-set manifests: their URL template, their checksum, and the pointer
//! that names the latest manifest.
//!
//! The manifest document itself is JSON; the caller serializes it and hands
//! the text here to be checksummed.
use vstd::prelude::*;

use crate::config::{strip_trailing, trim_end_char};
use crate::processing_message::UtcDateTime;
use crate::slippy_tiles::{manifest_blob_path, manifest_path, tile_set_id_valid, TileMathError};
use crate::text::{owned, push_str};
use vstd::string::StringSliceAdditionalSpecFns;
#[allow(unused_imports)]
use sha2::Digest;

verus! {

/// The SHA-256 digest of `bytes`.
pub uninterp spec fn sha256(bytes: Seq<u8>) -> Seq<u8>;

/// Hashes bytes with `sha2::Sha256::digest`; the digest is 32 bytes.
#[verifier::external_body]
pub(crate) fn sha256_digest(bytes: &[u8]) -> (r: Vec<u8>)
    ensures
        r@ == sha256(bytes@),
        r@.len() == 32,
{
    sha2::Sha256::digest(bytes).to_vec()
}

/// The lowercase hexadecimal digit of a value below 16.
pub open spec fn lower_hex_digit(v: int) -> char {
    if v < 10 {
        ('0' as int + v) as char
    } else {
        ('a' as int + v - 10) as char
    }
}

/// Two lowercase hexadecimal digits per byte, high nibble first.
pub open spec fn lower_hex(bytes: Seq<u8>) -> Seq<char>
    decreases bytes.len(),
{
    if bytes.len() == 0 {
        Seq::empty()
    } else {
        lower_hex(bytes.drop_last()) + seq![
            lower_hex_digit(bytes.last() as int / 16),
            lower_hex_digit(bytes.last() as int % 16),
        ]
    }
}

/// Encodes bytes with `hex::encode`: two lowercase hexadecimal digits per
/// byte, in order.
#[verifier::external_body]
pub(crate) fn hex_encode(bytes: &[u8]) -> (r: String)
    ensures
        r@ == lower_hex(bytes@),
{
    hex::encode(bytes)
}

proof fn lemma_lower_hex_len(bytes: Seq<u8>)
    ensures
        lower_hex(bytes).len() == 2 * bytes.len(),
    decreases bytes.len(),
{
    if bytes.len() > 0 {
        lemma_lower_hex_len(bytes.drop_last());
    }
}

proof fn lemma_lower_hex_digit_injective(a: int, b: int)
    requires
        0 <= a < 16,
        0 <= b < 16,
        lower_hex_digit(a) == lower_hex_digit(b),
    ensures
        a == b,
{
    assert(lower_hex_digit(a) as int == if a < 10 {
        '0' as int + a
    } else {
        'a' as int + a - 10
    });
    assert(lower_hex_digit(b) as int == if b < 10 {
        '0' as int + b
    } else {
        'a' as int + b - 10
    });
}

/// Different bytes have different hexadecimal texts.
pub proof fn lemma_lower_hex_injective(a: Seq<u8>, b: Seq<u8>)
    requires
        lower_hex(a) == lower_hex(b),
    ensures
        a == b,
    decreases a.len(),
{
    lemma_lower_hex_len(a);
    lemma_lower_hex_len(b);
    if a.len() > 0 {
        let ha = lower_hex(a);
        let n = ha.len();
        lemma_lower_hex_len(a.drop_last());
        lemma_lower_hex_len(b.drop_last());
        assert(ha[n - 2] == lower_hex_digit(a.last() as int / 16));
        assert(lower_hex(b)[n - 2] == lower_hex_digit(b.last() as int / 16));
        assert(ha[n - 1] == lower_hex_digit(a.last() as int % 16));
        assert(lower_hex(b)[n - 1] == lower_hex_digit(b.last() as int % 16));
        lemma_lower_hex_digit_injective(a.last() as int / 16, b.last() as int / 16);
        lemma_lower_hex_digit_injective(a.last() as int % 16, b.last() as int % 16);
        assert(a.last() == b.last());
        assert(lower_hex(a.drop_last()) =~= ha.take(n - 2));
        assert(lower_hex(b.drop_last()) =~= lower_hex(b).take(n - 2));
        lemma_lower_hex_injective(a.drop_last(), b.drop_last());
        assert(a =~= a.drop_last().push(a.last()));
        assert(b =~= b.drop_last().push(b.last()));
    } else {
        assert(a =~= b);
    }
}

/// The checksums recorded in a manifest.
#[derive(Debug, Clone, PartialEq, Eq)]
pub struct ManifestChecksums {
    pub manifest_sha256: String,
}

/// The checksum of a manifest: the lowercase hexadecimal SHA-256 of its
/// compact JSON written with an empty checksum.
pub open spec fn manifest_sha256_text(json: Seq<u8>) -> Seq<char> {
    lower_hex(sha256(json))
}

/// Checksums the compact JSON of a manifest whose checksum is still empty.
pub fn manifest_checksums(hashable_json: &str) -> (c: ManifestChecksums)
    ensures
        c.manifest_sha256@ == manifest_sha256_text(hashable_json.spec_bytes()),
        c.manifest_sha256@.len() == 64,
{
    let digest = sha256_digest(hashable_json.as_bytes());
    let text = hex_encode(digest.as_slice());
    proof {
        lemma_lower_hex_len(digest@);
    }
    ManifestChecksums { manifest_sha256: text }
}

/// `{cdn base without trailing slashes}/tiles/{id}/{z}/{x}/{y}.png`.
pub open spec fn tile_url_template(cdn_base_url: Seq<char>, tile_set_id: Seq<char>) -> Seq<char> {
    strip_trailing(cdn_base_url, '/') + "/tiles/"@ + tile_set_id + "/{z}/{x}/{y}.png"@
}

/// The URL template of a tile set's tiles on the CDN. The tile-set
/// identifier must be one that a blob path can hold.
pub fn build_tile_url_template(cdn_base_url: &str, tile_set_id: &str) -> (r: Result<
    String,
    TileMathError,
>)
    ensures
        tile_set_id_valid(tile_set_id@) ==> (r matches Ok(t) && t@ == tile_url_template(
            cdn_base_url@,
            tile_set_id@,
        )),
        !tile_set_id_valid(tile_set_id@) ==> r == Err::<String, TileMathError>(
            TileMathError::InvalidTileSetId,
        ),
{
    manifest_blob_path(tile_set_id)?;
    let mut out = trim_end_char(cdn_base_url, '/');
    push_str(&mut out, "/tiles/");
    push_str(&mut out, tile_set_id);
    push_str(&mut out, "/{z}/{x}/{y}.png");
    assert(out@ =~= tile_url_template(cdn_base_url@, tile_set_id@));
    Ok(out)
}

/// The pointer that names the latest manifest of a tile set.
#[derive(Debug, Clone, PartialEq, Eq)]
pub struct LatestManifestPointer {
    pub tile_set_id: String,
    pub manifest_blob_path: String,
    pub manifest_sha256: String,
    pub updated_at: UtcDateTime,
}

impl LatestManifestPointer {
    /// The pointer to the manifest of `tile_set_id`, whose checksum is
    /// `manifest_sha256`, as of `updated_at`.
    pub fn for_manifest(tile_set_id: &str, manifest_sha256: &str, updated_at: UtcDateTime) -> (r:
        Result<Self, TileMathError>)
        ensures
            tile_set_id_valid(tile_set_id@) ==> (r matches Ok(p) && p.tile_set_id@ == tile_set_id@
                && p.manifest_blob_path@ == manifest_path(tile_set_id@) && p.manifest_sha256@
                == manifest_sha256@ && p.updated_at == updated_at),
            !tile_set_id_valid(tile_set_id@) ==> r == Err::<Self, TileMathError>(
                TileMathError::InvalidTileSetId,
            ),
    {
        let manifest_blob_path = manifest_blob_path(tile_set_id)?;
        Ok(
            LatestManifestPointer {
                tile_set_id: owned(tile_set_id),
                manifest_blob_path,
                manifest_sha256: owned(manifest_sha256),
                updated_at,
            },
        )
    }

    /// The fixed blob path of the public latest pointer.
    pub fn blob_path() -> (r: &'static str)
        ensures
            r@ == "manifests/latest.json"@,
    {
        crate::slippy_tiles::latest_manifest_blob_path()
    }
}

} // verus!
