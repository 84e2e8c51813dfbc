//! Publication of tile sets: which blobs a publication writes, what it
//! records, and which latest pointers it moves.
//!
//! The uploads and database writes are performed by the caller, in the
//! order of a [`ManifestPublicationPlan`].
use vstd::prelude::*;

use crate::db::TileSetKind;
use crate::manifest::LatestManifestPointer;
use crate::processing_message::{
    product_cadence_of, product_definition, product_named, ProcessingProduct, ProductCadence,
};
use crate::slippy_tiles::{
    manifest_blob_path, manifest_path, tile_math_error_text, tile_set_id_valid, TileCoord,
    TileMathError,
};
use crate::text::{owned, push_str};

verus! {

/// Content type of manifest and pointer blobs.
pub const JSON_CONTENT_TYPE: &'static str = "application/json";

/// Content type of tile blobs.
pub const PNG_CONTENT_TYPE: &'static str = "image/png";

/// How a tile set is published: as the intermediate result of one granule,
/// or as a product mosaic that becomes the product's latest and possibly the
/// public latest.
#[derive(Debug, Clone, Copy, PartialEq, Eq)]
pub enum PublicationMode<'a> {
    IntermediateGranule { product: &'a str },
    ProductMosaic { product: &'a str, promote_public_latest: bool },
}

/// The product a publication is for.
pub open spec fn mode_product<'a>(mode: PublicationMode<'a>) -> &'a str {
    match mode {
        PublicationMode::IntermediateGranule { product } => product,
        PublicationMode::ProductMosaic { product, .. } => product,
    }
}

impl<'a> PublicationMode<'a> {
    /// The product this publication is for.
    pub fn product(self) -> (r: &'a str)
        ensures
            r == mode_product(self),
    {
        match self {
            PublicationMode::IntermediateGranule { product } => product,
            PublicationMode::ProductMosaic { product, .. } => product,
        }
    }

    /// Granule publications record granule tile sets, mosaics mosaic ones.
    pub fn tile_set_kind(self) -> (k: TileSetKind)
        ensures
            k == (if self is IntermediateGranule {
                TileSetKind::Granule
            } else {
                TileSetKind::Mosaic
            }),
    {
        match self {
            PublicationMode::IntermediateGranule { .. } => TileSetKind::Granule,
            PublicationMode::ProductMosaic { .. } => TileSetKind::Mosaic,
        }
    }

    /// Only mosaics become the latest tile set of their product.
    pub fn promotes_product_latest(self) -> (r: bool)
        ensures
            r == self is ProductMosaic,
    {
        match self {
            PublicationMode::ProductMosaic { .. } => true,
            _ => false,
        }
    }

    /// Only mosaics published with public promotion become the public latest.
    pub fn promotes_public_latest(self) -> (r: bool)
        ensures
            r == (self matches PublicationMode::ProductMosaic { promote_public_latest, .. }
                && promote_public_latest),
    {
        match self {
            PublicationMode::ProductMosaic { promote_public_latest, .. } => promote_public_latest,
            _ => false,
        }
    }
}

/// One rendered tile, ready for upload.
#[derive(Debug, Clone, PartialEq, Eq)]
pub struct RenderedTile {
    pub coord: TileCoord,
    pub png_bytes: Vec<u8>,
    pub renderable_pixel_count: u32,
}

impl RenderedTile {
    /// Whether any pixel of the tile carries renderable radiance.
    pub fn has_renderable_evidence(&self) -> (r: bool)
        ensures
            r == (self.renderable_pixel_count > 0),
    {
        self.renderable_pixel_count > 0
    }
}

/// The latest pointers that a publication moved.
#[derive(Debug, Clone, PartialEq, Eq)]
pub struct PublishTileSetOutcome {
    pub public_latest_pointer: Option<LatestManifestPointer>,
    pub product_latest_pointer: Option<LatestManifestPointer>,
}

/// Why a publication could not be prepared.
#[derive(Debug, Clone, PartialEq, Eq)]
pub enum PublishError {
    TileMath(TileMathError),
    UnsupportedProduct { product: String },
}

/// The cadence of a product that can be published.
pub fn product_cadence(product: &str) -> (r: Result<ProductCadence, PublishError>)
    ensures
        match product_named(product@) {
            Some(p) => r == Ok::<ProductCadence, PublishError>(product_cadence_of(p)),
            None => r matches Err(PublishError::UnsupportedProduct { product: name }) && name@
                == product@,
        },
{
    match product_definition(product) {
        Some(definition) => Ok(definition.cadence),
        None => Err(PublishError::UnsupportedProduct { product: owned(product) }),
    }
}

/// `manifests/latest/{product}.json`
pub open spec fn product_latest_path(product: Seq<char>) -> Seq<char> {
    "manifests/latest/"@ + product + ".json"@
}

/// The blob path of a product's latest pointer.
pub fn product_latest_manifest_blob_path(product: &str) -> (r: String)
    ensures
        r@ == product_latest_path(product@),
{
    let mut out = String::new();
    push_str(&mut out, "manifests/latest/");
    push_str(&mut out, product);
    push_str(&mut out, ".json");
    assert(out@ =~= product_latest_path(product@));
    out
}

/// What publishing a manifest writes, in order: the manifest blob, the
/// tile-set row, then, when asked, the product latest pointer and the public
/// latest pointer.
#[derive(Debug, Clone, PartialEq, Eq)]
pub struct ManifestPublicationPlan {
    pub manifest_blob_path: String,
    pub cadence: ProductCadence,
    pub kind: TileSetKind,
    pub product_latest_blob_path: Option<String>,
    pub promote_public_latest: bool,
}

/// Whether `plan` is the publication of the manifest of `tile_set_id`, for
/// product `p`, in `mode`.
pub open spec fn plans_publication(
    plan: ManifestPublicationPlan,
    tile_set_id: Seq<char>,
    mode: PublicationMode,
    p: ProcessingProduct,
) -> bool {
    &&& plan.manifest_blob_path@ == manifest_path(tile_set_id)
    &&& plan.cadence == product_cadence_of(p)
    &&& plan.kind == (if mode is IntermediateGranule {
        TileSetKind::Granule
    } else {
        TileSetKind::Mosaic
    })
    &&& match plan.product_latest_blob_path {
        Some(path) => mode is ProductMosaic && path@ == product_latest_path(mode_product(mode)@),
        None => mode is IntermediateGranule,
    }
    &&& plan.promote_public_latest == (mode matches PublicationMode::ProductMosaic {
        promote_public_latest,
        ..
    } && promote_public_latest)
}

/// Plans the publication of the manifest of `tile_set_id` in `mode`. The
/// manifest path is checked before the product.
pub fn plan_manifest_publication(tile_set_id: &str, mode: PublicationMode) -> (r: Result<
    ManifestPublicationPlan,
    PublishError,
>)
    ensures
        !tile_set_id_valid(tile_set_id@) ==> r == Err::<ManifestPublicationPlan, PublishError>(
            PublishError::TileMath(TileMathError::InvalidTileSetId),
        ),
        tile_set_id_valid(tile_set_id@) ==> match product_named(mode_product(mode)@) {
            None => r matches Err(PublishError::UnsupportedProduct { product }) && product@
                == mode_product(mode)@,
            Some(p) => r matches Ok(plan) && plans_publication(plan, tile_set_id@, mode, p),
        },
{
    let manifest_blob_path = match manifest_blob_path(tile_set_id) {
        Ok(path) => path,
        Err(e) => {
            return Err(PublishError::TileMath(e));
        },
    };
    let product = mode.product();
    let cadence = product_cadence(product)?;
    let product_latest_blob_path = if mode.promotes_product_latest() {
        Some(product_latest_manifest_blob_path(product))
    } else {
        None
    };
    Ok(
        ManifestPublicationPlan {
            manifest_blob_path,
            cadence,
            kind: mode.tile_set_kind(),
            product_latest_blob_path,
            promote_public_latest: mode.promotes_public_latest(),
        },
    )
}

/// The message of a publication error.
pub open spec fn publish_error_text(e: PublishError) -> Seq<char> {
    match e {
        PublishError::TileMath(error) => tile_math_error_text(error),
        PublishError::UnsupportedProduct { product } => "unsupported tile publication product '"@
            + product@ + "'"@,
    }
}

impl PublishError {
    /// The message shown for this error.
    pub fn message(&self) -> (r: String)
        ensures
            r@ == publish_error_text(*self),
    {
        match self {
            PublishError::TileMath(error) => error.message(),
            PublishError::UnsupportedProduct { product } => {
                let mut out = String::new();
                push_str(&mut out, "unsupported tile publication product '");
                push_str(&mut out, product.as_str());
                push_str(&mut out, "'");
                assert(out@ =~= publish_error_text(*self));
                out
            },
        }
    }
}

} // verus!
