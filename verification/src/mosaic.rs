//! Product mosaics: the coverage policy for public promotion, the mosaic's
//! identifier, and the compositing of per-granule tiles into one tile.
//!
//! Selecting sources, downloading granules and rendering their windows are
//! performed by the caller; each per-granule tile is composited here.
use vstd::prelude::*;

use crate::commands::CalendarDate;
use crate::manifest::{hex_encode, lower_hex, sha256, sha256_digest};
use crate::publish::RenderedTile;
use crate::render::{encode_rgba_png, png_rgba8};
use crate::slippy_tiles::{TileCoord, ViirsCoverageSummary, ViirsTileCoord};
use crate::text::{
    ascii_lower_chars, ascii_lower_seq, chars_of, date_text, dec, has_prefix, owned, padded, push_date,
    push_dec, push_padded, push_str, string_of,
};
use vstd::string::StringSliceAdditionalSpecFns;
use vstd::utf8::encode_utf8;

verus! {

/// Why a mosaic could not be made or promoted.
#[derive(Debug)]
pub enum MosaicError {
    UnsupportedProduct { product: String },
    TooFewSources { product: String, dataset_date: CalendarDate, found: usize },
    IncompletePublicCoverage {
        product: String,
        dataset_date: CalendarDate,
        expected_tile_count: usize,
        present_tile_count: usize,
        missing_tiles: String,
    },
    NoEligibleDatasetDate { product: String },
    DecodeTile { z: u8, x: u32, y: u32, source: image::ImageError },
    EncodeTile { z: u8, x: u32, y: u32, source: image::ImageError },
    TileDimensionMismatch { z: u8, x: u32, y: u32, width: u32, height: u32, expected: u32 },
}

/// `h{hh}v{vv}`: a VIIRS tile with two-digit indices.
pub open spec fn viirs_tile_name(c: ViirsTileCoord) -> Seq<char> {
    "h"@ + padded(c.tile_h as int, 2, false) + "v"@ + padded(c.tile_v as int, 2, false)
}

/// The names of VIIRS tiles joined by commas.
pub open spec fn viirs_tile_list(tiles: Seq<ViirsTileCoord>) -> Seq<char>
    decreases tiles.len(),
{
    if tiles.len() == 0 {
        Seq::empty()
    } else if tiles.len() == 1 {
        viirs_tile_name(tiles[0])
    } else {
        viirs_tile_list(tiles.drop_last()) + ","@ + viirs_tile_name(tiles.last())
    }
}

/// Lists VIIRS tiles as `h05v04,h05v05,...`.
pub fn format_viirs_tiles(tiles: &Vec<ViirsTileCoord>) -> (r: String)
    ensures
        r@ == viirs_tile_list(tiles@),
{
    let mut out = String::new();
    let mut i: usize = 0;
    while i < tiles.len()
        invariant
            i <= tiles@.len(),
            out@ == viirs_tile_list(tiles@.take(i as int)),
        decreases tiles@.len() - i,
    {
        let ghost before = out@;
        if i > 0 {
            push_str(&mut out, ",");
        }
        push_str(&mut out, "h");
        push_padded(&mut out, tiles[i].tile_h as i64, 2, false);
        push_str(&mut out, "v");
        push_padded(&mut out, tiles[i].tile_v as i64, 2, false);
        assert(tiles@.take(i + 1).drop_last() == tiles@.take(i as int));
        assert(tiles@.take(i + 1).last() == tiles@[i as int]);
        if i == 0 {
            assert(out@ =~= viirs_tile_list(tiles@.take(i + 1)));
        } else {
            assert(out@ =~= before + ","@ + viirs_tile_name(tiles@[i as int]));
        }
        i = i + 1;
    }
    assert(tiles@.take(i as int) == tiles@);
    out
}

/// Promotion to the public latest requires complete coverage unless the
/// operator explicitly allows an incomplete mosaic.
pub open spec fn coverage_blocks_promotion(
    promote_public_latest: bool,
    allow_incomplete_public_latest: bool,
    coverage: ViirsCoverageSummary,
) -> bool {
    promote_public_latest && !coverage.complete && !allow_incomplete_public_latest
}

/// Refuses to promote an incomplete mosaic to the public latest, unless
/// allowed; the error lists the missing tiles.
pub fn enforce_public_coverage_policy(
    product: &str,
    dataset_date: CalendarDate,
    promote_public_latest: bool,
    allow_incomplete_public_latest: bool,
    coverage: &ViirsCoverageSummary,
) -> (r: Result<(), MosaicError>)
    ensures
        !coverage_blocks_promotion(promote_public_latest, allow_incomplete_public_latest, *coverage)
            ==> r is Ok,
        coverage_blocks_promotion(promote_public_latest, allow_incomplete_public_latest, *coverage)
            ==> (r matches Err(
            MosaicError::IncompletePublicCoverage {
                product: p,
                dataset_date: d,
                expected_tile_count,
                present_tile_count,
                missing_tiles,
            },
        ) && p@ == product@ && d == dataset_date && expected_tile_count
            == coverage.expected_tile_count && present_tile_count == coverage.present_tile_count
            && missing_tiles@ == viirs_tile_list(coverage.missing_tiles@)),
{
    if !promote_public_latest || coverage.complete {
        return Ok(());
    }
    let missing_tiles = format_viirs_tiles(&coverage.missing_tiles);
    if allow_incomplete_public_latest {
        return Ok(());
    }
    Err(
        MosaicError::IncompletePublicCoverage {
            product: owned(product),
            dataset_date,
            expected_tile_count: coverage.expected_tile_count,
            present_tile_count: coverage.present_tile_count,
            missing_tiles,
        },
    )
}

/// A mosaic needs at least two source granules.
pub fn require_mosaic_sources(product: &str, dataset_date: CalendarDate, found: usize) -> (r: Result<
    (),
    MosaicError,
>)
    ensures
        found >= 2 ==> r is Ok,
        found < 2 ==> (r matches Err(MosaicError::TooFewSources { product: p, dataset_date: d, found: f })
            && p@ == product@ && d == dataset_date && f == found),
{
    if found < 2 {
        return Err(MosaicError::TooFewSources { product: owned(product), dataset_date, found });
    }
    Ok(())
}

/// The dataset date of a mosaic: the requested one, else the latest date
/// with enough processed sources, else an error.
pub fn resolve_mosaic_dataset_date(
    product: &str,
    requested: Option<CalendarDate>,
    latest_eligible: Option<CalendarDate>,
) -> (r: Result<CalendarDate, MosaicError>)
    ensures
        match (requested, latest_eligible) {
            (Some(d), _) => r matches Ok(x) && x == d,
            (None, Some(d)) => r matches Ok(x) && x == d,
            (None, None) => r matches Err(MosaicError::NoEligibleDatasetDate { product: p })
                && p@ == product@,
        },
{
    match requested {
        Some(date) => Ok(date),
        None => match latest_eligible {
            Some(date) => Ok(date),
            None => Err(MosaicError::NoEligibleDatasetDate { product: owned(product) }),
        },
    }
}

// ---------------------------------------------------------------------------
// Identifier
// ---------------------------------------------------------------------------

/// The UTF-8 bytes of several strings, one after another.
pub open spec fn concatenated_bytes(items: Seq<Seq<char>>) -> Seq<u8>
    decreases items.len(),
{
    if items.len() == 0 {
        Seq::empty()
    } else {
        concatenated_bytes(items.drop_last()) + encode_utf8(items.last())
    }
}

/// What the mosaic identifier hashes: product, date, classification and
/// render versions, then the tile set of every source, in order.
pub open spec fn mosaic_digest_input(
    product: Seq<char>,
    dataset_date: CalendarDate,
    classification_version: Seq<char>,
    render_version: Seq<char>,
    source_tile_set_ids: Seq<Seq<char>>,
) -> Seq<u8> {
    encode_utf8(product) + encode_utf8(
        date_text(dataset_date.year as int, dataset_date.month as int, dataset_date.day as int),
    ) + encode_utf8(classification_version) + encode_utf8(render_version) + concatenated_bytes(
        source_tile_set_ids,
    )
}

/// `{date}-{classification version}-{product in lowercase}-mosaic-{suffix}`,
/// where the suffix is the first four bytes of the SHA-256 of
/// [`mosaic_digest_input`], in hexadecimal.
pub open spec fn mosaic_id_text(
    product: Seq<char>,
    dataset_date: CalendarDate,
    classification_version: Seq<char>,
    render_version: Seq<char>,
    source_tile_set_ids: Seq<Seq<char>>,
) -> Seq<char> {
    date_text(dataset_date.year as int, dataset_date.month as int, dataset_date.day as int) + "-"@
        + classification_version + "-"@ + ascii_lower_seq(product) + "-mosaic-"@ + lower_hex(
        sha256(
            mosaic_digest_input(
                product,
                dataset_date,
                classification_version,
                render_version,
                source_tile_set_ids,
            ),
        ).take(4),
    )
}

/// The render version reaches a mosaic identifier: for two render versions
/// the SHA-256 inputs differ, so the identifiers coincide only when SHA-256
/// gives those two different inputs the same first four bytes.
pub proof fn lemma_render_version_reaches_mosaic_id(
    product: Seq<char>,
    dataset_date: CalendarDate,
    classification_version: Seq<char>,
    render_version_a: Seq<char>,
    render_version_b: Seq<char>,
    source_tile_set_ids: Seq<Seq<char>>,
)
    requires
        render_version_a != render_version_b,
    ensures
        mosaic_digest_input(
            product,
            dataset_date,
            classification_version,
            render_version_a,
            source_tile_set_ids,
        ) != mosaic_digest_input(
            product,
            dataset_date,
            classification_version,
            render_version_b,
            source_tile_set_ids,
        ),
        mosaic_id_text(
            product,
            dataset_date,
            classification_version,
            render_version_a,
            source_tile_set_ids,
        ) == mosaic_id_text(
            product,
            dataset_date,
            classification_version,
            render_version_b,
            source_tile_set_ids,
        ) ==> sha256(
            mosaic_digest_input(
                product,
                dataset_date,
                classification_version,
                render_version_a,
                source_tile_set_ids,
            ),
        ).take(4) == sha256(
            mosaic_digest_input(
                product,
                dataset_date,
                classification_version,
                render_version_b,
                source_tile_set_ids,
            ),
        ).take(4),
{
    let date = date_text(dataset_date.year as int, dataset_date.month as int, dataset_date.day as int);
    let prefix = encode_utf8(product) + encode_utf8(date) + encode_utf8(classification_version);
    let ea = encode_utf8(render_version_a);
    let eb = encode_utf8(render_version_b);
    let rest = concatenated_bytes(source_tile_set_ids);
    let xa = mosaic_digest_input(product, dataset_date, classification_version, render_version_a, source_tile_set_ids);
    let xb = mosaic_digest_input(product, dataset_date, classification_version, render_version_b, source_tile_set_ids);
    assert(xa == prefix + ea + rest);
    assert(xb == prefix + eb + rest);
    if xa == xb {
        let p = prefix.len() as int;
        assert(ea.len() == eb.len());
        assert(xa.subrange(p, p + ea.len()) =~= ea);
        assert(xb.subrange(p, p + eb.len()) =~= eb);
        vstd::utf8::encode_utf8_decode_utf8(render_version_a);
        vstd::utf8::encode_utf8_decode_utf8(render_version_b);
        assert(false);
    }
    let head = date + "-"@ + classification_version + "-"@ + ascii_lower_seq(product) + "-mosaic-"@;
    let ha = sha256(xa).take(4);
    let hb = sha256(xb).take(4);
    let ia = mosaic_id_text(product, dataset_date, classification_version, render_version_a, source_tile_set_ids);
    let ib = mosaic_id_text(product, dataset_date, classification_version, render_version_b, source_tile_set_ids);
    assert(ia == head + lower_hex(ha));
    assert(ib == head + lower_hex(hb));
    if ia == ib {
        assert(ia.skip(head.len() as int) =~= lower_hex(ha));
        assert(ib.skip(head.len() as int) =~= lower_hex(hb));
        crate::manifest::lemma_lower_hex_injective(ha, hb);
    }
}

fn push_bytes(out: &mut Vec<u8>, bytes: &[u8])
    ensures
        final(out)@ == old(out)@ + bytes@,
{
    let ghost start = out@;
    let mut i: usize = 0;
    while i < bytes.len()
        invariant
            i <= bytes@.len(),
            out@ == start + bytes@.take(i as int),
        decreases bytes@.len() - i,
    {
        out.push(bytes[i]);
        assert(bytes@.take(i + 1) == bytes@.take(i as int).push(bytes@[i as int]));
        i = i + 1;
    }
    assert(bytes@.take(i as int) == bytes@);
}

/// The identifier of a product/date mosaic: stable for the same sources in
/// the same order.
pub fn mosaic_tile_set_id(
    classification_version: &str,
    render_version: &str,
    product: &str,
    dataset_date: CalendarDate,
    source_tile_set_ids: &Vec<String>,
) -> (r: String)
    ensures
        r@ == mosaic_id_text(
            product@,
            dataset_date,
            classification_version@,
            render_version@,
            source_tile_set_ids@.map_values(|s: String| s@),
        ),
{
    let ghost ids = source_tile_set_ids@.map_values(|s: String| s@);
    let mut date = String::new();
    push_date(&mut date, dataset_date.year, dataset_date.month, dataset_date.day);
    let mut input: Vec<u8> = Vec::new();
    push_bytes(&mut input, product.as_bytes());
    push_bytes(&mut input, date.as_str().as_bytes());
    push_bytes(&mut input, classification_version.as_bytes());
    push_bytes(&mut input, render_version.as_bytes());
    let ghost head = input@;
    let mut i: usize = 0;
    while i < source_tile_set_ids.len()
        invariant
            i <= source_tile_set_ids@.len(),
            ids == source_tile_set_ids@.map_values(|s: String| s@),
            input@ == head + concatenated_bytes(ids.take(i as int)),
        decreases source_tile_set_ids@.len() - i,
    {
        push_bytes(&mut input, source_tile_set_ids[i].as_str().as_bytes());
        assert(ids.take(i + 1).drop_last() == ids.take(i as int));
        assert(ids.take(i + 1).last() == source_tile_set_ids@[i as int]@);
        assert(input@ =~= head + concatenated_bytes(ids.take(i + 1)));
        i = i + 1;
    }
    assert(ids.take(i as int) == ids);
    assert(input@ =~= mosaic_digest_input(
        product@,
        dataset_date,
        classification_version@,
        render_version@,
        ids,
    ));
    let digest = sha256_digest(input.as_slice());
    let mut prefix: Vec<u8> = Vec::new();
    prefix.push(digest[0]);
    prefix.push(digest[1]);
    prefix.push(digest[2]);
    prefix.push(digest[3]);
    assert(prefix@ == digest@.take(4));
    let suffix = hex_encode(prefix.as_slice());
    let mut out = date;
    push_str(&mut out, "-");
    push_str(&mut out, classification_version);
    push_str(&mut out, "-");
    let lower = ascii_lower_chars(&chars_of(product));
    push_str(&mut out, string_of(&lower).as_str());
    push_str(&mut out, "-mosaic-");
    push_str(&mut out, suffix.as_str());
    assert(out@ =~= mosaic_id_text(
        product@,
        dataset_date,
        classification_version@,
        render_version@,
        ids,
    ));
    out
}

/// The tiles whose bounds make a mosaic's coverage: those at the maximum
/// native zoom, or every tile when none is at that zoom.
pub fn coverage_coords(tiles: &Vec<RenderedTile>, max_native_zoom: u8) -> (r: Vec<TileCoord>)
    ensures
        (exists|i: int| 0 <= i < tiles@.len() && tiles@[i].coord.z == max_native_zoom) ==> r@
            == tiles@.filter(|t: RenderedTile| t.coord.z == max_native_zoom).map_values(
            |t: RenderedTile| t.coord,
        ),
        !(exists|i: int| 0 <= i < tiles@.len() && tiles@[i].coord.z == max_native_zoom) ==> r@
            == tiles@.map_values(|t: RenderedTile| t.coord),
        r@.len() == 0 <==> tiles@.len() == 0,
{
    let mut native: Vec<TileCoord> = Vec::new();
    let mut all: Vec<TileCoord> = Vec::new();
    let mut i: usize = 0;
    while i < tiles.len()
        invariant
            i <= tiles@.len(),
            native@ == tiles@.take(i as int).filter(|t: RenderedTile| t.coord.z
                == max_native_zoom).map_values(|t: RenderedTile| t.coord),
            all@ == tiles@.take(i as int).map_values(|t: RenderedTile| t.coord),
            native@.len() == 0 ==> !(exists|j: int|
                0 <= j < i && tiles@[j].coord.z == max_native_zoom),
            native@.len() > 0 ==> (exists|j: int|
                0 <= j < i && tiles@[j].coord.z == max_native_zoom),
        decreases tiles@.len() - i,
    {
        let coord = tiles[i].coord;
        assert(tiles@.take(i + 1).drop_last() == tiles@.take(i as int));
        reveal(Seq::filter);
        if coord.z == max_native_zoom {
            native.push(coord);
            assert(tiles@[i as int].coord.z == max_native_zoom);
        }
        all.push(coord);
        assert(all@ =~= tiles@.take(i + 1).map_values(|t: RenderedTile| t.coord));
        assert(native@ =~= tiles@.take(i + 1).filter(|t: RenderedTile| t.coord.z
            == max_native_zoom).map_values(|t: RenderedTile| t.coord));
        i = i + 1;
    }
    assert(tiles@.take(i as int) == tiles@);
    if native.len() == 0 {
        all
    } else {
        native
    }
}

// ---------------------------------------------------------------------------
// Compositing
// ---------------------------------------------------------------------------

/// The 8-bit RGBA image that `image`'s built-in PNG decoder reads from
/// `bytes` (width, height and the pixels row by row), or `None` when the
/// decoder refuses the bytes.
pub uninterp spec fn rgba8_decoded(bytes: Seq<u8>) -> Option<(u32, u32, Seq<u8>)>;

/// Decodes PNG bytes with `image::load_from_memory_with_format` (format
/// `ImageFormat::Png`, so the built-in PNG decoder with its default limits,
/// no format guessing and no registered hooks) and converts the image with
/// `DynamicImage::to_rgba8`. Whether decoding succeeds, and the image it
/// gives, depend on the bytes alone; the image holds four bytes per pixel.
#[verifier::external_body]
pub(crate) fn decode_rgba8(bytes: &Vec<u8>) -> (r: Result<(u32, u32, Vec<u8>), image::ImageError>)
    ensures
        match r {
            Ok((w, h, px)) => rgba8_decoded(bytes@) == Some((w, h, px@)) && px@.len() == w * h
                * 4,
            Err(_) => rgba8_decoded(bytes@) is None,
        },
{
    match image::load_from_memory_with_format(bytes, image::ImageFormat::Png) {
        Ok(decoded) => {
            let rgba = decoded.to_rgba8();
            Ok((rgba.width(), rgba.height(), rgba.into_raw()))
        },
        Err(error) => Err(error),
    }
}

/// A square RGBA image under construction, row by row, four bytes a pixel.
#[derive(Debug, Clone, PartialEq, Eq)]
pub struct RgbaCanvas {
    pub size: u32,
    pub pixels: Vec<u8>,
}

impl RgbaCanvas {
    /// Whether the buffer holds exactly `size * size` pixels.
    pub open spec fn well_formed(&self) -> bool {
        self.pixels@.len() == self.size * self.size * 4
    }

    /// A fully transparent canvas.
    pub fn transparent(size: u32) -> (c: Self)
        requires
            size * size * 4 <= usize::MAX,
        ensures
            c.size == size,
            c.well_formed(),
            forall|i: int| 0 <= i < c.pixels@.len() ==> #[trigger] c.pixels@[i] == 0,
    {
        let side = size as usize;
        let n: usize = side * side * 4;
        let mut pixels: Vec<u8> = Vec::new();
        let mut i: usize = 0;
        while i < n
            invariant
                i <= n,
                pixels@.len() == i,
                forall|j: int| 0 <= j < i ==> #[trigger] pixels@[j] == 0,
            decreases n - i,
        {
            pixels.push(0);
            i = i + 1;
        }
        RgbaCanvas { size, pixels }
    }
}

/// `base` with every pixel of `top` whose alpha is not zero laid over it.
pub open spec fn overlay(base: Seq<u8>, top: Seq<u8>) -> Seq<u8> {
    Seq::new(
        base.len(),
        |i: int|
            if top[(i / 4) * 4 + 3] > 0 {
                top[i]
            } else {
                base[i]
            },
    )
}

/// Lays a rendered tile over the canvas: its opaque pixels replace the
/// canvas pixels. The tile must decode to an image of the canvas size.
pub fn composite_rendered_tile(
    target: &mut RgbaCanvas,
    rendered: &RenderedTile,
    expected_size: u32,
) -> (r: Result<(), MosaicError>)
    requires
        old(target).well_formed(),
        old(target).size == expected_size,
    ensures
        final(target).size == old(target).size,
        final(target).well_formed(),
        match r {
            Ok(()) => {
                &&& rgba8_decoded(rendered.png_bytes@) matches Some((w, h, px))
                &&& w == expected_size && h == expected_size
                &&& final(target).pixels@ == overlay(old(target).pixels@, px)
            },
            Err(MosaicError::DecodeTile { z, x, y, .. }) => z == rendered.coord.z && x
                == rendered.coord.x && y == rendered.coord.y && *final(target) == *old(target),
            Err(MosaicError::TileDimensionMismatch { z, x, y, width, height, expected }) => {
                &&& rgba8_decoded(rendered.png_bytes@) matches Some((w, h, px))
                &&& z == rendered.coord.z && x == rendered.coord.x && y == rendered.coord.y
                &&& width == w && height == h && expected == expected_size
                &&& (w != expected_size || h != expected_size)
                &&& *final(target) == *old(target)
            },
            Err(_) => false,
        },
        r matches Err(MosaicError::DecodeTile { .. }) <==> rgba8_decoded(rendered.png_bytes@) is None,
{
    let (width, height, top) = match decode_rgba8(&rendered.png_bytes) {
        Ok(image) => image,
        Err(source) => {
            return Err(
                MosaicError::DecodeTile {
                    z: rendered.coord.z,
                    x: rendered.coord.x,
                    y: rendered.coord.y,
                    source,
                },
            );
        },
    };
    if width != expected_size || height != expected_size {
        return Err(
            MosaicError::TileDimensionMismatch {
                z: rendered.coord.z,
                x: rendered.coord.x,
                y: rendered.coord.y,
                width,
                height,
                expected: expected_size,
            },
        );
    }
    let ghost base = target.pixels@;
    let n = target.pixels.len();
    assert(top@.len() == n);
    let mut p: usize = 0;
    while p < n
        invariant
            n == base.len(),
            n == top@.len(),
            n % 4 == 0,
            p <= n,
            p % 4 == 0,
            target.pixels@.len() == n,
            target.size == expected_size,
            forall|j: int| 0 <= j < p ==> #[trigger] target.pixels@[j] == overlay(base, top@)[j],
            forall|j: int| p <= j < n ==> #[trigger] target.pixels@[j] == base[j],
        decreases n - p,
    {
        assert(p + 4 <= n);
        if top[p + 3] > 0 {
            target.pixels.set(p, top[p]);
            target.pixels.set(p + 1, top[p + 1]);
            target.pixels.set(p + 2, top[p + 2]);
            target.pixels.set(p + 3, top[p + 3]);
        }
        assert forall|j: int| p <= j < p + 4 implies #[trigger] overlay(base, top@)[j] == (if top@[p
            + 3] > 0 {
            top@[j]
        } else {
            base[j]
        }) by {
            assert(j / 4 == p / 4);
        }
        p = p + 4;
    }
    assert(target.pixels@ =~= overlay(base, top@));
    Ok(())
}

/// The number of pixels whose alpha is not zero.
pub open spec fn opaque_pixels(px: Seq<u8>) -> nat
    decreases px.len(),
{
    if px.len() < 4 {
        0
    } else {
        opaque_pixels(px.subrange(0, px.len() - 4)) + if px[px.len() - 1] > 0 {
            1nat
        } else {
            0nat
        }
    }
}

/// Finishes a mosaic tile: nothing when no pixel is opaque, else the PNG of
/// the canvas with its opaque-pixel count (truncated to `u32`).
pub fn finish_mosaic_tile(coord: TileCoord, canvas: &RgbaCanvas) -> (r: Result<
    Option<RenderedTile>,
    MosaicError,
>)
    requires
        canvas.well_formed(),
    ensures
        opaque_pixels(canvas.pixels@) == 0 ==> r matches Ok(None),
        opaque_pixels(canvas.pixels@) > 0 && opaque_pixels(canvas.pixels@) as u32 == 0 ==> r
            matches Ok(None),
        opaque_pixels(canvas.pixels@) as u32 > 0 ==> (r matches Ok(Some(tile)) && tile.coord
            == coord && tile.renderable_pixel_count == opaque_pixels(canvas.pixels@) as u32
            && tile.png_bytes@ == png_rgba8(canvas.pixels@, canvas.size, canvas.size)),
{
    let n = canvas.pixels.len();
    let mut count: usize = 0;
    let mut p: usize = 0;
    assert(n % 4 == 0) by (nonlinear_arith)
        requires
            n == canvas.size * canvas.size * 4,
    ;
    while p < n
        invariant
            n == canvas.pixels@.len(),
            n % 4 == 0,
            p <= n,
            p % 4 == 0,
            count == opaque_pixels(canvas.pixels@.take(p as int)),
            count <= p,
        decreases n - p,
    {
        assert(canvas.pixels@.take(p + 4).subrange(0, p as int) == canvas.pixels@.take(p as int));
        assert(canvas.pixels@.take(p + 4)[p + 3] == canvas.pixels@[p + 3]);
        if canvas.pixels[p + 3] > 0 {
            count = count + 1;
        }
        p = p + 4;
    }
    assert(canvas.pixels@.take(p as int) == canvas.pixels@);
    let renderable_pixel_count = count as u32;
    if renderable_pixel_count == 0 {
        return Ok(None);
    }
    assert(canvas.size > 0) by (nonlinear_arith)
        requires
            n == canvas.size * canvas.size * 4,
            0 < count <= n,
    ;
    match encode_rgba_png(&canvas.pixels, canvas.size, canvas.size) {
        Ok(png_bytes) => Ok(Some(RenderedTile { coord, png_bytes, renderable_pixel_count })),
        Err(source) => Err(MosaicError::EncodeTile { z: coord.z, x: coord.x, y: coord.y, source }),
    }
}

// ---------------------------------------------------------------------------
// Messages
// ---------------------------------------------------------------------------

/// `Display` of an image codec error (`format!("{}", e)`); the crate's
/// wording of each kind of error is not restated here.
#[verifier::external_body]
fn image_error_text(error: &image::ImageError) -> String {
    format!("{}", error)
}

/// `z{z}/{x}/{y}`: a tile address in messages.
pub open spec fn tile_address_text(z: u8, x: u32, y: u32) -> Seq<char> {
    "z"@ + dec(z as nat) + "/"@ + dec(x as nat) + "/"@ + dec(y as nat)
}

/// `YYYY-MM-DD`: a dataset date in messages.
pub open spec fn calendar_date_text(d: CalendarDate) -> Seq<char> {
    date_text(d.year as int, d.month as int, d.day as int)
}

/// The message of a mosaic error; for a tile that could not be decoded or
/// encoded, the text before the codec's own description.
pub open spec fn mosaic_error_text(e: MosaicError) -> Seq<char> {
    match e {
        MosaicError::UnsupportedProduct { product } => "mosaic error: unsupported product '"@
            + product@ + "'"@,
        MosaicError::TooFewSources { product, dataset_date, found } => "mosaic error: found "@ + dec(
            found as nat,
        ) + " processed source granule(s) for "@ + product@ + " "@ + calendar_date_text(dataset_date)
            + "; at least 2 are required"@,
        MosaicError::IncompletePublicCoverage {
            product,
            dataset_date,
            expected_tile_count,
            present_tile_count,
            missing_tiles,
        } => "mosaic error: refusing to promote incomplete public latest for "@ + product@ + " "@
            + calendar_date_text(dataset_date) + ": "@ + dec(present_tile_count as nat) + "/"@ + dec(
            expected_tile_count as nat,
        ) + " expected VIIRS tile(s) present; missing tiles: "@ + missing_tiles@,
        MosaicError::NoEligibleDatasetDate { product } =>
            "mosaic error: no processed source date found for "@ + product@
            + " with at least 2 eligible granule tile set(s)"@,
        MosaicError::DecodeTile { z, x, y, source } => "mosaic error: failed to decode rendered tile "@
            + tile_address_text(z, x, y) + ": "@,
        MosaicError::EncodeTile { z, x, y, source } => "mosaic error: failed to encode rendered tile "@
            + tile_address_text(z, x, y) + ": "@,
        MosaicError::TileDimensionMismatch { z, x, y, width, height, expected } =>
            "mosaic error: rendered tile "@ + tile_address_text(z, x, y) + " had dimensions "@ + dec(
            width as nat,
        ) + "x"@ + dec(height as nat) + ", expected "@ + dec(expected as nat) + "x"@ + dec(
            expected as nat,
        ),
    }
}

fn push_tile_address(out: &mut String, z: u8, x: u32, y: u32)
    ensures
        final(out)@ == old(out)@ + tile_address_text(z, x, y),
{
    let ghost start = out@;
    push_str(out, "z");
    push_dec(out, z as u64);
    push_str(out, "/");
    push_dec(out, x as u64);
    push_str(out, "/");
    push_dec(out, y as u64);
    assert(out@ =~= start + tile_address_text(z, x, y));
}

impl MosaicError {
    /// The message shown for this error. A tile that could not be decoded or
    /// encoded is reported with the codec's own description after the stated
    /// text.
    pub fn message(&self) -> (r: String)
        ensures
            !(self is DecodeTile || self is EncodeTile) ==> r@ == mosaic_error_text(*self),
            (self is DecodeTile || self is EncodeTile) ==> has_prefix(r@, mosaic_error_text(*self)),
    {
        let mut out = String::new();
        match self {
            MosaicError::UnsupportedProduct { product } => {
                push_str(&mut out, "mosaic error: unsupported product '");
                push_str(&mut out, product.as_str());
                push_str(&mut out, "'");
            },
            MosaicError::TooFewSources { product, dataset_date, found } => {
                push_str(&mut out, "mosaic error: found ");
                push_dec(&mut out, *found as u64);
                push_str(&mut out, " processed source granule(s) for ");
                push_str(&mut out, product.as_str());
                push_str(&mut out, " ");
                push_date(&mut out, dataset_date.year, dataset_date.month, dataset_date.day);
                push_str(&mut out, "; at least 2 are required");
            },
            MosaicError::IncompletePublicCoverage {
                product,
                dataset_date,
                expected_tile_count,
                present_tile_count,
                missing_tiles,
            } => {
                push_str(&mut out, "mosaic error: refusing to promote incomplete public latest for ");
                push_str(&mut out, product.as_str());
                push_str(&mut out, " ");
                push_date(&mut out, dataset_date.year, dataset_date.month, dataset_date.day);
                push_str(&mut out, ": ");
                push_dec(&mut out, *present_tile_count as u64);
                push_str(&mut out, "/");
                push_dec(&mut out, *expected_tile_count as u64);
                push_str(&mut out, " expected VIIRS tile(s) present; missing tiles: ");
                push_str(&mut out, missing_tiles.as_str());
            },
            MosaicError::NoEligibleDatasetDate { product } => {
                push_str(&mut out, "mosaic error: no processed source date found for ");
                push_str(&mut out, product.as_str());
                push_str(&mut out, " with at least 2 eligible granule tile set(s)");
            },
            MosaicError::DecodeTile { z, x, y, source } => {
                push_str(&mut out, "mosaic error: failed to decode rendered tile ");
                push_tile_address(&mut out, *z, *x, *y);
                push_str(&mut out, ": ");
                let ghost before = out@;
                let detail = image_error_text(source);
                push_str(&mut out, detail.as_str());
                assert(before =~= mosaic_error_text(*self));
                assert(out@.subrange(0, before.len() as int) =~= before);
                return out;
            },
            MosaicError::EncodeTile { z, x, y, source } => {
                push_str(&mut out, "mosaic error: failed to encode rendered tile ");
                push_tile_address(&mut out, *z, *x, *y);
                push_str(&mut out, ": ");
                let ghost before = out@;
                let detail = image_error_text(source);
                push_str(&mut out, detail.as_str());
                assert(before =~= mosaic_error_text(*self));
                assert(out@.subrange(0, before.len() as int) =~= before);
                return out;
            },
            MosaicError::TileDimensionMismatch { z, x, y, width, height, expected } => {
                push_str(&mut out, "mosaic error: rendered tile ");
                push_tile_address(&mut out, *z, *x, *y);
                push_str(&mut out, " had dimensions ");
                push_dec(&mut out, *width as u64);
                push_str(&mut out, "x");
                push_dec(&mut out, *height as u64);
                push_str(&mut out, ", expected ");
                push_dec(&mut out, *expected as u64);
                push_str(&mut out, "x");
                push_dec(&mut out, *expected as u64);
            },
        }
        assert(out@ =~= mosaic_error_text(*self));
        out
    }
}

} // verus!
