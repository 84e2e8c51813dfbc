//! Tile generation: the plan of tiles to render, the order in which they are
//! rendered and collected, and the assembly of each tile from its samples.
//!
//! Geographic planning and raster sampling work on floating-point bounds and
//! values; they are performed by the caller, which hands this module the
//! planned tile ranges and the classified samples.
use vstd::prelude::*;

use crate::hdf::RasterWindow;
use crate::publish::RenderedTile;
use crate::render::{
    pixel_renderable, pixels_rgba, png_rgba8, render_png_tile, renderable_pixel_count,
    renderable_pixels, RadianceClass, RenderError, RenderPixel,
};
use crate::science::{
    is_renderable_sample, sample_renderable, science_error_text, PixelSampleClassification,
    ScienceError,
};
use crate::slippy_tiles::tile_math_error_text;
use crate::text::{dec, push_dec, push_str};
use crate::slippy_tiles::{range_contains, tile_range_contains, TileCoord, TileMathError, TileRange};

verus! {

/// Why a tile set could not be generated.
#[derive(Debug, Clone, PartialEq, Eq)]
pub enum GenerateError {
    InvalidTileWindow { width: usize, height: usize },
    RenderTile { coord: TileCoord, source: RenderError },
    SampleCountMismatch {
        radiance: usize,
        quality: usize,
        cloud: Option<usize>,
        observation_count: Option<usize>,
    },
    ResizedSampleCountMismatch { dataset: &'static str, expected: usize, actual: usize },
    Science(ScienceError),
    TileCountOverflow { tile_count: u64 },
    TileMath(TileMathError),
    TileOutsideRange { coord: TileCoord, range: TileRange },
}

// ---------------------------------------------------------------------------
// Plans
// ---------------------------------------------------------------------------

/// The inclusive tile ranges to render, one per zoom level, and their total
/// number of tiles.
#[derive(Debug, Clone, PartialEq, Eq)]
pub struct TileGenerationPlan {
    pub ranges: Vec<TileRange>,
    pub tile_count: u32,
}

/// A range whose spans are non-empty and short enough to count in `u32`.
pub open spec fn countable_range(r: TileRange) -> bool {
    r.min_x <= r.max_x && r.min_y <= r.max_y && r.max_x - r.min_x < u32::MAX && r.max_y - r.min_y
        < u32::MAX
}

/// Counts tiles in an inclusive tile range.
pub fn tile_range_tile_count(range: TileRange) -> (n: u64)
    requires
        countable_range(range),
    ensures
        n == (range.max_x - range.min_x + 1) * (range.max_y - range.min_y + 1),
{
    let width = (range.max_x - range.min_x + 1) as u64;
    let height = (range.max_y - range.min_y + 1) as u64;
    assert(width * height <= u32::MAX as int * u32::MAX as int) by (nonlinear_arith)
        requires
            width <= u32::MAX,
            height <= u32::MAX,
    ;
    width * height
}

/// The total number of tiles of a sequence of ranges.
pub open spec fn ranges_tile_total(ranges: Seq<TileRange>) -> int
    decreases ranges.len(),
{
    if ranges.len() == 0 {
        0
    } else {
        ranges_tile_total(ranges.drop_last()) + (ranges.last().max_x - ranges.last().min_x + 1) * (
        ranges.last().max_y - ranges.last().min_y + 1)
    }
}

proof fn lemma_ranges_total_prefix(ranges: Seq<TileRange>, k: int)
    requires
        0 <= k <= ranges.len(),
        forall|i: int| 0 <= i < ranges.len() ==> countable_range(#[trigger] ranges[i]),
    ensures
        0 <= ranges_tile_total(ranges.take(k)) <= ranges_tile_total(ranges),
    decreases ranges.len(),
{
    if ranges.len() > 0 {
        let last = ranges.last();
        assert(countable_range(ranges[ranges.len() - 1]));
        assert((last.max_x - last.min_x + 1) * (last.max_y - last.min_y + 1) >= 0) by (
        nonlinear_arith)
            requires
                last.max_x - last.min_x + 1 >= 1,
                last.max_y - last.min_y + 1 >= 1,
        ;
        if k < ranges.len() {
            assert(ranges.drop_last().take(k) == ranges.take(k));
            lemma_ranges_total_prefix(ranges.drop_last(), k);
        } else {
            assert(ranges.take(k) == ranges);
            lemma_ranges_total_prefix(ranges.drop_last(), k - 1);
            assert(ranges.drop_last().take(k - 1) == ranges.drop_last());
        }
    }
}

/// Builds the plan of the ranges planned for each zoom level: their total
/// must fit in `u32`.
pub fn plan_tile_generation_from_ranges(ranges: Vec<TileRange>) -> (r: Result<
    TileGenerationPlan,
    GenerateError,
>)
    requires
        forall|i: int| 0 <= i < ranges@.len() ==> countable_range(#[trigger] ranges@[i]),
        ranges_tile_total(ranges@) <= u64::MAX,
    ensures
        ranges_tile_total(ranges@) <= u32::MAX ==> (r matches Ok(plan) && plan.ranges@ == ranges@
            && plan.tile_count == ranges_tile_total(ranges@)),
        ranges_tile_total(ranges@) > u32::MAX ==> r == Err::<TileGenerationPlan, GenerateError>(
            GenerateError::TileCountOverflow { tile_count: ranges_tile_total(ranges@) as u64 },
        ),
{
    let mut total: u64 = 0;
    let mut i: usize = 0;
    while i < ranges.len()
        invariant
            i <= ranges@.len(),
            forall|j: int| 0 <= j < ranges@.len() ==> countable_range(#[trigger] ranges@[j]),
            ranges_tile_total(ranges@) <= u64::MAX,
            total == ranges_tile_total(ranges@.take(i as int)),
        decreases ranges@.len() - i,
    {
        proof {
            lemma_ranges_total_prefix(ranges@, i + 1);
            assert(ranges@.take(i + 1).drop_last() == ranges@.take(i as int));
        }
        let count = tile_range_tile_count(ranges[i]);
        total = total + count;
        i = i + 1;
    }
    assert(ranges@.take(i as int) == ranges@);
    if total > u32::MAX as u64 {
        return Err(GenerateError::TileCountOverflow { tile_count: total });
    }
    Ok(TileGenerationPlan { ranges, tile_count: total as u32 })
}

/// The tiles of column `x` of a range, from the smallest `y`.
pub open spec fn column_coords(z: u8, x: u32, min_y: u32, max_y: u32) -> Seq<TileCoord> {
    Seq::new(
        if min_y <= max_y {
            (max_y - min_y + 1) as nat
        } else {
            0
        },
        |j: int| TileCoord { z, x, y: (min_y + j) as u32 },
    )
}

/// The tiles of the first `n` columns of a range.
pub open spec fn columns_coords(r: TileRange, n: nat) -> Seq<TileCoord>
    decreases n,
{
    if n == 0 {
        Seq::empty()
    } else {
        columns_coords(r, (n - 1) as nat) + column_coords(
            r.z,
            (r.min_x + n - 1) as u32,
            r.min_y,
            r.max_y,
        )
    }
}

/// The tiles of an inclusive range: column by column, each from the
/// smallest `y`; none when a span is empty.
pub open spec fn range_coords(r: TileRange) -> Seq<TileCoord> {
    columns_coords(
        r,
        if r.min_x <= r.max_x {
            (r.max_x - r.min_x + 1) as nat
        } else {
            0
        },
    )
}

/// The tiles of a plan, range after range.
pub open spec fn plan_coords(ranges: Seq<TileRange>) -> Seq<TileCoord>
    decreases ranges.len(),
{
    if ranges.len() == 0 {
        Seq::empty()
    } else {
        plan_coords(ranges.drop_last()) + range_coords(ranges.last())
    }
}

proof fn lemma_columns_len(r: TileRange, n: nat)
    requires
        r.min_y <= r.max_y,
    ensures
        columns_coords(r, n).len() == n * (r.max_y - r.min_y + 1),
    decreases n,
{
    let h = r.max_y - r.min_y + 1;
    if n > 0 {
        lemma_columns_len(r, (n - 1) as nat);
        assert(column_coords(r.z, (r.min_x + n - 1) as u32, r.min_y, r.max_y).len() == h);
        assert(n * h == (n - 1) * h + h) by (nonlinear_arith);
    } else {
        assert(n * h == 0) by (nonlinear_arith)
            requires
                n == 0,
        ;
    }
}

/// A plan renders exactly as many tiles as it counts: the tiles of its
/// inclusive ranges number the sum of the ranges' areas.
pub proof fn lemma_plan_coords_count(ranges: Seq<TileRange>)
    requires
        forall|i: int| 0 <= i < ranges.len() ==> countable_range(#[trigger] ranges[i]),
    ensures
        plan_coords(ranges).len() == ranges_tile_total(ranges),
    decreases ranges.len(),
{
    if ranges.len() > 0 {
        let last = ranges.last();
        assert(countable_range(ranges[ranges.len() - 1]));
        assert forall|i: int| 0 <= i < ranges.drop_last().len() implies countable_range(
            #[trigger] ranges.drop_last()[i],
        ) by {
            assert(ranges.drop_last()[i] == ranges[i]);
        }
        lemma_plan_coords_count(ranges.drop_last());
        lemma_columns_len(last, (last.max_x - last.min_x + 1) as nat);
    }
}

fn push_column(out: &mut Vec<TileCoord>, z: u8, x: u32, min_y: u32, max_y: u32)
    ensures
        final(out)@ == old(out)@ + column_coords(z, x, min_y, max_y),
{
    let ghost start = out@;
    if min_y > max_y {
        assert(column_coords(z, x, min_y, max_y) =~= Seq::<TileCoord>::empty());
        assert(out@ =~= start + column_coords(z, x, min_y, max_y));
        return;
    }
    let count: u64 = (max_y - min_y) as u64 + 1;
    let mut j: u64 = 0;
    while j < count
        invariant
            min_y <= max_y,
            count == max_y - min_y + 1,
            j <= count,
            out@ == start + column_coords(z, x, min_y, max_y).take(j as int),
        decreases count - j,
    {
        out.push(TileCoord { z, x, y: (min_y as u64 + j) as u32 });
        assert(column_coords(z, x, min_y, max_y).take(j + 1) =~= column_coords(
            z,
            x,
            min_y,
            max_y,
        ).take(j as int).push(TileCoord { z, x, y: (min_y as u64 + j) as u32 }));
        j = j + 1;
    }
    assert(column_coords(z, x, min_y, max_y).take(j as int) == column_coords(z, x, min_y, max_y));
}

fn push_range(out: &mut Vec<TileCoord>, r: TileRange)
    ensures
        final(out)@ == old(out)@ + range_coords(r),
{
    let ghost start = out@;
    if r.min_x > r.max_x {
        assert(out@ =~= start + range_coords(r));
        return;
    }
    let count: u64 = (r.max_x - r.min_x) as u64 + 1;
    let mut k: u64 = 0;
    assert(start + columns_coords(r, 0) =~= start);
    while k < count
        invariant
            r.min_x <= r.max_x,
            count == r.max_x - r.min_x + 1,
            k <= count,
            out@ == start + columns_coords(r, k as nat),
        decreases count - k,
    {
        let x = (r.min_x as u64 + k) as u32;
        push_column(out, r.z, x, r.min_y, r.max_y);
        assert(out@ =~= start + columns_coords(r, (k + 1) as nat));
        k = k + 1;
    }
}

/// Every tile of a plan, in rendering order.
pub fn plan_tile_coords(plan: &TileGenerationPlan) -> (coords: Vec<TileCoord>)
    ensures
        coords@ == plan_coords(plan.ranges@),
{
    let mut out: Vec<TileCoord> = Vec::new();
    let mut i: usize = 0;
    while i < plan.ranges.len()
        invariant
            i <= plan.ranges@.len(),
            out@ == plan_coords(plan.ranges@.take(i as int)),
        decreases plan.ranges@.len() - i,
    {
        assert(plan.ranges@.take(i + 1).drop_last() == plan.ranges@.take(i as int));
        push_range(&mut out, plan.ranges[i]);
        i = i + 1;
    }
    assert(plan.ranges@.take(i as int) == plan.ranges@);
    out
}

// ---------------------------------------------------------------------------
// Samples
// ---------------------------------------------------------------------------

/// Every present dataset must describe the radiance grid.
pub open spec fn counts_aligned(
    radiance: usize,
    quality: usize,
    cloud: Option<usize>,
    observation_count: Option<usize>,
) -> bool {
    &&& radiance == quality
    &&& (cloud matches Some(c) ==> c == radiance)
    &&& (observation_count matches Some(c) ==> c == radiance)
}

/// Checks that all present datasets describe the same resized output grid.
pub fn validate_aligned_sample_counts(
    radiance: usize,
    quality: usize,
    cloud: Option<usize>,
    observation_count: Option<usize>,
) -> (r: Result<(), GenerateError>)
    ensures
        counts_aligned(radiance, quality, cloud, observation_count) ==> r is Ok,
        !counts_aligned(radiance, quality, cloud, observation_count) ==> r == Err::<
            (),
            GenerateError,
        >(GenerateError::SampleCountMismatch { radiance, quality, cloud, observation_count }),
{
    let cloud_aligned = match cloud {
        Some(count) => count == radiance,
        None => true,
    };
    let observation_aligned = match observation_count {
        Some(count) => count == radiance,
        None => true,
    };
    if radiance == quality && cloud_aligned && observation_aligned {
        Ok(())
    } else {
        Err(GenerateError::SampleCountMismatch { radiance, quality, cloud, observation_count })
    }
}

/// The tile size of a raster window: it must be square and fit in `u16`.
pub fn tile_size_from_window(window: RasterWindow) -> (r: Result<u16, GenerateError>)
    ensures
        window.width == window.height && window.width <= u16::MAX ==> r == Ok::<
            u16,
            GenerateError,
        >(window.width as u16),
        !(window.width == window.height && window.width <= u16::MAX) ==> r == Err::<
            u16,
            GenerateError,
        >(GenerateError::InvalidTileWindow { width: window.width, height: window.height }),
{
    if window.width != window.height || window.width > 65535 {
        return Err(GenerateError::InvalidTileWindow { width: window.width, height: window.height });
    }
    Ok(window.width as u16)
}

/// Where resampled samples land in a tile, in tile pixels.
#[derive(Debug, Clone, Copy, PartialEq, Eq, Structural)]
pub struct TilePixelWindow {
    pub x_offset: usize,
    pub y_offset: usize,
    pub width: usize,
    pub height: usize,
}

/// A tile's source window in the granule and its place in the tile.
#[derive(Debug, Clone, Copy, PartialEq, Eq, Structural)]
pub struct TileRasterWindow {
    pub source: RasterWindow,
    pub target: TilePixelWindow,
}

/// The tile index that sample `k` of the target window is written to.
pub open spec fn write_index(tile_size: int, t: TilePixelWindow, k: int) -> int {
    (t.y_offset + k / t.width as int) * tile_size + t.x_offset + k % t.width as int
}

/// `init` after the first `k` samples were written, in row-major order.
pub open spec fn written<T>(
    init: Seq<T>,
    samples: Seq<T>,
    tile_size: int,
    t: TilePixelWindow,
    k: nat,
) -> Seq<T>
    decreases k,
{
    if k == 0 {
        init
    } else {
        written(init, samples, tile_size, t, (k - 1) as nat).update(
            write_index(tile_size, t, k - 1),
            samples[k - 1],
        )
    }
}

/// Whether every sample of the target window lands inside the tile.
pub open spec fn target_fits(tile_size: int, t: TilePixelWindow) -> bool {
    t.width == 0 || t.height == 0 || (t.y_offset + t.height - 1) * tile_size + t.x_offset
        + t.width - 1 < tile_size * tile_size
}

proof fn lemma_write_index(tile_size: int, t: TilePixelWindow, row: int, col: int)
    requires
        tile_size >= 0,
        0 <= row < t.height,
        0 <= col < t.width,
        target_fits(tile_size, t),
    ensures
        write_index(tile_size, t, row * t.width + col) == (t.y_offset + row) * tile_size
            + t.x_offset + col,
        0 <= (t.y_offset + row) * tile_size + t.x_offset + col < tile_size * tile_size,
        (t.y_offset + row) * tile_size <= (t.y_offset + t.height - 1) * tile_size,
        0 <= row * t.width + col < t.width * t.height,
        tile_size >= 1,
        t.y_offset + row <= (t.y_offset + row) * tile_size,
{
    let w = t.width as int;
    vstd::arithmetic::div_mod::lemma_fundamental_div_mod_converse(row * w + col, w, row, col);
    assert((t.y_offset + row) * tile_size <= (t.y_offset + t.height - 1) * tile_size) by (
    nonlinear_arith)
        requires
            tile_size >= 0,
            row <= t.height - 1,
    ;
    assert(0 <= row * w + col < w * t.height) by (nonlinear_arith)
        requires
            0 <= row < t.height,
            0 <= col < w,
    ;
    assert((t.y_offset + row) * tile_size >= 0) by (nonlinear_arith)
        requires
            tile_size >= 0,
            row >= 0,
    ;
    if tile_size == 0 {
        assert((t.y_offset + t.height - 1) * tile_size == 0) by (nonlinear_arith)
            requires
                tile_size == 0,
        ;
        assert(tile_size * tile_size == 0) by (nonlinear_arith)
            requires
                tile_size == 0,
        ;
        assert(false);
    }
    assert(t.y_offset + row <= (t.y_offset + row) * tile_size) by (nonlinear_arith)
        requires
            tile_size >= 1,
            row >= 0,
    ;
}

/// Places resampled samples into a full tile: every tile pixel starts as
/// `fill_value`, then each sample of the target window, in row-major order,
/// is written at its row and column offset by the window's position.
pub fn expand_samples_to_tile<T: Copy>(
    dataset: &'static str,
    samples: &Vec<T>,
    tile_size: usize,
    target: TilePixelWindow,
    fill_value: T,
) -> (r: Result<Vec<T>, GenerateError>)
    requires
        target.width * target.height <= usize::MAX,
        tile_size * tile_size <= usize::MAX,
        target_fits(tile_size as int, target),
    ensures
        samples@.len() != target.width * target.height ==> r == Err::<Vec<T>, GenerateError>(
            GenerateError::ResizedSampleCountMismatch {
                dataset,
                expected: (target.width * target.height) as usize,
                actual: samples@.len() as usize,
            },
        ),
        samples@.len() == target.width * target.height ==> (r matches Ok(v) && v@ == written(
            Seq::new((tile_size * tile_size) as nat, |i: int| fill_value),
            samples@,
            tile_size as int,
            target,
            (target.width * target.height) as nat,
        )),
{
    let expected = target.width * target.height;
    if samples.len() != expected {
        return Err(
            GenerateError::ResizedSampleCountMismatch { dataset, expected, actual: samples.len() },
        );
    }
    let total = tile_size * tile_size;
    let ghost init = Seq::new(total as nat, |i: int| fill_value);
    let mut expanded: Vec<T> = Vec::new();
    let mut i: usize = 0;
    while i < total
        invariant
            i <= total,
            expanded@ == init.take(i as int),
            init == Seq::new(total as nat, |i: int| fill_value),
        decreases total - i,
    {
        expanded.push(fill_value);
        assert(init.take(i + 1) == init.take(i as int).push(fill_value));
        i = i + 1;
    }
    assert(init.take(i as int) == init);
    let mut row: usize = 0;
    while row < target.height
        invariant
            row <= target.height,
            expected == target.width * target.height,
            samples@.len() == expected,
            total == tile_size * tile_size,
            total <= usize::MAX,
            target_fits(tile_size as int, target),
            expanded@ == written(init, samples@, tile_size as int, target, (row * target.width) as nat),
            expanded@.len() == total,
        decreases target.height - row,
    {
        let mut column: usize = 0;
        while column < target.width
            invariant
                row < target.height,
                column <= target.width,
                expected == target.width * target.height,
                samples@.len() == expected,
                total == tile_size * tile_size,
                total <= usize::MAX,
                target_fits(tile_size as int, target),
                expanded@ == written(
                    init,
                    samples@,
                    tile_size as int,
                    target,
                    (row * target.width + column) as nat,
                ),
                expanded@.len() == total,
            decreases target.width - column,
        {
            proof {
                lemma_write_index(tile_size as int, target, row as int, column as int);
            }
            let source_index = row * target.width + column;
            let destination_x = target.x_offset + column;
            let destination_y = target.y_offset + row;
            let destination_index = destination_y * tile_size + destination_x;
            expanded.set(destination_index, samples[source_index]);
            column = column + 1;
        }
        assert((row + 1) * target.width == row * target.width + target.width) by (nonlinear_arith);
        row = row + 1;
    }
    assert(row * target.width == target.width * target.height) by (nonlinear_arith)
        requires
            row == target.height,
    ;
    Ok(expanded)
}

// ---------------------------------------------------------------------------
// Pixels and tiles
// ---------------------------------------------------------------------------

/// The pixel rendered for a classified sample: a sample that is not
/// renderable is rejected and carries no radiance.
pub open spec fn sample_pixel(c: PixelSampleClassification, radiance: RadianceClass) -> RenderPixel {
    if sample_renderable(c) {
        RenderPixel { radiance, rejected: false }
    } else {
        RenderPixel { radiance: RadianceClass::Missing, rejected: true }
    }
}

/// Converts classified samples into renderable tile pixels.
pub fn render_pixels_from_classifications(
    classifications: &Vec<PixelSampleClassification>,
    radiance: &Vec<RadianceClass>,
) -> (pixels: Vec<RenderPixel>)
    requires
        radiance@.len() == classifications@.len(),
    ensures
        pixels@.len() == classifications@.len(),
        forall|i: int|
            0 <= i < pixels@.len() ==> #[trigger] pixels@[i] == sample_pixel(
                classifications@[i],
                radiance@[i],
            ),
{
    let mut pixels: Vec<RenderPixel> = Vec::new();
    let mut i: usize = 0;
    while i < classifications.len()
        invariant
            i <= classifications@.len(),
            radiance@.len() == classifications@.len(),
            pixels@.len() == i,
            forall|j: int|
                0 <= j < i ==> #[trigger] pixels@[j] == sample_pixel(
                    classifications@[j],
                    radiance@[j],
                ),
        decreases classifications@.len() - i,
    {
        let rejected = !is_renderable_sample(&classifications[i]);
        let pixel = if rejected {
            RenderPixel { radiance: RadianceClass::Missing, rejected: true }
        } else {
            RenderPixel { radiance: radiance[i], rejected: false }
        };
        pixels.push(pixel);
        i = i + 1;
    }
    pixels
}

/// The tile rendered from pixels: the PNG of their colours and the number of
/// renderable pixels.
pub open spec fn rendered_tile_of(coord: TileCoord, tile_size: u16, pixels: Seq<RenderPixel>) -> (
    TileCoord,
    Seq<u8>,
    u32,
) {
    (
        coord,
        png_rgba8(pixels_rgba(pixels), tile_size as u32, tile_size as u32),
        renderable_pixels(pixels) as u32,
    )
}

/// The error of rendering pixels that neither the tile size nor their count
/// allows, if any.
pub open spec fn pixels_error(coord: TileCoord, tile_size: u16, pixels: Seq<RenderPixel>) -> Option<
    GenerateError,
> {
    if tile_size == 0 {
        Some(GenerateError::RenderTile { coord, source: RenderError::InvalidTileSize })
    } else if pixels.len() != tile_size * tile_size {
        Some(
            GenerateError::RenderTile {
                coord,
                source: RenderError::PixelCountMismatch {
                    tile_size,
                    expected: (tile_size * tile_size) as usize,
                    actual: pixels.len() as usize,
                },
            },
        )
    } else {
        None
    }
}

/// Renders one tile from its pixels; render errors carry the tile.
pub fn render_tile_from_pixels(coord: TileCoord, tile_size: u16, pixels: &Vec<RenderPixel>) -> (r:
    Result<RenderedTile, GenerateError>)
    ensures
        pixels_error(coord, tile_size, pixels@) matches Some(e) ==> r == Err::<
            RenderedTile,
            GenerateError,
        >(e),
        pixels_error(coord, tile_size, pixels@) is None ==> (r matches Ok(t) && (
            t.coord,
            t.png_bytes@,
            t.renderable_pixel_count,
        ) == rendered_tile_of(coord, tile_size, pixels@)),
{
    let png_bytes = match render_png_tile(tile_size, pixels) {
        Ok(png) => png,
        Err(source) => {
            return Err(GenerateError::RenderTile { coord, source });
        },
    };
    let renderable_pixel_count = renderable_pixel_count(pixels);
    Ok(RenderedTile { coord, png_bytes, renderable_pixel_count })
}

/// The tiles with renderable evidence, in order.
pub fn non_empty_tiles(tiles: Vec<RenderedTile>) -> (r: Vec<RenderedTile>)
    ensures
        r@ == tiles@.filter(|t: RenderedTile| t.renderable_pixel_count > 0),
{
    let ghost all = tiles@;
    let mut out: Vec<RenderedTile> = Vec::new();
    let mut rest = tiles;
    let mut reversed: Vec<RenderedTile> = Vec::new();
    while rest.len() > 0
        invariant
            all == rest@ + reversed@.reverse(),
        decreases rest@.len(),
    {
        let tile = rest.pop().unwrap();
        let ghost before = reversed@;
        reversed.push(tile);
        assert(reversed@.reverse() =~= seq![tile] + before.reverse());
    }
    assert(all =~= reversed@.reverse());
    let ghost n = all.len();
    while reversed.len() > 0
        invariant
            reversed@.reverse() == all.subrange(n - reversed@.len(), n as int),
            n == all.len(),
            reversed@.len() <= n,
            out@ == all.subrange(0, n - reversed@.len()).filter(
                |t: RenderedTile| t.renderable_pixel_count > 0,
            ),
        decreases reversed@.len(),
    {
        let ghost k = n - reversed@.len();
        let ghost before = reversed@;
        assert(before.reverse()[0] == all[k]);
        let tile = reversed.pop().unwrap();
        assert(tile == before.last());
        assert(reversed@.reverse() =~= before.reverse().drop_first());
        assert(all.subrange(0, k + 1).drop_last() == all.subrange(0, k as int));
        reveal(Seq::filter);
        if tile.renderable_pixel_count > 0 {
            out.push(tile);
        }
        assert(out@ =~= all.subrange(0, k + 1).filter(
            |t: RenderedTile| t.renderable_pixel_count > 0,
        ));
    }
    assert(all.subrange(0, n as int) == all);
    out
}

// ---------------------------------------------------------------------------
// Collecting rendered tiles
// ---------------------------------------------------------------------------

/// Whether some result carries job index `k`.
pub open spec fn job_present(results: Seq<(usize, RenderedTile)>, k: int) -> bool {
    exists|j: int| 0 <= j < results.len() && #[trigger] results[j].0 == k
}

/// Whether the job indices of `results` are `0..n`, each exactly once.
pub open spec fn indices_permute(results: Seq<(usize, RenderedTile)>) -> bool {
    &&& forall|j: int| 0 <= j < results.len() ==> #[trigger] results[j].0 < results.len()
    &&& forall|j1: int, j2: int|
        0 <= j1 < results.len() && 0 <= j2 < results.len() && j1 != j2 ==> #[trigger] results[j1].0
            != #[trigger] results[j2].0
    &&& forall|k: int| 0 <= k < results.len() ==> #[trigger] job_present(results, k)
}

/// The rendered tiles in job order.
pub open spec fn ordered_by_job(results: Seq<(usize, RenderedTile)>) -> Seq<RenderedTile> {
    Seq::new(
        results.len(),
        |k: int| results[choose|j: int| 0 <= j < results.len() && #[trigger] results[j].0 == k].1,
    )
}

/// Puts tiles rendered concurrently back into job order.
pub fn order_rendered_tiles(results: Vec<(usize, RenderedTile)>) -> (tiles: Vec<RenderedTile>)
    requires
        indices_permute(results@),
    ensures
        tiles@ == ordered_by_job(results@),
{
    let ghost all = results@;
    let n = results.len();
    let mut slots: Vec<Option<RenderedTile>> = Vec::new();
    let mut i: usize = 0;
    while i < n
        invariant
            i <= n,
            slots@.len() == i,
        decreases n - i,
    {
        slots.push(None);
        i = i + 1;
    }
    let mut rest = results;
    while rest.len() > 0
        invariant
            n == all.len(),
            indices_permute(all),
            rest@ == all.take(rest@.len() as int),
            rest@.len() <= n,
            slots@.len() == n,
            forall|j: int|
                rest@.len() <= j < n ==> slots@[n - 1 - #[trigger] all[j].0] == Some(all[j].1),
        decreases rest@.len(),
    {
        let ghost m = rest@.len() - 1;
        assert(rest@[m] == all[m]);
        let (index, tile) = rest.pop().unwrap();
        assert(rest@ =~= all.take(m));
        assert(index < n);
        let ghost before = slots@;
        slots.set(n - 1 - index, Some(tile));
        assert forall|j: int| rest@.len() <= j < n implies slots@[n - 1 - #[trigger] all[j].0]
            == Some(all[j].1) by {
            if j != m {
                assert(all[j].0 != all[m].0);
            }
        }
    }
    let mut tiles: Vec<RenderedTile> = Vec::new();
    let ghost ordered = ordered_by_job(all);
    while slots.len() > 0
        invariant
            n == all.len(),
            indices_permute(all),
            ordered == ordered_by_job(all),
            tiles@.len() + slots@.len() == n,
            forall|j: int| 0 <= j < n ==> slots@.len() > n - 1 - #[trigger] all[j].0 ==> slots@[n
                - 1 - all[j].0] == Some(all[j].1),
            forall|k: int| 0 <= k < tiles@.len() ==> #[trigger] tiles@[k] == ordered[k],
        decreases slots@.len(),
    {
        let ghost k = tiles@.len() as int;
        let ghost s = slots@.len() - 1;
        assert(job_present(all, k));
        let ghost j = choose|j: int| 0 <= j < n && #[trigger] all[j].0 == k;
        assert(s == n - 1 - all[j].0);
        assert(slots@[s] == Some(all[j].1));
        let slot = slots.pop().unwrap();
        let tile = match slot {
            Some(tile) => tile,
            None => {
                assert(false);
                return tiles;
            },
        };
        assert(ordered[k] == all[j].1);
        tiles.push(tile);
    }
    assert(tiles@ =~= ordered);
    tiles
}

/// Whether each result carries the tile of its job's planned coordinate,
/// one result per planned tile.
pub open spec fn results_follow_plan(coords: Seq<TileCoord>, results: Seq<(usize, RenderedTile)>) -> bool {
    &&& results.len() == coords.len()
    &&& forall|j: int|
        0 <= j < results.len() ==> (#[trigger] results[j]).1.coord == coords[results[j].0 as int]
}

/// Rendered tiles put back in job order follow the plan: when each job
/// rendered its planned coordinate, the k-th tile is the one rendered for the
/// k-th planned coordinate.
pub proof fn lemma_ordered_tiles_follow_plan(
    coords: Seq<TileCoord>,
    results: Seq<(usize, RenderedTile)>,
)
    requires
        indices_permute(results),
        results_follow_plan(coords, results),
    ensures
        ordered_by_job(results).map_values(|t: RenderedTile| t.coord) == coords,
{
    let ordered = ordered_by_job(results);
    let placed = ordered.map_values(|t: RenderedTile| t.coord);
    assert forall|k: int| 0 <= k < coords.len() implies #[trigger] placed[k] == coords[k] by {
        assert(job_present(results, k));
        let j = choose|j: int| 0 <= j < results.len() && #[trigger] results[j].0 == k;
        assert(ordered[k] == results[j].1);
    }
    assert(placed =~= coords);
}

/// The tiles of a generated tile set and the coordinates its bounds cover.
#[derive(Debug, Clone, PartialEq, Eq)]
pub struct AssembledTiles {
    /// The rendered tiles with renderable pixels, in job order.
    pub tiles: Vec<RenderedTile>,
    /// The coordinates of those tiles at the native zoom, or of all of them
    /// when none is at that zoom.
    pub coverage: Vec<TileCoord>,
}

/// Assembles concurrently rendered tiles: puts them back in job order, keeps
/// the tiles with renderable pixels, and picks the coordinates whose bounds
/// the tile set covers. When each job rendered its planned coordinate, the
/// tiles kept are the planned tiles with renderable pixels, in plan order.
pub fn assemble_rendered_tiles(
    plan: &TileGenerationPlan,
    results: Vec<(usize, RenderedTile)>,
    max_native_zoom: u8,
) -> (r: AssembledTiles)
    requires
        indices_permute(results@),
    ensures
        r.tiles@ == ordered_by_job(results@).filter(|t: RenderedTile| t.renderable_pixel_count > 0),
        results_follow_plan(plan_coords(plan.ranges@), results@) ==> ordered_by_job(
            results@,
        ).map_values(|t: RenderedTile| t.coord) == plan_coords(plan.ranges@),
        (exists|i: int| 0 <= i < r.tiles@.len() && r.tiles@[i].coord.z == max_native_zoom)
            ==> r.coverage@ == r.tiles@.filter(|t: RenderedTile| t.coord.z == max_native_zoom).map_values(
            |t: RenderedTile| t.coord,
        ),
        !(exists|i: int| 0 <= i < r.tiles@.len() && r.tiles@[i].coord.z == max_native_zoom)
            ==> r.coverage@ == r.tiles@.map_values(|t: RenderedTile| t.coord),
        r.coverage@.len() == 0 <==> r.tiles@.len() == 0,
{
    proof {
        if results_follow_plan(plan_coords(plan.ranges@), results@) {
            lemma_ordered_tiles_follow_plan(plan_coords(plan.ranges@), results@);
        }
    }
    let ordered = order_rendered_tiles(results);
    let tiles = non_empty_tiles(ordered);
    let coverage = crate::mosaic::coverage_coords(&tiles, max_native_zoom);
    AssembledTiles { tiles, coverage }
}

/// Rendered tiles come out in job order whatever order the renders finished
/// in: any rearrangement of the same results is ordered the same way.
pub proof fn lemma_order_independent(a: Seq<(usize, RenderedTile)>, b: Seq<(usize, RenderedTile)>)
    requires
        indices_permute(a),
        indices_permute(b),
        a.len() == b.len(),
        forall|j: int| 0 <= j < b.len() ==> a.contains(#[trigger] b[j]),
    ensures
        ordered_by_job(a) == ordered_by_job(b),
{
    assert forall|k: int| 0 <= k < a.len() implies #[trigger] ordered_by_job(a)[k]
        == ordered_by_job(b)[k] by {
        assert(job_present(b, k));
        let jb = choose|j: int| 0 <= j < b.len() && #[trigger] b[j].0 == k;
        assert(a.contains(b[jb]));
        let ja = choose|j: int| 0 <= j < a.len() && a[j] == b[jb];
        assert(a[ja].0 == k);
        let ca = choose|j: int| 0 <= j < a.len() && #[trigger] a[j].0 == k;
        if ca != ja {
            assert(a[ca].0 != a[ja].0);
        }
    }
    assert(ordered_by_job(a) =~= ordered_by_job(b));
}

// ---------------------------------------------------------------------------
// Synthetic tiles
// ---------------------------------------------------------------------------

/// The dark-sky class of a whole-number radiance: 0 lies in class 1, 1 and 2
/// in class 4, and each later class starts at 3, 6, 12, 25 and 50.
pub open spec fn whole_radiance_class_number(r: int) -> u8 {
    if r < 1 {
        1
    } else if r < 3 {
        4
    } else if r < 6 {
        5
    } else if r < 12 {
        6
    } else if r < 25 {
        7
    } else if r < 50 {
        8
    } else {
        9
    }
}

/// A whole-number radiance falls in exactly one class of the dark-sky scale,
/// and that class is the one [`whole_radiance_class_number`] names: its lower
/// bound is at most the radiance and its upper bound, if any, above it.
pub proof fn lemma_whole_radiance_class_in_scale(r: int)
    requires
        r >= 0,
    ensures
        crate::render::in_dark_sky_class(10 * r, whole_radiance_class_number(r)),
        forall|n: u8|
            #[trigger] crate::render::in_dark_sky_class(10 * r, n) ==> n
                == whole_radiance_class_number(r),
{
    crate::render::lemma_class_bounds_in_tenths();
}

/// The dark-sky class of a whole-number radiance.
pub fn whole_radiance_class(r: u32) -> (c: RadianceClass)
    ensures
        c == RadianceClass::Class(whole_radiance_class_number(r as int)),
        c matches RadianceClass::Class(n) && crate::render::in_dark_sky_class(10 * r, n),
{
    proof {
        lemma_whole_radiance_class_in_scale(r as int);
    }
    let n: u8 = if r < 1 {
        1
    } else if r < 3 {
        4
    } else if r < 6 {
        5
    } else if r < 12 {
        6
    } else if r < 25 {
        7
    } else if r < 50 {
        8
    } else {
        9
    };
    RadianceClass::Class(n)
}

/// Synthetic pixel `v` of the test pattern: every 7th value is rejected,
/// every 11th has no data, the others have radiance `v % 60`.
pub open spec fn synthetic_pixel(v: int) -> RenderPixel {
    RenderPixel {
        radiance: if v % 11 == 0 {
            RadianceClass::Missing
        } else {
            RadianceClass::Class(whole_radiance_class_number(v % 60))
        },
        rejected: v % 7 == 0,
    }
}

/// The synthetic pixels of a tile, seeded by the sum of its coordinates.
pub open spec fn synthetic_pixels(tile_size: u16, coord: TileCoord) -> Seq<RenderPixel> {
    Seq::new(
        (tile_size * tile_size) as nat,
        |i: int| synthetic_pixel(coord.z + coord.x + coord.y + i),
    )
}

/// Whether the synthetic pattern of `coord` can be computed in `u32`.
pub open spec fn synthetic_seed_fits(tile_size: u16, coord: TileCoord) -> bool {
    tile_size == 0 || coord.z + coord.x + coord.y + tile_size * tile_size <= u32::MAX + 1
}

/// A deterministic test pattern of pixels for one tile.
pub fn synthetic_pixels_for_coord(tile_size: u16, coord: TileCoord) -> (r: Result<
    Vec<RenderPixel>,
    GenerateError,
>)
    requires
        synthetic_seed_fits(tile_size, coord),
    ensures
        r matches Ok(pixels) && pixels@ == synthetic_pixels(tile_size, coord),
{
    if tile_size == 0 {
        let empty: Vec<RenderPixel> = Vec::new();
        assert(empty@ =~= synthetic_pixels(tile_size, coord));
        return Ok(empty);
    }
    let side = tile_size as usize;
    assert(side * side <= 65535 * 65535) by (nonlinear_arith)
        requires
            side <= 65535,
    ;
    let pixel_count = side * side;
    assert(side * side >= 1) by (nonlinear_arith)
        requires
            side >= 1,
    ;
    let seed: u32 = coord.z as u32 + coord.x + coord.y;
    let mut pixels: Vec<RenderPixel> = Vec::new();
    let mut index: usize = 0;
    while index < pixel_count
        invariant
            index <= pixel_count,
            pixel_count == tile_size * tile_size,
            pixel_count <= 65535 * 65535,
            seed == coord.z + coord.x + coord.y,
            seed + pixel_count <= u32::MAX + 1,
            pixels@ == synthetic_pixels(tile_size, coord).take(index as int),
        decreases pixel_count - index,
    {
        let value: u32 = seed + index as u32;
        let radiance = if value % 11 == 0 {
            RadianceClass::Missing
        } else {
            whole_radiance_class(value % 60)
        };
        let pixel = RenderPixel { radiance, rejected: value % 7 == 0 };
        pixels.push(pixel);
        assert(synthetic_pixels(tile_size, coord).take(index + 1) =~= synthetic_pixels(
            tile_size,
            coord,
        ).take(index as int).push(pixel));
        index = index + 1;
    }
    assert(synthetic_pixels(tile_size, coord).take(index as int) == synthetic_pixels(
        tile_size,
        coord,
    ));
    Ok(pixels)
}

/// Renders the synthetic test pattern for every tile of a plan, in plan
/// order.
pub fn generate_synthetic_tile_set(tile_size: u16, plan: &TileGenerationPlan) -> (r: Result<
    Vec<RenderedTile>,
    GenerateError,
>)
    requires
        forall|i: int|
            0 <= i < plan_coords(plan.ranges@).len() ==> synthetic_seed_fits(
                tile_size,
                #[trigger] plan_coords(plan.ranges@)[i],
            ),
    ensures
        ({
            let coords = plan_coords(plan.ranges@);
            &&& tile_size == 0 && coords.len() > 0 ==> r == Err::<Vec<RenderedTile>, GenerateError>(
                GenerateError::RenderTile { coord: coords[0], source: RenderError::InvalidTileSize },
            )
            &&& r matches Ok(tiles) ==> {
                &&& tiles@.len() == coords.len()
                &&& forall|i: int|
                    0 <= i < tiles@.len() ==> ((#[trigger] tiles@[i]).coord, tiles@[i].png_bytes@,
                    tiles@[i].renderable_pixel_count) == rendered_tile_of(
                        coords[i],
                        tile_size,
                        synthetic_pixels(tile_size, coords[i]),
                    )
            }
            &&& tile_size > 0 ==> r is Ok
        }),
{
    let coords = plan_tile_coords(plan);
    let mut tiles: Vec<RenderedTile> = Vec::new();
    let mut i: usize = 0;
    while i < coords.len()
        invariant
            i <= coords@.len(),
            coords@ == plan_coords(plan.ranges@),
            forall|j: int|
                0 <= j < coords@.len() ==> synthetic_seed_fits(tile_size, #[trigger] coords@[j]),
            tiles@.len() == i,
            forall|j: int|
                0 <= j < i ==> ((#[trigger] tiles@[j]).coord, tiles@[j].png_bytes@,
                tiles@[j].renderable_pixel_count) == rendered_tile_of(
                    coords@[j],
                    tile_size,
                    synthetic_pixels(tile_size, coords@[j]),
                ),
            tile_size == 0 ==> i == 0,
        decreases coords@.len() - i,
    {
        let coord = coords[i];
        assert(synthetic_seed_fits(tile_size, coords@[i as int]));
        let pixels = match synthetic_pixels_for_coord(tile_size, coord) {
            Ok(pixels) => pixels,
            Err(e) => {
                return Err(e);
            },
        };
        let tile = render_tile_from_pixels(coord, tile_size, &pixels)?;
        tiles.push(tile);
        i = i + 1;
    }
    Ok(tiles)
}

/// A tile to render from given pixels.
#[derive(Debug, Clone, PartialEq, Eq)]
pub struct SyntheticTileInput {
    pub coord: TileCoord,
    pub pixels: Vec<RenderPixel>,
}

/// The error that an input certainly raises: a tile outside the range, or
/// pixels that the tile size refuses.
pub open spec fn input_error(tile_size: u16, range: TileRange, input: SyntheticTileInput) -> Option<
    GenerateError,
> {
    if !range_contains(range, input.coord) {
        Some(GenerateError::TileOutsideRange { coord: input.coord, range })
    } else {
        pixels_error(input.coord, tile_size, input.pixels@)
    }
}

/// Renders given tiles of one range, in order; the first input outside the
/// range or with unusable pixels stops the run.
pub fn generate_synthetic_tiles(
    tile_size: u16,
    range: TileRange,
    inputs: &Vec<SyntheticTileInput>,
) -> (r: Result<Vec<RenderedTile>, GenerateError>)
    ensures
        r matches Ok(tiles) ==> {
            &&& tiles@.len() == inputs@.len()
            &&& forall|i: int|
                0 <= i < inputs@.len() ==> input_error(tile_size, range, #[trigger] inputs@[i]) is None
            &&& forall|i: int|
                0 <= i < tiles@.len() ==> ((#[trigger] tiles@[i]).coord, tiles@[i].png_bytes@,
                tiles@[i].renderable_pixel_count) == rendered_tile_of(
                    inputs@[i].coord,
                    tile_size,
                    inputs@[i].pixels@,
                )
        },
        r matches Err(e) ==> exists|i: int|
            0 <= i < inputs@.len() && (forall|j: int|
                0 <= j < i ==> input_error(tile_size, range, #[trigger] inputs@[j]) is None)
                && input_error(tile_size, range, #[trigger] inputs@[i]) == Some(e),
        (forall|i: int|
            0 <= i < inputs@.len() ==> input_error(tile_size, range, #[trigger] inputs@[i]) is None)
            ==> r is Ok,
{
    let mut tiles: Vec<RenderedTile> = Vec::new();
    let mut i: usize = 0;
    while i < inputs.len()
        invariant
            i <= inputs@.len(),
            tiles@.len() == i,
            forall|j: int| 0 <= j < i ==> input_error(tile_size, range, #[trigger] inputs@[j]) is None,
            forall|j: int|
                0 <= j < i ==> ((#[trigger] tiles@[j]).coord, tiles@[j].png_bytes@,
                tiles@[j].renderable_pixel_count) == rendered_tile_of(
                    inputs@[j].coord,
                    tile_size,
                    inputs@[j].pixels@,
                ),
        decreases inputs@.len() - i,
    {
        let input = &inputs[i];
        if !tile_range_contains(range, input.coord) {
            return Err(GenerateError::TileOutsideRange { coord: input.coord, range });
        }
        let tile = render_tile_from_pixels(input.coord, tile_size, &input.pixels)?;
        tiles.push(tile);
        i = i + 1;
    }
    Ok(tiles)
}

// ---------------------------------------------------------------------------
// Messages
// ---------------------------------------------------------------------------

/// `TileCoord { z: .., x: .., y: .. }`, as `{:?}` shows a coordinate.
pub open spec fn tile_coord_debug(c: TileCoord) -> Seq<char> {
    "TileCoord { z: "@ + dec(c.z as nat) + ", x: "@ + dec(c.x as nat) + ", y: "@ + dec(c.y as nat)
        + " }"@
}

/// `TileRange { z: .., min_x: .., max_x: .., min_y: .., max_y: .. }`, as
/// `{:?}` shows a range.
pub open spec fn tile_range_debug(r: TileRange) -> Seq<char> {
    "TileRange { z: "@ + dec(r.z as nat) + ", min_x: "@ + dec(r.min_x as nat) + ", max_x: "@ + dec(
        r.max_x as nat,
    ) + ", min_y: "@ + dec(r.min_y as nat) + ", max_y: "@ + dec(r.max_y as nat) + " }"@
}

/// `Some(n)` or `None`, as `{:?}` shows an optional count.
pub open spec fn count_debug(c: Option<usize>) -> Seq<char> {
    match c {
        Some(n) => "Some("@ + dec(n as nat) + ")"@,
        None => "None"@,
    }
}

/// The message of a generation error.
pub open spec fn generate_error_text(e: GenerateError) -> Seq<char> {
    match e {
        GenerateError::InvalidTileWindow { width, height } =>
            "tile window must be square and fit in u16, got "@ + dec(width as nat) + "x"@ + dec(
            height as nat,
        ),
        GenerateError::RenderTile { coord, source } => "failed to render tile "@ + tile_coord_debug(
            coord,
        ),
        GenerateError::SampleCountMismatch { radiance, quality, cloud, observation_count } =>
            "sample count mismatch: radiance="@ + dec(radiance as nat) + ", quality="@ + dec(
            quality as nat,
        ) + ", cloud="@ + count_debug(cloud) + ", observation_count="@ + count_debug(
            observation_count,
        ),
        GenerateError::ResizedSampleCountMismatch { dataset, expected, actual } =>
            "resized dataset '"@ + dataset@ + "' returned "@ + dec(actual as nat) + " sample(s), expected "@
            + dec(expected as nat),
        GenerateError::Science(error) => science_error_text(error),
        GenerateError::TileCountOverflow { tile_count } => "planned tile count "@ + dec(
            tile_count as nat,
        ) + " exceeds u32 range"@,
        GenerateError::TileMath(error) => tile_math_error_text(error),
        GenerateError::TileOutsideRange { coord, range } => "synthetic tile coordinate "@
            + tile_coord_debug(coord) + " is outside requested tile range "@ + tile_range_debug(
            range,
        ),
    }
}

fn push_tile_coord_debug(out: &mut String, c: TileCoord)
    ensures
        final(out)@ == old(out)@ + tile_coord_debug(c),
{
    let ghost start = out@;
    push_str(out, "TileCoord { z: ");
    push_dec(out, c.z as u64);
    push_str(out, ", x: ");
    push_dec(out, c.x as u64);
    push_str(out, ", y: ");
    push_dec(out, c.y as u64);
    push_str(out, " }");
    assert(out@ =~= start + tile_coord_debug(c));
}

fn push_tile_range_debug(out: &mut String, r: TileRange)
    ensures
        final(out)@ == old(out)@ + tile_range_debug(r),
{
    let ghost start = out@;
    push_str(out, "TileRange { z: ");
    push_dec(out, r.z as u64);
    push_str(out, ", min_x: ");
    push_dec(out, r.min_x as u64);
    push_str(out, ", max_x: ");
    push_dec(out, r.max_x as u64);
    push_str(out, ", min_y: ");
    push_dec(out, r.min_y as u64);
    push_str(out, ", max_y: ");
    push_dec(out, r.max_y as u64);
    push_str(out, " }");
    assert(out@ =~= start + tile_range_debug(r));
}

fn push_count_debug(out: &mut String, c: Option<usize>)
    ensures
        final(out)@ == old(out)@ + count_debug(c),
{
    let ghost start = out@;
    match c {
        Some(n) => {
            push_str(out, "Some(");
            push_dec(out, n as u64);
            push_str(out, ")");
        },
        None => push_str(out, "None"),
    }
    assert(out@ =~= start + count_debug(c));
}

impl GenerateError {
    /// The message shown for this error.
    pub fn message(&self) -> (r: String)
        ensures
            r@ == generate_error_text(*self),
    {
        match self {
            GenerateError::Science(error) => return error.message(),
            GenerateError::TileMath(error) => return error.message(),
            _ => {},
        }
        let mut out = String::new();
        match self {
            GenerateError::InvalidTileWindow { width, height } => {
                push_str(&mut out, "tile window must be square and fit in u16, got ");
                push_dec(&mut out, *width as u64);
                push_str(&mut out, "x");
                push_dec(&mut out, *height as u64);
            },
            GenerateError::RenderTile { coord, source: _ } => {
                push_str(&mut out, "failed to render tile ");
                push_tile_coord_debug(&mut out, *coord);
            },
            GenerateError::SampleCountMismatch { radiance, quality, cloud, observation_count } => {
                push_str(&mut out, "sample count mismatch: radiance=");
                push_dec(&mut out, *radiance as u64);
                push_str(&mut out, ", quality=");
                push_dec(&mut out, *quality as u64);
                push_str(&mut out, ", cloud=");
                push_count_debug(&mut out, *cloud);
                push_str(&mut out, ", observation_count=");
                push_count_debug(&mut out, *observation_count);
            },
            GenerateError::ResizedSampleCountMismatch { dataset, expected, actual } => {
                push_str(&mut out, "resized dataset '");
                push_str(&mut out, dataset);
                push_str(&mut out, "' returned ");
                push_dec(&mut out, *actual as u64);
                push_str(&mut out, " sample(s), expected ");
                push_dec(&mut out, *expected as u64);
            },
            GenerateError::TileCountOverflow { tile_count } => {
                push_str(&mut out, "planned tile count ");
                push_dec(&mut out, *tile_count);
                push_str(&mut out, " exceeds u32 range");
            },
            GenerateError::TileOutsideRange { coord, range } => {
                push_str(&mut out, "synthetic tile coordinate ");
                push_tile_coord_debug(&mut out, *coord);
                push_str(&mut out, " is outside requested tile range ");
                push_tile_range_debug(&mut out, *range);
            },
            GenerateError::Science(_) => {},
            GenerateError::TileMath(_) => {},
        }
        assert(out@ =~= generate_error_text(*self));
        out
    }
}

} // verus!
