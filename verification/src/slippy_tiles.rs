//! Web Mercator tile addressing, VIIRS sinusoidal tile coverage, and the
//! container-relative blob paths of tiles and manifests.
use vstd::prelude::*;

use crate::text::{
    chars_of, contains, contains_char, contains_seq, dec, has_prefix, padded, push_chars,
    push_dec, push_padded, push_str, starts_with, trim, trim_chars,
};

verus! {

/// The deepest zoom level that the tile math supports.
pub const MAX_SUPPORTED_ZOOM: u8 = 22;

/// A Web Mercator tile address.
#[derive(Debug, Clone, Copy, PartialEq, Eq, Structural)]
pub struct TileCoord {
    pub z: u8,
    pub x: u32,
    pub y: u32,
}

/// An inclusive rectangle of tiles at one zoom level.
#[derive(Debug, Clone, Copy, PartialEq, Eq, Structural)]
pub struct TileRange {
    pub z: u8,
    pub min_x: u32,
    pub max_x: u32,
    pub min_y: u32,
    pub max_y: u32,
}

/// A VIIRS sinusoidal grid tile `hXXvYY`.
#[derive(Debug, Clone, Copy, PartialEq, Eq, Structural)]
pub struct ViirsTileCoord {
    pub tile_h: i16,
    pub tile_v: i16,
}

/// Why a tile computation was refused.
#[derive(Debug, Clone, Copy, PartialEq, Eq, Structural)]
pub enum TileMathError {
    InvalidBounds,
    InvalidViirsTile { tile_h: i16, tile_v: i16 },
    InvalidTileSetId,
    XOutOfRange { z: u8, x: u32, max: u32 },
    YOutOfRange { z: u8, y: u32, max: u32 },
    ZoomTooLarge { z: u8 },
}

/// Number of tiles along one axis at zoom `z`.
pub open spec fn axis_tiles(z: u8) -> nat {
    vstd::arithmetic::power2::pow2(z as nat)
}

/// What tile addressing refuses for `coord`, if anything.
pub open spec fn coord_error(coord: TileCoord) -> Option<TileMathError> {
    if coord.z > MAX_SUPPORTED_ZOOM {
        Some(TileMathError::ZoomTooLarge { z: coord.z })
    } else if coord.x >= axis_tiles(coord.z) {
        Some(
            TileMathError::XOutOfRange {
                z: coord.z,
                x: coord.x,
                max: (axis_tiles(coord.z) - 1) as u32,
            },
        )
    } else if coord.y >= axis_tiles(coord.z) {
        Some(
            TileMathError::YOutOfRange {
                z: coord.z,
                y: coord.y,
                max: (axis_tiles(coord.z) - 1) as u32,
            },
        )
    } else {
        None
    }
}

/// `Ok(())` when `e` is `None`, else the error.
pub open spec fn unit_or(e: Option<TileMathError>) -> Result<(), TileMathError> {
    match e {
        Some(err) => Err(err),
        None => Ok(()),
    }
}

/// Number of tiles per axis at zoom `z` (`2^z`), refused beyond the
/// supported maximum zoom.
pub fn tiles_per_axis(z: u8) -> (r: Result<u32, TileMathError>)
    ensures
        z > MAX_SUPPORTED_ZOOM ==> r == Err::<u32, TileMathError>(TileMathError::ZoomTooLarge { z }),
        z <= MAX_SUPPORTED_ZOOM ==> r == Ok::<u32, TileMathError>(axis_tiles(z) as u32)
            && axis_tiles(z) <= u32::MAX,
{
    if z > MAX_SUPPORTED_ZOOM {
        return Err(TileMathError::ZoomTooLarge { z });
    }
    proof {
        vstd::bits::lemma_u32_pow2_no_overflow(z as nat);
        vstd::bits::lemma_u32_shl_is_mul(1u32, z as u32);
    }
    Ok(1u32 << (z as u32))
}

/// Checks that a tile address lies inside the grid of its zoom level.
pub fn validate_tile_coord(coord: TileCoord) -> (r: Result<(), TileMathError>)
    ensures
        r == unit_or(coord_error(coord)),
{
    let tiles = tiles_per_axis(coord.z)?;
    proof {
        vstd::arithmetic::power2::lemma_pow2_pos(coord.z as nat);
    }
    let max = tiles - 1;
    if coord.x > max {
        return Err(TileMathError::XOutOfRange { z: coord.z, x: coord.x, max });
    }
    if coord.y > max {
        return Err(TileMathError::YOutOfRange { z: coord.z, y: coord.y, max });
    }
    Ok(())
}

/// Checks that `hXXvYY` lies in the VIIRS grid (h 0..=35, v 0..=17).
pub fn validate_viirs_tile(tile_h: i16, tile_v: i16) -> (r: Result<(), TileMathError>)
    ensures
        r is Ok <==> (0 <= tile_h <= 35 && 0 <= tile_v <= 17),
        r is Err ==> r == Err::<(), TileMathError>(TileMathError::InvalidViirsTile { tile_h, tile_v }),
{
    if !(0 <= tile_h && tile_h <= 35) || !(0 <= tile_v && tile_v <= 17) {
        return Err(TileMathError::InvalidViirsTile { tile_h, tile_v });
    }
    Ok(())
}

/// Number of tiles in an inclusive range.
pub open spec fn range_tile_count(range: TileRange) -> int {
    (range.max_x - range.min_x + 1) * (range.max_y - range.min_y + 1)
}

/// Whether `coord` lies inside `range`.
pub open spec fn range_contains(range: TileRange, coord: TileCoord) -> bool {
    coord.z == range.z && range.min_x <= coord.x <= range.max_x && range.min_y <= coord.y
        <= range.max_y
}

/// Whether `coord` lies inside the inclusive tile range.
pub fn tile_range_contains(range: TileRange, coord: TileCoord) -> (r: bool)
    ensures
        r == range_contains(range, coord),
{
    coord.z == range.z && coord.x >= range.min_x && coord.x <= range.max_x && coord.y
        >= range.min_y && coord.y <= range.max_y
}

// ---------------------------------------------------------------------------
// Tile-set identifiers and blob paths
// ---------------------------------------------------------------------------

/// A tile-set identifier may name blobs: it is not blank, holds no path
/// separator or `..`, and does not start with the processed container name.
pub open spec fn tile_set_id_valid(id: Seq<char>) -> bool {
    &&& trim(id).len() > 0
    &&& !id.contains('/')
    &&& !id.contains('\\')
    &&& !contains_seq(id, ".."@)
    &&& !has_prefix(id, "processed-tiles"@)
}

/// Refuses identifiers that could escape the tile-set prefix.
pub fn validate_tile_set_id(tile_set_id: &str) -> (r: Result<(), TileMathError>)
    ensures
        r is Ok <==> tile_set_id_valid(tile_set_id@),
        r is Err ==> r == Err::<(), TileMathError>(TileMathError::InvalidTileSetId),
{
    let cs = chars_of(tile_set_id);
    let trimmed = trim_chars(&cs);
    let valid = trimmed.len() > 0 && !contains_char(&cs, '/') && !contains_char(&cs, '\\')
        && !contains(&cs, &chars_of("..")) && !starts_with(&cs, &chars_of("processed-tiles"));
    if valid {
        Ok(())
    } else {
        Err(TileMathError::InvalidTileSetId)
    }
}

/// `tiles/{id}/{z}/{x}/{y}.png`
pub open spec fn tile_path(id: Seq<char>, coord: TileCoord) -> Seq<char> {
    "tiles/"@ + id + "/"@ + dec(coord.z as nat) + "/"@ + dec(coord.x as nat) + "/"@ + dec(
        coord.y as nat,
    ) + ".png"@
}

/// `manifests/{id}.json`
pub open spec fn manifest_path(id: Seq<char>) -> Seq<char> {
    "manifests/"@ + id + ".json"@
}

/// The container-relative blob path of one tile of a tile set.
pub fn tile_blob_path(tile_set_id: &str, coord: TileCoord) -> (r: Result<String, TileMathError>)
    ensures
        !tile_set_id_valid(tile_set_id@) ==> r == Err::<String, TileMathError>(
            TileMathError::InvalidTileSetId,
        ),
        tile_set_id_valid(tile_set_id@) && coord_error(coord) is Some ==> r
            == Err::<String, TileMathError>(coord_error(coord)->0),
        tile_set_id_valid(tile_set_id@) && coord_error(coord) is None ==> (r matches Ok(p) && p@
            == tile_path(tile_set_id@, coord)),
{
    validate_tile_set_id(tile_set_id)?;
    validate_tile_coord(coord)?;
    let mut out = String::new();
    push_str(&mut out, "tiles/");
    push_str(&mut out, tile_set_id);
    push_str(&mut out, "/");
    push_dec(&mut out, coord.z as u64);
    push_str(&mut out, "/");
    push_dec(&mut out, coord.x as u64);
    push_str(&mut out, "/");
    push_dec(&mut out, coord.y as u64);
    push_str(&mut out, ".png");
    assert(out@ =~= tile_path(tile_set_id@, coord));
    Ok(out)
}

/// The container-relative blob path of a tile set's manifest.
pub fn manifest_blob_path(tile_set_id: &str) -> (r: Result<String, TileMathError>)
    ensures
        !tile_set_id_valid(tile_set_id@) ==> r == Err::<String, TileMathError>(
            TileMathError::InvalidTileSetId,
        ),
        tile_set_id_valid(tile_set_id@) ==> (r matches Ok(p) && p@ == manifest_path(
            tile_set_id@,
        )),
{
    validate_tile_set_id(tile_set_id)?;
    let mut out = String::new();
    push_str(&mut out, "manifests/");
    push_str(&mut out, tile_set_id);
    push_str(&mut out, ".json");
    assert(out@ =~= manifest_path(tile_set_id@));
    Ok(out)
}

/// The blob path of the public latest-manifest pointer.
pub fn latest_manifest_blob_path() -> (r: &'static str)
    ensures
        r@ == "manifests/latest.json"@,
{
    "manifests/latest.json"
}

// ---------------------------------------------------------------------------
// VIIRS coverage summaries
// ---------------------------------------------------------------------------

/// The order of VIIRS tiles: by column, then by row.
pub open spec fn coord_lt(a: ViirsTileCoord, b: ViirsTileCoord) -> bool {
    a.tile_h < b.tile_h || (a.tile_h == b.tile_h && a.tile_v < b.tile_v)
}

/// Strictly increasing in [`coord_lt`] (so also free of duplicates).
pub open spec fn sorted_coords(s: Seq<ViirsTileCoord>) -> bool {
    forall|i: int, j: int| 0 <= i < j < s.len() ==> coord_lt(#[trigger] s[i], #[trigger] s[j])
}

/// Strictly increasing.
pub open spec fn sorted_i16(s: Seq<i16>) -> bool {
    forall|i: int, j: int| 0 <= i < j < s.len() ==> #[trigger] s[i] < #[trigger] s[j]
}

/// Executable form of [`coord_lt`].
pub fn viirs_coord_lt(a: ViirsTileCoord, b: ViirsTileCoord) -> (r: bool)
    ensures
        r == coord_lt(a, b),
{
    a.tile_h < b.tile_h || (a.tile_h == b.tile_h && a.tile_v < b.tile_v)
}

proof fn lemma_push_contains<T>(s: Seq<T>, e: T, x: T)
    ensures
        s.push(e).contains(x) <==> (s.contains(x) || x == e),
{
    if s.push(e).contains(x) {
        let k = choose|k: int| 0 <= k < s.push(e).len() && #[trigger] s.push(e)[k] == x;
        if k < s.len() {
            assert(s[k] == x);
        }
    }
    if s.contains(x) {
        let k = choose|k: int| 0 <= k < s.len() && #[trigger] s[k] == x;
        assert(s.push(e)[k] == x);
    }
    if x == e {
        assert(s.push(e)[s.len() as int] == x);
    }
}

/// Inserts `c` into a strictly sorted vector unless it is already there.
fn insert_sorted_coord(v: &mut Vec<ViirsTileCoord>, c: ViirsTileCoord)
    requires
        sorted_coords(old(v)@),
    ensures
        sorted_coords(final(v)@),
        forall|x: ViirsTileCoord| #[trigger] final(v)@.contains(x) <==> (old(v)@.contains(x) || x == c),
{
    let mut i: usize = 0;
    while i < v.len() && viirs_coord_lt(v[i], c)
        invariant
            i <= v.len(),
            v@ == old(v)@,
            forall|k: int| 0 <= k < i ==> coord_lt(#[trigger] v@[k], c),
        decreases v.len() - i,
    {
        i += 1;
    }
    if i < v.len() && v[i] == c {
        assert(v@[i as int] == c);
        assert(v@.contains(c));
        return;
    }
    let ghost before = v@;
    v.insert(i, c);
    assert(v@ == before.insert(i as int, c));
    assert forall|a: int, b: int| 0 <= a < b < v@.len() implies coord_lt(
        #[trigger] v@[a],
        #[trigger] v@[b],
    ) by {
        if i < before.len() {
            assert(!coord_lt(before[i as int], c) && before[i as int] != c);
            assert(coord_lt(c, before[i as int]));
        }
        if b < i {
            assert(coord_lt(before[a], before[b]));
        } else if b == i {
            assert(coord_lt(before[a], c));
        } else if a < i {
            assert(coord_lt(before[a], before[b - 1]));
        } else if a == i {
            if b - 1 > i {
                assert(coord_lt(before[i as int], before[b - 1]));
            }
        } else {
            assert(coord_lt(before[a - 1], before[b - 1]));
        }
    }
    assert forall|x: ViirsTileCoord| #[trigger] v@.contains(x) <==> (before.contains(x) || x == c) by {
        if v@.contains(x) {
            let k = choose|k: int| 0 <= k < v@.len() && #[trigger] v@[k] == x;
            if k < i {
                assert(before[k] == x);
            } else if k > i {
                assert(before[k - 1] == x);
            }
        }
        if before.contains(x) {
            let k = choose|k: int| 0 <= k < before.len() && #[trigger] before[k] == x;
            if k < i {
                assert(v@[k] == x);
            } else {
                assert(v@[k + 1] == x);
            }
        }
        if x == c {
            assert(v@[i as int] == c);
        }
    }
}

/// Whether a sorted vector holds `c`.
fn holds_coord(v: &Vec<ViirsTileCoord>, c: ViirsTileCoord) -> (r: bool)
    ensures
        r == v@.contains(c),
{
    let mut i: usize = 0;
    while i < v.len()
        invariant
            i <= v.len(),
            forall|k: int| 0 <= k < i ==> v@[k] != c,
        decreases v.len() - i,
    {
        if v[i] == c {
            assert(v@[i as int] == c);
            return true;
        }
        i += 1;
    }
    false
}

/// Inserts `h` into a strictly sorted vector unless it is already there.
fn insert_sorted_i16(v: &mut Vec<i16>, h: i16)
    requires
        sorted_i16(old(v)@),
    ensures
        sorted_i16(final(v)@),
        forall|x: i16| #[trigger] final(v)@.contains(x) <==> (old(v)@.contains(x) || x == h),
{
    let mut i: usize = 0;
    while i < v.len() && v[i] < h
        invariant
            i <= v.len(),
            v@ == old(v)@,
            forall|k: int| 0 <= k < i ==> #[trigger] v@[k] < h,
        decreases v.len() - i,
    {
        i += 1;
    }
    if i < v.len() && v[i] == h {
        assert(v@[i as int] == h);
        assert(v@.contains(h));
        return;
    }
    let ghost before = v@;
    v.insert(i, h);
    assert(v@ == before.insert(i as int, h));
    assert forall|a: int, b: int| 0 <= a < b < v@.len() implies #[trigger] v@[a]
        < #[trigger] v@[b] by {
        if b < i {
            assert(before[a] < before[b]);
        } else if b == i {
            assert(before[a] < h);
        } else if a < i {
            assert(before[a] < before[b - 1]);
        } else if a == i {
            assert(h < before[i as int]);
            if b - 1 > i {
                assert(before[i as int] < before[b - 1]);
            }
        } else {
            assert(before[a - 1] < before[b - 1]);
        }
    }
    assert forall|x: i16| #[trigger] v@.contains(x) <==> (before.contains(x) || x == h) by {
        if v@.contains(x) {
            let k = choose|k: int| 0 <= k < v@.len() && #[trigger] v@[k] == x;
            if k < i {
                assert(before[k] == x);
            } else if k > i {
                assert(before[k - 1] == x);
            }
        }
        if before.contains(x) {
            let k = choose|k: int| 0 <= k < before.len() && #[trigger] before[k] == x;
            if k < i {
                assert(v@[k] == x);
            } else {
                assert(v@[k + 1] == x);
            }
        }
        if x == h {
            assert(v@[i as int] == h);
        }
    }
}

/// Coverage of an expected set of VIIRS tiles by the tiles present.
#[derive(Debug, Clone, PartialEq, Eq)]
pub struct ViirsCoverageSummary {
    pub expected_tile_count: usize,
    pub present_tile_count: usize,
    pub complete: bool,
    pub expected_tiles: Vec<ViirsTileCoord>,
    pub present_tiles: Vec<ViirsTileCoord>,
    pub missing_tiles: Vec<ViirsTileCoord>,
    pub missing_columns: Vec<i16>,
    pub missing_rows: Vec<i16>,
}

/// Column `h` is expected and every expected tile in it is missing.
pub open spec fn column_missing(
    expected: Seq<ViirsTileCoord>,
    present: Seq<ViirsTileCoord>,
    h: i16,
) -> bool {
    &&& exists|k: int| 0 <= k < expected.len() && (#[trigger] expected[k]).tile_h == h
    &&& forall|k: int|
        0 <= k < expected.len() && (#[trigger] expected[k]).tile_h == h ==> !present.contains(
            expected[k],
        )
}

/// Row `v` is expected and every expected tile in it is missing.
pub open spec fn row_missing(
    expected: Seq<ViirsTileCoord>,
    present: Seq<ViirsTileCoord>,
    v: i16,
) -> bool {
    &&& exists|k: int| 0 <= k < expected.len() && (#[trigger] expected[k]).tile_v == v
    &&& forall|k: int|
        0 <= k < expected.len() && (#[trigger] expected[k]).tile_v == v ==> !present.contains(
            expected[k],
        )
}

/// What a coverage summary states about its inputs.
pub open spec fn summarizes(
    s: ViirsCoverageSummary,
    expected: Seq<ViirsTileCoord>,
    present: Seq<ViirsTileCoord>,
) -> bool {
    &&& sorted_coords(s.expected_tiles@)
    &&& forall|x: ViirsTileCoord| #[trigger]
        s.expected_tiles@.contains(x) <==> expected.contains(x)
    &&& sorted_coords(s.present_tiles@)
    &&& forall|x: ViirsTileCoord| #[trigger]
        s.present_tiles@.contains(x) <==> (present.contains(x) && expected.contains(x))
    &&& sorted_coords(s.missing_tiles@)
    &&& forall|x: ViirsTileCoord| #[trigger]
        s.missing_tiles@.contains(x) <==> (expected.contains(x) && !present.contains(x))
    &&& s.expected_tile_count == s.expected_tiles@.len()
    &&& s.present_tile_count == s.present_tiles@.len()
    &&& s.complete == (s.missing_tiles@.len() == 0)
    &&& sorted_i16(s.missing_columns@)
    &&& forall|h: i16| #[trigger]
        s.missing_columns@.contains(h) <==> column_missing(expected, present, h)
    &&& sorted_i16(s.missing_rows@)
    &&& forall|v: i16| #[trigger] s.missing_rows@.contains(v) <==> row_missing(expected, present, v)
}

/// A strictly increasing sequence of tiles holds no tile twice, so it has as
/// many entries as its set of tiles.
proof fn lemma_sorted_coords_len(q: Seq<ViirsTileCoord>)
    requires
        sorted_coords(q),
    ensures
        q.len() == q.to_set().len(),
{
    assert forall|i: int, j: int| 0 <= i < q.len() && 0 <= j < q.len() && i != j implies q[i]
        != q[j] by {
        if i < j {
            assert(coord_lt(q[i], q[j]));
        } else {
            assert(coord_lt(q[j], q[i]));
        }
    }
    q.unique_seq_to_set();
}

/// The counts of a coverage summary are set sizes: the expected count is the
/// number of distinct expected tiles, the present count the number of
/// distinct present tiles among them, the missing tiles are as many as the
/// expected ones less the present ones, and the summary is complete exactly
/// when every expected tile is present.
pub proof fn lemma_coverage_counts(
    s: ViirsCoverageSummary,
    expected: Seq<ViirsTileCoord>,
    present: Seq<ViirsTileCoord>,
)
    requires
        summarizes(s, expected, present),
    ensures
        s.expected_tile_count == expected.to_set().len(),
        s.present_tile_count == present.to_set().intersect(expected.to_set()).len(),
        s.missing_tiles@.len() == s.expected_tile_count - s.present_tile_count,
        s.complete <==> present.to_set().intersect(expected.to_set()) == expected.to_set(),
{
    broadcast use {vstd::seq_lib::seq_to_set_is_finite, vstd::set::group_set_axioms};

    let e = expected.to_set();
    let p = present.to_set().intersect(e);
    lemma_sorted_coords_len(s.expected_tiles@);
    lemma_sorted_coords_len(s.present_tiles@);
    lemma_sorted_coords_len(s.missing_tiles@);
    assert(s.expected_tiles@.to_set() =~= e);
    assert(s.present_tiles@.to_set() =~= p);
    assert(s.missing_tiles@.to_set() =~= e.difference(p));
    assert(e.intersect(p) =~= p);
    vstd::set_lib::lemma_set_difference_len(e, p);
    if s.complete {
        assert(p =~= e) by {
            assert forall|x: ViirsTileCoord| e.contains(x) implies p.contains(x) by {
                if !p.contains(x) {
                    assert(e.difference(p).contains(x));
                }
            }
        }
    }
    if p == e {
        assert(e.difference(p) =~= Set::<ViirsTileCoord>::empty());
    }
}

/// Sorted, duplicate-free copy of `tiles`.
fn sorted_unique(tiles: &Vec<ViirsTileCoord>) -> (out: Vec<ViirsTileCoord>)
    ensures
        sorted_coords(out@),
        forall|x: ViirsTileCoord| out@.contains(x) <==> tiles@.contains(x),
{
    let mut out: Vec<ViirsTileCoord> = Vec::new();
    let mut i: usize = 0;
    while i < tiles.len()
        invariant
            i <= tiles.len(),
            sorted_coords(out@),
            forall|x: ViirsTileCoord| out@.contains(x) <==> tiles@.take(i as int).contains(x),
        decreases tiles.len() - i,
    {
        insert_sorted_coord(&mut out, tiles[i]);
        assert forall|x: ViirsTileCoord| out@.contains(x) <==> tiles@.take(i + 1).contains(x) by {
            if tiles@.take(i + 1).contains(x) {
                let k = choose|k: int| 0 <= k < i + 1 && #[trigger] tiles@.take(i + 1)[k] == x;
                if k < i {
                    assert(tiles@.take(i as int)[k] == x);
                }
            }
            if tiles@.take(i as int).contains(x) {
                let k = choose|k: int| 0 <= k < i && #[trigger] tiles@.take(i as int)[k] == x;
                assert(tiles@.take(i + 1)[k] == x);
            }
            if x == tiles@[i as int] {
                assert(tiles@.take(i + 1)[i as int] == x);
            }
        }
        i += 1;
    }
    assert(tiles@.take(tiles.len() as int) == tiles@);
    out
}

/// Summarizes which expected VIIRS tiles are present and which are missing,
/// including whole columns and rows with no present tile.
pub fn summarize_viirs_coverage(
    expected_tiles: &Vec<ViirsTileCoord>,
    present_tiles: &Vec<ViirsTileCoord>,
) -> (s: ViirsCoverageSummary)
    ensures
        summarizes(s, expected_tiles@, present_tiles@),
        s.expected_tile_count == expected_tiles@.to_set().len(),
        s.present_tile_count == present_tiles@.to_set().intersect(expected_tiles@.to_set()).len(),
        s.complete <==> present_tiles@.to_set().intersect(expected_tiles@.to_set())
            == expected_tiles@.to_set(),
{
    let expected = sorted_unique(expected_tiles);
    // Present tiles outside the expected set are ignored.
    let mut present: Vec<ViirsTileCoord> = Vec::new();
    let mut i: usize = 0;
    while i < present_tiles.len()
        invariant
            i <= present_tiles.len(),
            sorted_coords(present@),
            forall|x: ViirsTileCoord| expected@.contains(x) <==> expected_tiles@.contains(x),
            forall|x: ViirsTileCoord|
                present@.contains(x) <==> (present_tiles@.take(i as int).contains(x)
                    && expected_tiles@.contains(x)),
        decreases present_tiles.len() - i,
    {
        let c = present_tiles[i];
        let ghost before = present@;
        if holds_coord(&expected, c) {
            insert_sorted_coord(&mut present, c);
        }
        assert forall|x: ViirsTileCoord|
            present@.contains(x) <==> (present_tiles@.take(i + 1).contains(x)
                && expected_tiles@.contains(x)) by {
            if present_tiles@.take(i + 1).contains(x) {
                let k = choose|k: int| 0 <= k < i + 1 && #[trigger] present_tiles@.take(i + 1)[k] == x;
                if k < i {
                    assert(present_tiles@.take(i as int)[k] == x);
                }
            }
            if present_tiles@.take(i as int).contains(x) {
                let k = choose|k: int| 0 <= k < i && #[trigger] present_tiles@.take(i as int)[k] == x;
                assert(present_tiles@.take(i + 1)[k] == x);
            }
            if x == c {
                assert(present_tiles@.take(i + 1)[i as int] == x);
            }
        }
        i += 1;
    }
    assert(present_tiles@.take(present_tiles.len() as int) == present_tiles@);
    // Missing tiles, in expected order.
    let mut missing: Vec<ViirsTileCoord> = Vec::new();
    let mut j: usize = 0;
    while j < expected.len()
        invariant
            j <= expected.len(),
            sorted_coords(expected@),
            sorted_coords(missing@),
            forall|k: int, m: int|
                0 <= k < missing@.len() && j <= m < expected@.len() ==> coord_lt(
                    #[trigger] missing@[k],
                    #[trigger] expected@[m],
                ),
            forall|x: ViirsTileCoord|
                missing@.contains(x) <==> (expected@.take(j as int).contains(x)
                    && !present@.contains(x)),
        decreases expected.len() - j,
    {
        let c = expected[j];
        let ghost before = missing@;
        assert(!before.contains(c)) by {
            if before.contains(c) {
                let k = choose|k: int| 0 <= k < before.len() && #[trigger] before[k] == c;
                assert(coord_lt(missing@[k], expected@[j as int]));
            }
        }
        if !holds_coord(&present, c) {
            missing.push(c);
            proof {
                assert forall|x: ViirsTileCoord| missing@.contains(x) <==> (before.contains(x)
                    || x == c) by {
                    lemma_push_contains(before, c, x);
                }
            }
        }
        assert forall|x: ViirsTileCoord|
            missing@.contains(x) <==> (expected@.take(j + 1).contains(x) && !present@.contains(
                x,
            )) by {
            if before.contains(x) {
                assert(expected@.take(j as int).contains(x) && !present@.contains(x));
                let k = choose|k: int| 0 <= k < j && #[trigger] expected@.take(j as int)[k] == x;
                assert(expected@.take(j + 1)[k] == x);
            }
            if expected@.take(j + 1).contains(x) {
                let k = choose|k: int| 0 <= k < j + 1 && #[trigger] expected@.take(j + 1)[k] == x;
                if k < j {
                    assert(expected@.take(j as int)[k] == x);
                }
            }
            if expected@.take(j as int).contains(x) {
                let k = choose|k: int| 0 <= k < j && #[trigger] expected@.take(j as int)[k] == x;
                assert(expected@.take(j + 1)[k] == x);
            }
            if x == c {
                assert(expected@.take(j + 1)[j as int] == x);
            }
        }
        j += 1;
    }
    assert(expected@.take(expected.len() as int) == expected@);
    // Whole columns and rows without any present tile.
    let mut columns: Vec<i16> = Vec::new();
    let mut rows: Vec<i16> = Vec::new();
    let mut k: usize = 0;
    while k < expected.len()
        invariant
            k <= expected.len(),
            sorted_i16(columns@),
            sorted_i16(rows@),
            forall|h: i16|
                columns@.contains(h) <==> exists|m: int|
                    0 <= m < k && (#[trigger] expected@[m]).tile_h == h,
            forall|v: i16|
                rows@.contains(v) <==> exists|m: int|
                    0 <= m < k && (#[trigger] expected@[m]).tile_v == v,
        decreases expected.len() - k,
    {
        let c = expected[k];
        insert_sorted_i16(&mut columns, c.tile_h);
        insert_sorted_i16(&mut rows, c.tile_v);
        assert forall|h: i16|
            columns@.contains(h) <==> exists|m: int|
                0 <= m < k + 1 && (#[trigger] expected@[m]).tile_h == h by {
            if h == c.tile_h {
                assert(expected@[k as int].tile_h == h);
            }
        }
        assert forall|v: i16|
            rows@.contains(v) <==> exists|m: int|
                0 <= m < k + 1 && (#[trigger] expected@[m]).tile_v == v by {
            if v == c.tile_v {
                assert(expected@[k as int].tile_v == v);
            }
        }
        k += 1;
    }
    let missing_columns = missing_lines(&expected, &present, &columns, true);
    let missing_rows = missing_lines(&expected, &present, &rows, false);
    let expected_tile_count = expected.len();
    let present_tile_count = present.len();
    let complete = missing.len() == 0;
    let s = ViirsCoverageSummary {
        expected_tile_count,
        present_tile_count,
        complete,
        expected_tiles: expected,
        present_tiles: present,
        missing_tiles: missing,
        missing_columns,
        missing_rows,
    };
    proof {
        assert forall|h: i16| #[trigger]
            s.missing_columns@.contains(h) <==> column_missing(
                expected_tiles@,
                present_tiles@,
                h,
            ) by {
            lemma_line_missing_same(s.expected_tiles@, expected_tiles@, s.present_tiles@, present_tiles@, h, true);
        }
        assert forall|v: i16| #[trigger]
            s.missing_rows@.contains(v) <==> row_missing(expected_tiles@, present_tiles@, v) by {
            lemma_line_missing_same(s.expected_tiles@, expected_tiles@, s.present_tiles@, present_tiles@, v, false);
        }
        lemma_coverage_counts(s, expected_tiles@, present_tiles@);
    }
    s
}

/// The column (`by_column`) or row of a tile.
pub open spec fn line_of(c: ViirsTileCoord, by_column: bool) -> i16 {
    if by_column {
        c.tile_h
    } else {
        c.tile_v
    }
}

/// Line `l` is expected and all of its expected tiles are missing.
pub open spec fn line_missing(
    expected: Seq<ViirsTileCoord>,
    present: Seq<ViirsTileCoord>,
    l: i16,
    by_column: bool,
) -> bool {
    &&& exists|k: int| 0 <= k < expected.len() && line_of(#[trigger] expected[k], by_column) == l
    &&& forall|k: int|
        0 <= k < expected.len() && line_of(#[trigger] expected[k], by_column) == l
            ==> !present.contains(expected[k])
}

proof fn lemma_line_missing_same(
    e1: Seq<ViirsTileCoord>,
    e2: Seq<ViirsTileCoord>,
    p1: Seq<ViirsTileCoord>,
    p2: Seq<ViirsTileCoord>,
    l: i16,
    by_column: bool,
)
    requires
        forall|x: ViirsTileCoord| e1.contains(x) <==> e2.contains(x),
        forall|x: ViirsTileCoord| p1.contains(x) <==> (p2.contains(x) && e2.contains(x)),
    ensures
        line_missing(e1, p1, l, by_column) == (if by_column {
            column_missing(e2, p2, l)
        } else {
            row_missing(e2, p2, l)
        }),
{
    let lhs = line_missing(e1, p1, l, by_column);
    let rhs = line_missing(e2, p2, l, by_column);
    if lhs {
        let k = choose|k: int| 0 <= k < e1.len() && line_of(#[trigger] e1[k], by_column) == l;
        assert(e1.contains(e1[k]));
        let k2 = choose|k2: int| 0 <= k2 < e2.len() && #[trigger] e2[k2] == e1[k];
        assert(line_of(e2[k2], by_column) == l);
        assert forall|m: int|
            0 <= m < e2.len() && line_of(#[trigger] e2[m], by_column) == l implies !p2.contains(
            e2[m],
        ) by {
            assert(e2.contains(e2[m]));
            let m1 = choose|m1: int| 0 <= m1 < e1.len() && #[trigger] e1[m1] == e2[m];
            assert(line_of(e1[m1], by_column) == l);
        }
    }
    if rhs {
        let k = choose|k: int| 0 <= k < e2.len() && line_of(#[trigger] e2[k], by_column) == l;
        assert(e2.contains(e2[k]));
        let k1 = choose|k1: int| 0 <= k1 < e1.len() && #[trigger] e1[k1] == e2[k];
        assert(line_of(e1[k1], by_column) == l);
        assert forall|m: int|
            0 <= m < e1.len() && line_of(#[trigger] e1[m], by_column) == l implies !p1.contains(
            e1[m],
        ) by {
            assert(e1.contains(e1[m]));
            let m2 = choose|m2: int| 0 <= m2 < e2.len() && #[trigger] e2[m2] == e1[m];
            assert(line_of(e2[m2], by_column) == l);
        }
    }
    if by_column {
        assert(line_missing(e2, p2, l, by_column) == column_missing(e2, p2, l)) by {
            if column_missing(e2, p2, l) {
                let k = choose|k: int| 0 <= k < e2.len() && (#[trigger] e2[k]).tile_h == l;
                assert(line_of(e2[k], by_column) == l);
            }
            if line_missing(e2, p2, l, by_column) {
                let k = choose|k: int| 0 <= k < e2.len() && line_of(#[trigger] e2[k], by_column)
                    == l;
                assert(e2[k].tile_h == l);
            }
        }
    } else {
        assert(line_missing(e2, p2, l, by_column) == row_missing(e2, p2, l)) by {
            if row_missing(e2, p2, l) {
                let k = choose|k: int| 0 <= k < e2.len() && (#[trigger] e2[k]).tile_v == l;
                assert(line_of(e2[k], by_column) == l);
            }
            if line_missing(e2, p2, l, by_column) {
                let k = choose|k: int| 0 <= k < e2.len() && line_of(#[trigger] e2[k], by_column)
                    == l;
                assert(e2[k].tile_v == l);
            }
        }
    }
}

/// The lines (columns or rows) among `lines` whose expected tiles are all
/// missing, in increasing order.
fn missing_lines(
    expected: &Vec<ViirsTileCoord>,
    present: &Vec<ViirsTileCoord>,
    lines: &Vec<i16>,
    by_column: bool,
) -> (out: Vec<i16>)
    requires
        sorted_i16(lines@),
        forall|l: i16|
            lines@.contains(l) <==> exists|m: int|
                0 <= m < expected@.len() && line_of(#[trigger] expected@[m], by_column) == l,
    ensures
        sorted_i16(out@),
        forall|l: i16| out@.contains(l) <==> line_missing(expected@, present@, l, by_column),
{
    let mut out: Vec<i16> = Vec::new();
    let mut i: usize = 0;
    while i < lines.len()
        invariant
            i <= lines.len(),
            sorted_i16(lines@),
            sorted_i16(out@),
            forall|k: int, m: int|
                0 <= k < out@.len() && i <= m < lines@.len() ==> #[trigger] out@[k]
                    < #[trigger] lines@[m],
            forall|l: i16|
                out@.contains(l) <==> (lines@.take(i as int).contains(l) && line_missing(
                    expected@,
                    present@,
                    l,
                    by_column,
                )),
            forall|l: i16|
                lines@.contains(l) <==> exists|m: int|
                    0 <= m < expected@.len() && line_of(#[trigger] expected@[m], by_column) == l,
        decreases lines.len() - i,
    {
        let l = lines[i];
        assert(lines@.contains(l));
        // Every expected tile on the line must be absent.
        let mut all_missing = true;
        let mut j: usize = 0;
        while j < expected.len()
            invariant
                j <= expected.len(),
                all_missing == forall|m: int|
                    0 <= m < j && line_of(#[trigger] expected@[m], by_column) == l
                        ==> !present@.contains(expected@[m]),
            decreases expected.len() - j,
        {
            let c = expected[j];
            let on_line = if by_column {
                c.tile_h == l
            } else {
                c.tile_v == l
            };
            if on_line && holds_coord(present, c) {
                all_missing = false;
            }
            j += 1;
        }
        let ghost missing_here = line_missing(expected@, present@, l, by_column);
        assert(all_missing == missing_here);
        let ghost before = out@;
        assert(!before.contains(l)) by {
            if before.contains(l) {
                let k = choose|k: int| 0 <= k < before.len() && #[trigger] before[k] == l;
                assert(out@[k] < lines@[i as int]);
            }
        }
        if all_missing {
            out.push(l);
            proof {
                assert forall|x: i16| out@.contains(x) <==> (before.contains(x) || x == l) by {
                    lemma_push_contains(before, l, x);
                }
            }
        }
        assert forall|l2: i16|
            out@.contains(l2) <==> (lines@.take(i + 1).contains(l2) && line_missing(
                expected@,
                present@,
                l2,
                by_column,
            )) by {
            if before.contains(l2) {
                assert(lines@.take(i as int).contains(l2));
                let k = choose|k: int| 0 <= k < i && #[trigger] lines@.take(i as int)[k] == l2;
                assert(lines@.take(i + 1)[k] == l2);
            }
            if lines@.take(i + 1).contains(l2) {
                let k = choose|k: int| 0 <= k < i + 1 && #[trigger] lines@.take(i + 1)[k] == l2;
                if k < i {
                    assert(lines@.take(i as int)[k] == l2);
                }
            }
            if lines@.take(i as int).contains(l2) {
                let k = choose|k: int| 0 <= k < i && #[trigger] lines@.take(i as int)[k] == l2;
                assert(lines@.take(i + 1)[k] == l2);
            }
            if l2 == l {
                assert(lines@.take(i + 1)[i as int] == l2);
            }
        }
        i += 1;
    }
    assert(lines@.take(lines.len() as int) == lines@);
    out
}

/// The message of a tile-math error.
pub open spec fn tile_math_error_text(e: TileMathError) -> Seq<char> {
    match e {
        TileMathError::InvalidBounds => "invalid geographic bounds"@,
        TileMathError::InvalidViirsTile { tile_h, tile_v } => "invalid VIIRS tile h"@ + padded(
            tile_h as int,
            2,
            false,
        ) + "v"@ + padded(tile_v as int, 2, false),
        TileMathError::InvalidTileSetId => "invalid tile set id"@,
        TileMathError::XOutOfRange { z, x, max } => "tile x "@ + dec(x as nat) + " is outside zoom "@
            + dec(z as nat) + " range 0..="@ + dec(max as nat),
        TileMathError::YOutOfRange { z, y, max } => "tile y "@ + dec(y as nat) + " is outside zoom "@
            + dec(z as nat) + " range 0..="@ + dec(max as nat),
        TileMathError::ZoomTooLarge { z } => "tile zoom "@ + dec(z as nat)
            + " exceeds supported maximum"@,
    }
}

impl TileMathError {
    /// Appends the message of this error to `out`.
    pub fn push_message(&self, out: &mut String)
        ensures
            final(out)@ == old(out)@ + tile_math_error_text(*self),
    {
        let ghost start = out@;
        match *self {
            TileMathError::InvalidBounds => push_str(out, "invalid geographic bounds"),
            TileMathError::InvalidViirsTile { tile_h, tile_v } => {
                push_str(out, "invalid VIIRS tile h");
                push_padded(out, tile_h as i64, 2, false);
                push_str(out, "v");
                push_padded(out, tile_v as i64, 2, false);
            },
            TileMathError::InvalidTileSetId => push_str(out, "invalid tile set id"),
            TileMathError::XOutOfRange { z, x, max } => {
                push_str(out, "tile x ");
                push_dec(out, x as u64);
                push_str(out, " is outside zoom ");
                push_dec(out, z as u64);
                push_str(out, " range 0..=");
                push_dec(out, max as u64);
            },
            TileMathError::YOutOfRange { z, y, max } => {
                push_str(out, "tile y ");
                push_dec(out, y as u64);
                push_str(out, " is outside zoom ");
                push_dec(out, z as u64);
                push_str(out, " range 0..=");
                push_dec(out, max as u64);
            },
            TileMathError::ZoomTooLarge { z } => {
                push_str(out, "tile zoom ");
                push_dec(out, z as u64);
                push_str(out, " exceeds supported maximum");
            },
        }
        assert(out@ =~= start + tile_math_error_text(*self));
    }

    /// The message shown for this error.
    pub fn message(&self) -> (r: String)
        ensures
            r@ == tile_math_error_text(*self),
    {
        let mut out = String::new();
        self.push_message(&mut out);
        assert(out@ =~= tile_math_error_text(*self));
        out
    }
}

} // verus!
