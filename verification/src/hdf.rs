//! Raster geometry of HDF datasets and the GDAL names that address them.
use vstd::prelude::*;

use crate::text::{
    lines_of, lines_seq, push_str, string_of, trim, trim_chars, words, words_of,
};

verus! {

/// Width and height of a raster dataset, in pixels.
#[derive(Debug, Clone, Copy, PartialEq, Eq, Structural)]
pub struct RasterShape {
    pub width: usize,
    pub height: usize,
}

/// A rectangular window of a raster dataset, in pixels.
#[derive(Debug, Clone, Copy, PartialEq, Eq, Structural)]
pub struct RasterWindow {
    pub x_offset: usize,
    pub y_offset: usize,
    pub width: usize,
    pub height: usize,
}

/// The size a window is resampled to.
#[derive(Debug, Clone, Copy, PartialEq, Eq, Structural)]
pub struct RasterOutputSize {
    pub width: usize,
    pub height: usize,
}

/// The GDAL name of a dataset inside an HDF5 file.
pub open spec fn subdataset_name(granule_path: Seq<char>, subdataset_path: Seq<char>) -> Seq<char> {
    "HDF5:\""@ + granule_path + "\":"@ + subdataset_path
}

/// `HDF5:"{granule_path}":{subdataset_path}`.
pub fn hdf5_subdataset_name(granule_path: &str, subdataset_path: &str) -> (r: String)
    ensures
        r@ == subdataset_name(granule_path@, subdataset_path@),
{
    let mut out = String::new();
    push_str(&mut out, "HDF5:\"");
    push_str(&mut out, granule_path);
    push_str(&mut out, "\":");
    push_str(&mut out, subdataset_path);
    assert(out@ =~= subdataset_name(granule_path@, subdataset_path@));
    out
}

// ---------------------------------------------------------------------------
// XYZ output
// ---------------------------------------------------------------------------

/// One row of GDAL's XYZ text output: its line and the line's three words
/// (x, y and the sample value), whose numbers the caller reads.
#[derive(Debug, Clone, PartialEq, Eq)]
pub struct XyzRow {
    pub line: String,
    pub x: String,
    pub y: String,
    pub value: String,
}

/// The lines that are not blank (whose trimmed text is not empty).
pub open spec fn nonblank_lines(ls: Seq<Seq<char>>) -> Seq<Seq<char>>
    decreases ls.len(),
{
    if ls.len() == 0 {
        Seq::empty()
    } else {
        let r = nonblank_lines(ls.drop_last());
        if trim(ls.last()).len() > 0 {
            r.push(ls.last())
        } else {
            r
        }
    }
}

/// The non-blank lines of an XYZ text.
pub open spec fn xyz_lines(s: Seq<char>) -> Seq<Seq<char>> {
    nonblank_lines(lines_seq(s))
}

/// `row` is `line` split into its three words.
pub open spec fn row_of_line(row: XyzRow, line: Seq<char>) -> bool {
    &&& row.line@ == line
    &&& words(line).len() == 3
    &&& row.x@ == words(line)[0]
    &&& row.y@ == words(line)[1]
    &&& row.value@ == words(line)[2]
}

proof fn lemma_nonblank_prefix(ls: Seq<Seq<char>>, m: int)
    requires
        0 <= m <= ls.len(),
    ensures
        nonblank_lines(ls.take(m)).len() <= nonblank_lines(ls).len(),
        forall|j: int|
            0 <= j < nonblank_lines(ls.take(m)).len() ==> nonblank_lines(ls.take(m))[j]
                == nonblank_lines(ls)[j],
    decreases ls.len(),
{
    if m < ls.len() {
        lemma_nonblank_prefix(ls.drop_last(), m);
        assert(ls.drop_last().take(m) =~= ls.take(m));
    } else {
        assert(ls.take(m) =~= ls);
    }
}

/// Splits GDAL's XYZ output into rows of three words, skipping blank lines;
/// the first line with another number of words is returned as the error.
pub fn xyz_rows(stdout: &str) -> (r: Result<Vec<XyzRow>, String>)
    ensures
        match r {
            Ok(rows) => rows@.len() == xyz_lines(stdout@).len() && forall|i: int|
                0 <= i < rows@.len() ==> row_of_line(#[trigger] rows@[i], xyz_lines(stdout@)[i]),
            Err(line) => exists|k: int|
                0 <= k < xyz_lines(stdout@).len() && line@ == xyz_lines(stdout@)[k] && words(
                    #[trigger] xyz_lines(stdout@)[k],
                ).len() != 3 && forall|j: int|
                    0 <= j < k ==> words(#[trigger] xyz_lines(stdout@)[j]).len() == 3,
        },
        r is Ok <==> forall|i: int|
            0 <= i < xyz_lines(stdout@).len() ==> words(#[trigger] xyz_lines(stdout@)[i]).len()
                == 3,
{
    let lines = lines_of(stdout);
    let ghost lv = lines@.map_values(|l: Vec<char>| l@);
    let mut rows: Vec<XyzRow> = Vec::new();
    let mut i: usize = 0;
    while i < lines.len()
        invariant
            i <= lines@.len(),
            lv == lines@.map_values(|l: Vec<char>| l@),
            lv == lines_seq(stdout@),
            rows@.len() == nonblank_lines(lv.take(i as int)).len(),
            forall|j: int|
                0 <= j < rows@.len() ==> row_of_line(
                    #[trigger] rows@[j],
                    nonblank_lines(lv.take(i as int))[j],
                ),
        decreases lines@.len() - i,
    {
        let line = &lines[i];
        proof {
            assert(lv.take(i + 1).drop_last() =~= lv.take(i as int));
            assert(lv.take(i + 1).last() == line@);
        }
        let t = trim_chars(line);
        if t.len() > 0 {
            let w = words_of(line);
            if w.len() != 3 {
                proof {
                    let k = rows@.len() as int;
                    let nb = nonblank_lines(lv.take(i + 1));
                    assert(nb == nonblank_lines(lv.take(i as int)).push(line@));
                    lemma_nonblank_prefix(lv, i + 1);
                    assert(lv.take(lv.len() as int) =~= lv);
                    assert(xyz_lines(stdout@)[k] == line@);
                    assert forall|j: int| 0 <= j < k implies words(
                        #[trigger] xyz_lines(stdout@)[j],
                    ).len() == 3 by {
                        assert(row_of_line(rows@[j], nonblank_lines(lv.take(i as int))[j]));
                        assert(nb[j] == nonblank_lines(lv.take(i as int))[j]);
                    }
                }
                return Err(string_of(line));
            }
            let row = XyzRow {
                line: string_of(line),
                x: string_of(&w[0]),
                y: string_of(&w[1]),
                value: string_of(&w[2]),
            };
            proof {
                assert(w@.map_values(|v: Vec<char>| v@)[0] == w@[0]@);
                assert(w@.map_values(|v: Vec<char>| v@)[1] == w@[1]@);
                assert(w@.map_values(|v: Vec<char>| v@)[2] == w@[2]@);
            }
            let ghost before = rows@;
            rows.push(row);
            proof {
                assert(nonblank_lines(lv.take(i + 1)) == nonblank_lines(lv.take(i as int)).push(
                    line@,
                ));
                assert forall|j: int| 0 <= j < rows@.len() implies row_of_line(
                    #[trigger] rows@[j],
                    nonblank_lines(lv.take(i + 1))[j],
                ) by {
                    if j < before.len() {
                        assert(rows@[j] == before[j]);
                    }
                }
            }
        } else {
            proof {
                assert(nonblank_lines(lv.take(i + 1)) == nonblank_lines(lv.take(i as int)));
            }
        }
        i = i + 1;
    }
    proof {
        assert(lv.take(lv.len() as int) =~= lv);
        assert forall|j: int| 0 <= j < xyz_lines(stdout@).len() implies words(
            #[trigger] xyz_lines(stdout@)[j],
        ).len() == 3 by {
            assert(row_of_line(rows@[j], nonblank_lines(lv)[j]));
        }
    }
    Ok(rows)
}

} // verus!
