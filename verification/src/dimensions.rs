//! Grid dimensions as the remote session accepts them.

use vstd::prelude::*;

verus! {

/// Smallest number of columns a grid may have.
pub const MIN_COLS: i64 = 1;

/// Smallest number of rows a grid may have. The remote session does not
/// shrink below this, and would not confirm a request that asks for less.
pub const MIN_ROWS: i64 = 3;

/// A grid size in character cells.
#[derive(Clone, Copy, Debug, PartialEq, Eq, Structural)]
pub struct Dimensions {
    pub cols: i64,
    pub rows: i64,
}

impl Dimensions {
    /// A size the remote session can be asked to take.
    pub open spec fn valid(self) -> bool {
        self.cols >= MIN_COLS && self.rows >= MIN_ROWS
    }

    /// The valid size nearest to a measured one.
    pub open spec fn spec_clamped(cols: i64, rows: i64) -> Dimensions {
        Dimensions {
            cols: if cols < MIN_COLS { MIN_COLS } else { cols },
            rows: if rows < MIN_ROWS { MIN_ROWS } else { rows },
        }
    }

    /// Accepts exactly the valid sizes.
    pub fn new(cols: i64, rows: i64) -> (r: Option<Dimensions>)
        ensures
            r == (if cols >= MIN_COLS && rows >= MIN_ROWS {
                Some(Dimensions { cols, rows })
            } else {
                None::<Dimensions>
            }),
    {
        if cols >= MIN_COLS && rows >= MIN_ROWS {
            Some(Dimensions { cols, rows })
        } else {
            None
        }
    }

    /// Raises a measured size to the minimum in each direction.
    pub fn clamped(cols: i64, rows: i64) -> (r: Dimensions)
        ensures
            r == Dimensions::spec_clamped(cols, rows),
            r.valid(),
    {
        Dimensions {
            cols: if cols < MIN_COLS { MIN_COLS } else { cols },
            rows: if rows < MIN_ROWS { MIN_ROWS } else { rows },
        }
    }

    /// Reads a size reported by the remote session. Sizes that are not valid,
    /// or that do not fit a signed 64-bit integer, give `None`.
    pub fn from_remote(columns: u64, rows: u64) -> (r: Option<Dimensions>)
        ensures
            r == (if MIN_COLS <= columns <= i64::MAX && MIN_ROWS <= rows <= i64::MAX {
                Some(Dimensions { cols: columns as i64, rows: rows as i64 })
            } else {
                None::<Dimensions>
            }),
            r matches Some(d) ==> d.valid(),
    {
        if columns >= 1 && columns <= 0x7fff_ffff_ffff_ffffu64 && rows >= 3 && rows
            <= 0x7fff_ffff_ffff_ffffu64 {
            Some(Dimensions { cols: columns as i64, rows: rows as i64 })
        } else {
            None
        }
    }
}

} // verus!
