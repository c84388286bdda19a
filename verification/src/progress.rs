//! How far a render has come, row by row.
//!
//! A picture is filled from its top row down, while the camera counts rows
//! from the bottom up. The share that is done is reported in whole percent,
//! and only when it changes.

use vstd::prelude::*;

verus! {

/// The camera's row for a row of the picture: the picture's top row is the
/// camera's highest.
pub open spec fn flipped(img_height: u32, row: u32) -> int {
    img_height - 1 - row
}

/// The percent done when the camera's row `y` is being filled: 100 less the
/// whole percent of the rows that are still below it.
pub open spec fn percent_at(img_height: u32, y: u32) -> int {
    100 - (100 * y) / (img_height as int)
}

/// The camera's row for a row of the picture.
pub fn flip_row(img_height: u32, row: u32) -> (y: u32)
    requires
        row < img_height,
    ensures
        y == flipped(img_height, row),
        y < img_height,
        flipped(img_height, y) == row,
{
    img_height - 1 - row
}

/// The percent done when the camera's row `y` is being filled. It lies
/// between 1 and 100, and is 100 at the lowest row.
pub fn percent_done(img_height: u32, y: u32) -> (percent: i32)
    requires
        y < img_height,
    ensures
        percent == percent_at(img_height, y),
        1 <= percent <= 100,
        y == 0 ==> percent == 100,
{
    let below: u64 = 100 * (y as u64) / (img_height as u64);
    proof {
        percent_is_in_range(img_height, y);
    }
    100 - (below as i32)
}

/// The last percent that was reported.
#[derive(Debug, Clone, Copy, PartialEq, Eq, Structural)]
pub struct Progress {
    pub prev_percent: i32,
}

impl Progress {
    /// Whether the percent is one: between 0 and 100.
    pub open spec fn well_formed(self) -> bool {
        0 <= self.prev_percent <= 100
    }

    /// Nothing is done yet.
    pub fn new() -> (r: Progress)
        ensures
            r.prev_percent == 0,
            r.well_formed(),
    {
        Progress { prev_percent: 0 }
    }

    /// Takes note of the percent that is done now, and says by how much to
    /// move the bar: the difference to the percent before, or nothing where
    /// there is none.
    pub fn advance(&mut self, percent: i32) -> (step: Option<i32>)
        requires
            old(self).well_formed(),
            0 <= percent <= 100,
        ensures
            final(self).prev_percent == percent,
            final(self).well_formed(),
            percent == old(self).prev_percent ==> step is None,
            percent != old(self).prev_percent ==> step == Some(
                (percent - old(self).prev_percent) as i32,
            ),
    {
        let step = if self.prev_percent != percent {
            Some(percent - self.prev_percent)
        } else {
            None
        };
        self.prev_percent = percent;
        step
    }

    /// Takes note that a row of the picture is being filled, and says by how
    /// much to move the bar.
    pub fn row_started(&mut self, img_height: u32, row: u32) -> (step: Option<i32>)
        requires
            old(self).well_formed(),
            row < img_height,
        ensures
            final(self).prev_percent == percent_at(img_height, flipped(img_height, row) as u32),
            final(self).well_formed(),
            final(self).prev_percent == old(self).prev_percent ==> step is None,
            final(self).prev_percent != old(self).prev_percent ==> step == Some(
                (final(self).prev_percent - old(self).prev_percent) as i32,
            ),
    {
        let y = flip_row(img_height, row);
        let percent = percent_done(img_height, y);
        self.advance(percent)
    }
}

impl Default for Progress {
    fn default() -> (r: Progress)
        ensures
            r.prev_percent == 0,
    {
        Progress { prev_percent: 0 }
    }
}

/// The percent done is a percent, and never nought: it lies between 1 and
/// 100.
pub proof fn percent_is_in_range(img_height: u32, y: u32)
    requires
        y < img_height,
    ensures
        1 <= percent_at(img_height, y) <= 100,
{
    assert(0 <= (100 * y) / (img_height as int) < 100) by (nonlinear_arith)
        requires
            0 <= y < img_height,
    ;
}

/// The bar never moves back: a row further down in the picture has no
/// smaller percent.
pub proof fn percent_never_falls(img_height: u32, row: u32, later: u32)
    requires
        row <= later < img_height,
    ensures
        percent_at(img_height, flipped(img_height, row) as u32) <= percent_at(
            img_height,
            flipped(img_height, later) as u32,
        ),
        percent_at(img_height, flipped(img_height, (img_height - 1) as u32) as u32) == 100,
{
    let y1 = flipped(img_height, row);
    let y2 = flipped(img_height, later);
    assert((100 * y2) / (img_height as int) <= (100 * y1) / (img_height as int))
        by (nonlinear_arith)
        requires
            0 <= y2 <= y1,
            img_height > 0,
    ;
}

} // verus!
