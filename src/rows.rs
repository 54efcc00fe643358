//! A cursor over the rows of a sounding, from the surface up or from the top down.

use vstd::prelude::*;

use crate::data_row::DataRow;
use crate::sounding::{num_rows, row_at, rows_bottom_up, rows_top_down, Sounding};

verus! {

/// The order in which a cursor visits the rows.
#[derive(Clone, Copy, Debug, PartialEq, Eq, Structural)]
pub enum Direction {
    /// From the surface up: increasing index, decreasing pressure.
    BottomUp,
    /// From the top down to the surface: decreasing index, increasing pressure.
    TopDown,
}

/// A cursor over the rows of a borrowed sounding. Each call of `next` hands out one row until
/// none is left; a fresh cursor starts over.
pub struct ProfileIterator<'a> {
    src: &'a Sounding,
    direction: Direction,
    // The number of rows handed out so far.
    taken: usize,
}

impl<'a> ProfileIterator<'a> {
    /// The rows this cursor visits, in order, from the start.
    pub open spec fn all_rows(&self) -> Seq<DataRow> {
        match self.spec_direction() {
            Direction::BottomUp => rows_bottom_up(*self.spec_src()),
            Direction::TopDown => rows_top_down(*self.spec_src()),
        }
    }

    /// The rows not yet handed out.
    pub open spec fn remaining(&self) -> Seq<DataRow> {
        self.all_rows().subrange(self.spec_taken() as int, self.all_rows().len() as int)
    }

    /// The sounding being read.
    pub closed spec fn spec_src(&self) -> &'a Sounding {
        self.src
    }

    /// The order of the visit.
    pub closed spec fn spec_direction(&self) -> Direction {
        self.direction
    }

    /// The number of rows handed out so far.
    pub closed spec fn spec_taken(&self) -> nat {
        self.taken as nat
    }

    /// Whether the cursor is well formed: it has not handed out more rows than there are.
    pub open spec fn wf(&self) -> bool {
        self.spec_taken() <= num_rows(*self.spec_src())
    }

    /// A cursor at the first row of `src` in the given direction.
    pub fn new(src: &'a Sounding, direction: Direction) -> (r: Self)
        ensures
            r.wf(),
            r.spec_src() == src,
            r.spec_direction() == direction,
            r.spec_taken() == 0,
            r.remaining() == r.all_rows(),
    {
        let r = ProfileIterator { src, direction, taken: 0 };
        proof {
            assert(r.remaining() =~= r.all_rows());
        }
        r
    }

    /// The next row, or `None` when every row has been handed out.
    pub fn next(&mut self) -> (r: Option<DataRow>)
        requires
            old(self).wf(),
        ensures
            final(self).wf(),
            final(self).spec_src() == old(self).spec_src(),
            final(self).spec_direction() == old(self).spec_direction(),
            old(self).remaining().len() == 0 ==> r.is_none() && final(self).remaining() == old(
                self,
            ).remaining(),
            old(self).remaining().len() > 0 ==> r == Some(old(self).remaining()[0])
                && final(self).remaining() == old(self).remaining().drop_first(),
    {
        let n = self.src.pressure_profile().len();
        if self.taken >= n {
            return None;
        }
        let idx = match self.direction {
            Direction::BottomUp => self.taken,
            Direction::TopDown => n - 1 - self.taken,
        };
        let row = self.src.get_data_row(idx);
        proof {
            assert(row == Some(row_at(*self.src, idx as int)));
        }
        self.taken = self.taken + 1;
        proof {
            assert(self.remaining() =~= old(self).remaining().drop_first());
        }
        row
    }
}

impl Sounding {
    /// A cursor over the rows from the surface up; the first row holds the surface values.
    pub fn bottom_up_iter(&self) -> (r: ProfileIterator<'_>)
        ensures
            r.wf(),
            r.remaining() == rows_bottom_up(*self),
    {
        ProfileIterator::new(self, Direction::BottomUp)
    }

    /// A cursor over the rows from the top down; the last row holds the surface values.
    pub fn top_down_iter(&self) -> (r: ProfileIterator<'_>)
        ensures
            r.wf(),
            r.remaining() == rows_top_down(*self),
    {
        ProfileIterator::new(self, Direction::TopDown)
    }
}

} // verus!
