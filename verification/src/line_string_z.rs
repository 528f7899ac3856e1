use vstd::prelude::*;

use crate::coord_z::CoordZ;
use crate::numeric::CoordNum;

verus! {

/// An ordered run of coordinates, possibly empty.
///
/// An empty line string is a valid state of its own, distinct from a closed
/// ring.  Whether a line string forms a ring (first coordinate equal to the
/// last) is a convention, never an enforced invariant of this type.
#[derive(Clone, PartialEq, Debug)]
pub struct LineStringZ<T>(pub Vec<CoordZ<T>>);

impl<T> View for LineStringZ<T> {
    type V = Seq<CoordZ<T>>;

    open spec fn view(&self) -> Seq<CoordZ<T>> {
        self.0@
    }
}

/// Whether a run of coordinates is closed: empty, or ending where it began.
pub open spec fn is_closed_ring<T>(s: Seq<CoordZ<T>>) -> bool {
    s.len() == 0 || s[0] == s[s.len() - 1]
}

/// A run of coordinates with its closure made explicit: unchanged when it is
/// already closed, otherwise with the first coordinate appended.
pub open spec fn closed_ring<T>(s: Seq<CoordZ<T>>) -> Seq<CoordZ<T>> {
    if is_closed_ring(s) {
        s
    } else {
        s.push(s[0])
    }
}

impl<T> LineStringZ<T> {
    /// The line string over the given coordinates, in order.
    pub fn new(coords: Vec<CoordZ<T>>) -> (r: Self)
        ensures
            r@ == coords@,
    {
        LineStringZ(coords)
    }

    /// The empty line string.
    pub fn empty() -> (r: Self)
        ensures
            r@ == Seq::<CoordZ<T>>::empty(),
    {
        LineStringZ(Vec::new())
    }

    /// How many coordinates the line string holds.
    pub fn len(&self) -> (r: usize)
        ensures
            r == self@.len(),
    {
        self.0.len()
    }

    /// Whether the line string holds no coordinate.
    pub fn is_empty(&self) -> (r: bool)
        ensures
            r == (self@.len() == 0),
    {
        self.0.len() == 0
    }
}

impl<T: Copy> LineStringZ<T> {
    /// The coordinate at the given index.
    pub fn get(&self, i: usize) -> (r: CoordZ<T>)
        requires
            i < self@.len(),
        ensures
            r == self@[i as int],
    {
        self.0[i]
    }

    /// An independent copy of this line string.
    pub fn duplicate(&self) -> (r: Self)
        ensures
            r@ == self@,
    {
        let mut out: Vec<CoordZ<T>> = Vec::new();
        let mut i: usize = 0;
        while i < self.0.len()
            invariant
                i <= self.0.len(),
                out@ == self.0@.take(i as int),
            decreases self.0.len() - i,
        {
            out.push(self.0[i]);
            proof {
                assert(out@ =~= self.0@.take(i + 1));
            }
            i = i + 1;
        }
        proof {
            assert(out@ =~= self.0@);
        }
        LineStringZ(out)
    }
}

impl<T: CoordNum> LineStringZ<T> {
    /// Whether the line string is a closed ring: empty, or ending where it
    /// began.
    pub fn is_closed(&self) -> (r: bool)
        ensures
            r == is_closed_ring(self@),
    {
        if self.0.len() == 0 {
            true
        } else {
            self.0[0].eq_coord(&self.0[self.0.len() - 1])
        }
    }

    /// Closes the line string as a ring: appends the first coordinate unless
    /// the line string is empty or already ends where it began.
    pub fn close(&mut self)
        ensures
            final(self)@ == closed_ring(old(self)@),
    {
        if !self.is_closed() {
            let first = self.0[0];
            self.0.push(first);
        }
    }
}

} // verus!
