use vstd::prelude::*;

use crate::coord_z::CoordZ;
use crate::line_string_z::closed_ring;
use crate::line_string_z::LineStringZ;
use crate::numeric::CoordNum;

verus! {

/// A bounded area: an exterior ring and zero or more interior rings (holes).
///
/// An empty exterior with no interiors is the canonical empty polygon.  A
/// polygon may, invalidly, hold interiors under an empty exterior; such a
/// value is preserved as it is by every conversion and never makes one
/// fail.
#[derive(Clone, PartialEq, Debug)]
pub struct PolygonZ<T> {
    pub exterior: LineStringZ<T>,
    pub interiors: Vec<LineStringZ<T>>,
}

/// The mathematical shape of a polygon: its exterior ring and its interior
/// rings, each a sequence of coordinates.
#[verifier::ext_equal]
pub struct PolygonZView<T> {
    pub exterior: Seq<CoordZ<T>>,
    pub interiors: Seq<Seq<CoordZ<T>>>,
}

impl<T> View for PolygonZ<T> {
    type V = PolygonZView<T>;

    open spec fn view(&self) -> PolygonZView<T> {
        PolygonZView {
            exterior: self.exterior@,
            interiors: Seq::new(self.interiors@.len(), |i: int| self.interiors@[i]@),
        }
    }
}

/// The flattened ring order of a polygon: the exterior first, then the
/// interiors in order.
pub open spec fn rings_of<T>(p: PolygonZView<T>) -> Seq<Seq<CoordZ<T>>> {
    seq![p.exterior] + p.interiors
}

/// The polygon made from a flattened ring list: ring 0 is the exterior (or
/// an empty exterior when there is no ring), the rest are the interiors, in
/// order.
pub open spec fn polygon_of_rings<T>(rings: Seq<Seq<CoordZ<T>>>) -> PolygonZView<T> {
    if rings.len() == 0 {
        PolygonZView { exterior: Seq::empty(), interiors: Seq::empty() }
    } else {
        PolygonZView { exterior: rings[0], interiors: rings.drop_first() }
    }
}

impl<T> PolygonZ<T> {
    /// The polygon with an empty exterior and no interiors.
    pub fn empty() -> (r: Self)
        ensures
            r@.exterior == Seq::<CoordZ<T>>::empty(),
            r@.interiors == Seq::<Seq<CoordZ<T>>>::empty(),
    {
        let r = PolygonZ { exterior: LineStringZ::empty(), interiors: Vec::new() };
        proof {
            assert(r@.interiors =~= Seq::<Seq<CoordZ<T>>>::empty());
        }
        r
    }

    /// The polygon over the given rings exactly as written: ring 0 of the
    /// list becomes the exterior (an empty exterior when the list is
    /// empty), the remaining rings become the interiors in order.  No ring
    /// is closed on the way in.
    pub fn from_rings(rings: Vec<LineStringZ<T>>) -> (r: Self)
        ensures
            r@ == polygon_of_rings(Seq::new(rings@.len(), |i: int| rings@[i]@)),
    {
        let ghost all = Seq::new(rings@.len(), |i: int| rings@[i]@);
        let mut rings = rings;
        if rings.len() == 0 {
            let r = PolygonZ { exterior: LineStringZ::empty(), interiors: rings };
            proof {
                assert(r@ =~= polygon_of_rings(all));
            }
            r
        } else {
            let rest = rings.split_off(1);
            let exterior = rings.pop().unwrap();
            let r = PolygonZ { exterior, interiors: rest };
            proof {
                assert(r@.exterior == all[0]);
                assert(r@.interiors =~= all.drop_first());
                assert(r@ =~= polygon_of_rings(all));
            }
            r
        }
    }

    /// The exterior ring.
    pub fn exterior(&self) -> (r: &LineStringZ<T>)
        ensures
            r@ == self@.exterior,
    {
        &self.exterior
    }

    /// The interior rings, in order.
    pub fn interiors(&self) -> (r: &Vec<LineStringZ<T>>)
        ensures
            r@.len() == self@.interiors.len(),
            forall|i: int| 0 <= i < r@.len() ==> r@[i]@ == self@.interiors[i],
    {
        &self.interiors
    }
}

impl<T: Copy> PolygonZ<T> {
    /// The polygon flattened to its ring list: the exterior first, then the
    /// interiors in order.
    pub fn rings(&self) -> (r: Vec<LineStringZ<T>>)
        ensures
            Seq::new(r@.len(), |i: int| r@[i]@) == rings_of(self@),
    {
        let mut out: Vec<LineStringZ<T>> = Vec::new();
        out.push(self.exterior.duplicate());
        let mut i: usize = 0;
        while i < self.interiors.len()
            invariant
                i <= self.interiors.len(),
                out@.len() == i + 1,
                out@[0]@ == self@.exterior,
                forall|j: int| 0 <= j < i ==> out@[j + 1]@ == self@.interiors[j],
            decreases self.interiors.len() - i,
        {
            out.push(self.interiors[i].duplicate());
            i = i + 1;
        }
        proof {
            assert(Seq::new(out@.len(), |i: int| out@[i]@) =~= rings_of(self@));
        }
        out
    }

    /// An independent copy of this polygon.
    pub fn duplicate(&self) -> (r: Self)
        ensures
            r@ == self@,
    {
        let exterior = self.exterior.duplicate();
        let mut interiors: Vec<LineStringZ<T>> = Vec::new();
        let mut i: usize = 0;
        while i < self.interiors.len()
            invariant
                i <= self.interiors.len(),
                interiors@.len() == i,
                forall|j: int| 0 <= j < i ==> interiors@[j]@ == self@.interiors[j],
            decreases self.interiors.len() - i,
        {
            interiors.push(self.interiors[i].duplicate());
            i = i + 1;
        }
        let r = PolygonZ { exterior, interiors };
        proof {
            assert(r@ =~= self@);
        }
        r
    }
}

impl<T: CoordNum> PolygonZ<T> {
    /// The polygon with the given exterior and interiors, each ring closed
    /// on the way in: a ring that does not already end where it begins gets
    /// its first coordinate appended.
    pub fn new(exterior: LineStringZ<T>, interiors: Vec<LineStringZ<T>>) -> (r: Self)
        ensures
            r@.exterior == closed_ring(exterior@),
            r@.interiors.len() == interiors@.len(),
            forall|i: int| 0 <= i < interiors@.len() ==> r@.interiors[i] == closed_ring(
                interiors@[i]@,
            ),
    {
        let mut exterior = exterior;
        exterior.close();
        let mut closed: Vec<LineStringZ<T>> = Vec::new();
        let mut i: usize = 0;
        while i < interiors.len()
            invariant
                i <= interiors@.len(),
                closed@.len() == i,
                forall|j: int| 0 <= j < i ==> closed@[j]@ == closed_ring(interiors@[j]@),
            decreases interiors@.len() - i,
        {
            let mut ring = interiors[i].duplicate();
            ring.close();
            closed.push(ring);
            i = i + 1;
        }
        PolygonZ { exterior, interiors: closed }
    }
}

/// Law: flattening a polygon to `[exterior, interiors...]` and rebuilding
/// from that list, taking ring 0 as the exterior and the rest as the
/// interiors, reproduces the polygon exactly, exterior and interior list
/// alike.
pub proof fn lemma_ring_flatten_unflatten<T>(p: PolygonZView<T>)
    ensures
        polygon_of_rings(rings_of(p)) == p,
{
    assert(polygon_of_rings(rings_of(p)).interiors =~= p.interiors);
    assert(polygon_of_rings(rings_of(p)) =~= p);
}

} // verus!
