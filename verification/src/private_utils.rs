use vstd::prelude::*;

use crate::coord_z::CoordZ;
use crate::line_string_z::LineStringZ;
use crate::line_z::LineZ;
use crate::numeric::CoordNum;

verus! {

/// An axis-aligned three-axis box, held as its two corner coordinates.
#[derive(Clone, Copy, PartialEq, Debug)]
pub struct Cube<T> {
    pub min: CoordZ<T>,
    pub max: CoordZ<T>,
}

/// A range extended by one more value: the value replaces the upper end
/// when it lies above it, the lower end when it lies below it, and
/// neither otherwise.
pub open spec fn min_max_spec<T: CoordNum>(p: T, lo: T, hi: T) -> (T, T) {
    if hi.lt_spec(p) {
        (lo, p)
    } else if p.lt_spec(lo) {
        (p, hi)
    } else {
        (lo, hi)
    }
}

/// Extends a range by one more value.
pub fn get_min_max<T: CoordNum>(p: T, min: T, max: T) -> (r: (T, T))
    ensures
        r == min_max_spec(p, min, max),
{
    if max.lt(p) {
        (min, p)
    } else if p.lt(min) {
        (p, max)
    } else {
        (min, max)
    }
}

/// A box extended to cover one more coordinate, axis by axis.
pub open spec fn cube_extend_spec<T: CoordNum>(c: Cube<T>, p: CoordZ<T>) -> Cube<T> {
    Cube {
        min: CoordZ {
            x: min_max_spec(p.x, c.min.x, c.max.x).0,
            y: min_max_spec(p.y, c.min.y, c.max.y).0,
            z: min_max_spec(p.z, c.min.z, c.max.z).0,
        },
        max: CoordZ {
            x: min_max_spec(p.x, c.min.x, c.max.x).1,
            y: min_max_spec(p.y, c.min.y, c.max.y).1,
            z: min_max_spec(p.z, c.min.z, c.max.z).1,
        },
    }
}

/// The bounding box of a non-empty coordinate run: the degenerate box on
/// the first coordinate, extended by each following coordinate in turn.
pub open spec fn bounding_cube_spec<T: CoordNum>(s: Seq<CoordZ<T>>) -> Cube<T>
    recommends
        s.len() > 0,
    decreases s.len(),
{
    if s.len() <= 1 {
        Cube { min: s[0], max: s[0] }
    } else {
        cube_extend_spec(bounding_cube_spec(s.drop_last()), s.last())
    }
}

/// The bounding box of a coordinate run; nothing when the run is empty.
pub fn get_bounding_rect<T: CoordNum>(collection: &Vec<CoordZ<T>>) -> (r: Option<Cube<T>>)
    ensures
        match r {
            Some(c) => collection@.len() > 0 && c == bounding_cube_spec(collection@),
            None => collection@.len() == 0,
        },
{
    if collection.len() == 0 {
        return None;
    }
    let first = collection[0];
    let mut cube = Cube { min: first, max: first };
    let mut i: usize = 1;
    proof {
        assert(collection@.take(1) =~= seq![collection@[0]]);
    }
    while i < collection.len()
        invariant
            1 <= i <= collection@.len(),
            cube == bounding_cube_spec(collection@.take(i as int)),
        decreases collection@.len() - i,
    {
        let p = collection[i];
        let (min_x, max_x) = get_min_max(p.x, cube.min.x, cube.max.x);
        let (min_y, max_y) = get_min_max(p.y, cube.min.y, cube.max.y);
        let (min_z, max_z) = get_min_max(p.z, cube.min.z, cube.max.z);
        cube = Cube {
            min: CoordZ { x: min_x, y: min_y, z: min_z },
            max: CoordZ { x: max_x, y: max_y, z: max_z },
        };
        proof {
            assert(collection@.take(i as int + 1).drop_last() =~= collection@.take(i as int));
            assert(collection@.take(i as int + 1).last() == collection@[i as int]);
        }
        i = i + 1;
    }
    proof {
        assert(collection@.take(collection@.len() as int) =~= collection@);
    }
    Some(cube)
}

/// The bounding box of a line string; nothing when it is empty.
pub fn line_string_bounding_rect<T: CoordNum>(line_string: &LineStringZ<T>) -> (r: Option<
    Cube<T>,
>)
    ensures
        match r {
            Some(c) => line_string@.len() > 0 && c == bounding_cube_spec(line_string@),
            None => line_string@.len() == 0,
        },
{
    get_bounding_rect(&line_string.0)
}

/// The bounding box of a line segment: the box over its two endpoints.
pub fn line_bounding_rect<T: CoordNum>(line: LineZ<T>) -> (r: Cube<T>)
    ensures
        r == bounding_cube_spec(seq![line.start, line.end]),
{
    let base = Cube { min: line.start, max: line.start };
    let (min_x, max_x) = get_min_max(line.end.x, base.min.x, base.max.x);
    let (min_y, max_y) = get_min_max(line.end.y, base.min.y, base.max.y);
    let (min_z, max_z) = get_min_max(line.end.z, base.min.z, base.max.z);
    let r = Cube {
        min: CoordZ { x: min_x, y: min_y, z: min_z },
        max: CoordZ { x: max_x, y: max_y, z: max_z },
    };
    proof {
        let s = seq![line.start, line.end];
        assert(s.drop_last() =~= seq![line.start]);
        assert(r == cube_extend_spec(bounding_cube_spec(s.drop_last()), line.end));
    }
    r
}

} // verus!
