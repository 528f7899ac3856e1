use vstd::prelude::*;
use vstd::string::StringExecFns;

use crate::coord_z::CoordZ;
use crate::geometry::Geometry;
use crate::geometry::GeometryCollection;
use crate::geometry::geometry_seq_view;
use crate::geometry::lemma_geometry_seq_view;
use crate::geometry::GeometryView;
use crate::line_string_z::LineStringZ;
use crate::line_z::LineZ;
use crate::multi::MultiLineStringZ;
use crate::multi::MultiPointZ;
use crate::multi::MultiPolygonZ;
use crate::point_z::PointZ;
use crate::polygon_z::rings_of;
use crate::polygon_z::PolygonZ;
use crate::polygon_z::PolygonZView;
use crate::two_d::Coord;
use crate::two_d::PolygonView;

verus! {

/// The decimal digit character for a value between 0 and 9.
pub open spec fn dec_digit(d: int) -> char {
    if d == 0 {
        '0'
    } else if d == 1 {
        '1'
    } else if d == 2 {
        '2'
    } else if d == 3 {
        '3'
    } else if d == 4 {
        '4'
    } else if d == 5 {
        '5'
    } else if d == 6 {
        '6'
    } else if d == 7 {
        '7'
    } else if d == 8 {
        '8'
    } else {
        '9'
    }
}

/// The decimal digits of a non-negative number, most significant first.
pub open spec fn dec_nat(n: int) -> Seq<char>
    recommends
        n >= 0,
    decreases n,
{
    if n < 10 {
        seq![dec_digit(n)]
    } else {
        dec_nat(n / 10).push(dec_digit(n % 10))
    }
}

/// The decimal text of an integer: a minus sign for a negative value,
/// then the digits of its magnitude.
pub open spec fn dec_int(n: int) -> Seq<char> {
    if n < 0 {
        seq!['-'] + dec_nat(-n)
    } else {
        dec_nat(n)
    }
}

/// Appends one decimal digit.
fn push_digit(out: &mut String, d: u64)
    requires
        d < 10,
    ensures
        final(out)@ == old(out)@ + seq![dec_digit(d as int)],
{
    proof {
        reveal_strlit("0");
        reveal_strlit("1");
        reveal_strlit("2");
        reveal_strlit("3");
        reveal_strlit("4");
        reveal_strlit("5");
        reveal_strlit("6");
        reveal_strlit("7");
        reveal_strlit("8");
        reveal_strlit("9");
    }
    if d == 0 {
        out.append("0");
    } else if d == 1 {
        out.append("1");
    } else if d == 2 {
        out.append("2");
    } else if d == 3 {
        out.append("3");
    } else if d == 4 {
        out.append("4");
    } else if d == 5 {
        out.append("5");
    } else if d == 6 {
        out.append("6");
    } else if d == 7 {
        out.append("7");
    } else if d == 8 {
        out.append("8");
    } else {
        out.append("9");
    }
    proof {
        assert(out@ =~= old(out)@ + seq![dec_digit(d as int)]);
    }
}

/// Appends the decimal digits of a non-negative number.
fn push_u64(out: &mut String, n: u64)
    ensures
        final(out)@ == old(out)@ + dec_nat(n as int),
    decreases n,
{
    if n < 10 {
        push_digit(out, n);
    } else {
        push_u64(out, n / 10);
        push_digit(out, n % 10);
        proof {
            assert(out@ =~= old(out)@ + dec_nat(n as int));
        }
    }
}

/// Appends the decimal text of an integer.
pub fn push_i64(out: &mut String, n: i64)
    ensures
        final(out)@ == old(out)@ + dec_int(n as int),
{
    if n < 0 {
        proof {
            reveal_strlit("-");
        }
        out.append("-");
        let m: u64 = ((-(n + 1)) as u64) + 1;
        proof {
            assert(m as int == -(n as int));
        }
        push_u64(out, m);
        proof {
            assert(out@ =~= old(out)@ + dec_int(n as int));
        }
    } else {
        push_u64(out, n as u64);
    }
}

/// The text of a coordinate: its three components, space-separated.
pub open spec fn coord_z_text(c: CoordZ<i64>) -> Seq<char> {
    dec_int(c.x as int) + seq![' '] + dec_int(c.y as int) + seq![' '] + dec_int(c.z as int)
}

/// Appends the text of a coordinate.
pub fn push_coord_z(out: &mut String, c: CoordZ<i64>)
    ensures
        final(out)@ == old(out)@ + coord_z_text(c),
{
    proof {
        reveal_strlit(" ");
    }
    push_i64(out, c.x);
    out.append(" ");
    push_i64(out, c.y);
    out.append(" ");
    push_i64(out, c.z);
    proof {
        assert(out@ =~= old(out)@ + coord_z_text(c));
    }
}


/// The text of a two-axis coordinate: its two components,
/// space-separated.
pub open spec fn coord_text(c: Coord<i64>) -> Seq<char> {
    dec_int(c.x as int) + seq![' '] + dec_int(c.y as int)
}

/// Appends the text of a two-axis coordinate.
pub fn push_coord(out: &mut String, c: Coord<i64>)
    ensures
        final(out)@ == old(out)@ + coord_text(c),
{
    proof {
        reveal_strlit(" ");
    }
    push_i64(out, c.x);
    out.append(" ");
    push_i64(out, c.y);
    proof {
        assert(out@ =~= old(out)@ + coord_text(c));
    }
}

/// The comma-separated texts of a non-empty coordinate run.
pub open spec fn coord_seq_inner(s: Seq<CoordZ<i64>>) -> Seq<char>
    recommends
        s.len() > 0,
    decreases s.len(),
{
    if s.len() <= 1 {
        coord_z_text(s[0])
    } else {
        coord_seq_inner(s.drop_last()) + seq![','] + coord_z_text(s.last())
    }
}

/// The text of a coordinate run: `EMPTY` for none, else the coordinates
/// comma-separated inside parentheses.
pub open spec fn coord_seq_text(s: Seq<CoordZ<i64>>) -> Seq<char> {
    if s.len() == 0 {
        "EMPTY"@
    } else {
        seq!['('] + coord_seq_inner(s) + seq![')']
    }
}

/// The comma-separated texts of a non-empty two-axis coordinate run.
pub open spec fn coord_seq_inner_2d(s: Seq<Coord<i64>>) -> Seq<char>
    recommends
        s.len() > 0,
    decreases s.len(),
{
    if s.len() <= 1 {
        coord_text(s[0])
    } else {
        coord_seq_inner_2d(s.drop_last()) + seq![','] + coord_text(s.last())
    }
}

/// The text of a two-axis coordinate run.
pub open spec fn coord_seq_text_2d(s: Seq<Coord<i64>>) -> Seq<char> {
    if s.len() == 0 {
        "EMPTY"@
    } else {
        seq!['('] + coord_seq_inner_2d(s) + seq![')']
    }
}

/// Appends the text of a coordinate run.
pub fn write_coord_seq(out: &mut String, coords: &Vec<CoordZ<i64>>)
    ensures
        final(out)@ == old(out)@ + coord_seq_text(coords@),
{
    if coords.len() == 0 {
        out.append("EMPTY");
        return ;
    }
    proof {
        reveal_strlit("(");
        reveal_strlit(")");
        reveal_strlit(",");
    }
    out.append("(");
    push_coord_z(out, coords[0]);
    proof {
        assert(coords@.take(1) =~= seq![coords@[0]]);
        assert(out@ =~= old(out)@ + seq!['('] + coord_seq_inner(coords@.take(1)));
    }
    let mut i: usize = 1;
    while i < coords.len()
        invariant
            1 <= i <= coords@.len(),
            out@ == old(out)@ + seq!['('] + coord_seq_inner(coords@.take(i as int)),
        decreases coords@.len() - i,
    {
        out.append(",");
        push_coord_z(out, coords[i]);
        proof {
            reveal_strlit("(");
            reveal_strlit(",");
            assert(coords@.take(i as int + 1).drop_last() =~= coords@.take(i as int));
            assert(coords@.take(i as int + 1).last() == coords@[i as int]);
            assert(out@ =~= old(out)@ + seq!['('] + coord_seq_inner(coords@.take(i as int + 1)));
        }
        i = i + 1;
    }
    proof {
        assert(coords@.take(coords@.len() as int) =~= coords@);
    }
    out.append(")");
    proof {
        assert(out@ =~= old(out)@ + coord_seq_text(coords@));
    }
}

/// Appends the text of a two-axis coordinate run.
pub fn write_coord_seq_2d(out: &mut String, coords: &Vec<Coord<i64>>)
    ensures
        final(out)@ == old(out)@ + coord_seq_text_2d(coords@),
{
    if coords.len() == 0 {
        out.append("EMPTY");
        return ;
    }
    proof {
        reveal_strlit("(");
        reveal_strlit(")");
        reveal_strlit(",");
    }
    out.append("(");
    push_coord(out, coords[0]);
    proof {
        assert(coords@.take(1) =~= seq![coords@[0]]);
        assert(out@ =~= old(out)@ + seq!['('] + coord_seq_inner_2d(coords@.take(1)));
    }
    let mut i: usize = 1;
    while i < coords.len()
        invariant
            1 <= i <= coords@.len(),
            out@ == old(out)@ + seq!['('] + coord_seq_inner_2d(coords@.take(i as int)),
        decreases coords@.len() - i,
    {
        out.append(",");
        push_coord(out, coords[i]);
        proof {
            reveal_strlit("(");
            reveal_strlit(",");
            assert(coords@.take(i as int + 1).drop_last() =~= coords@.take(i as int));
            assert(coords@.take(i as int + 1).last() == coords@[i as int]);
            assert(out@ =~= old(out)@ + seq!['('] + coord_seq_inner_2d(
                coords@.take(i as int + 1),
            ));
        }
        i = i + 1;
    }
    proof {
        assert(coords@.take(coords@.len() as int) =~= coords@);
    }
    out.append(")");
    proof {
        assert(out@ =~= old(out)@ + coord_seq_text_2d(coords@));
    }
}

/// The comma-separated ring texts of a non-empty ring run.
pub open spec fn ring_join(s: Seq<Seq<CoordZ<i64>>>) -> Seq<char>
    recommends
        s.len() > 0,
    decreases s.len(),
{
    if s.len() <= 1 {
        coord_seq_text(s[0])
    } else {
        ring_join(s.drop_last()) + seq![','] + coord_seq_text(s.last())
    }
}

/// The comma-separated ring texts of a non-empty two-axis ring run.
pub open spec fn ring_join_2d(s: Seq<Seq<Coord<i64>>>) -> Seq<char>
    recommends
        s.len() > 0,
    decreases s.len(),
{
    if s.len() <= 1 {
        coord_seq_text_2d(s[0])
    } else {
        ring_join_2d(s.drop_last()) + seq![','] + coord_seq_text_2d(s.last())
    }
}

/// The inner text of a polygon: `EMPTY` when it has no exterior and no
/// interiors, else its ring list — exterior first — comma-separated
/// inside parentheses.  A polygon that invalidly holds interiors under an
/// empty exterior renders with `EMPTY` in the exterior slot rather than
/// failing.
pub open spec fn polygon_inner_text(p: PolygonZView<i64>) -> Seq<char> {
    if p.exterior.len() == 0 && p.interiors.len() == 0 {
        "EMPTY"@
    } else {
        seq!['('] + ring_join(rings_of(p)) + seq![')']
    }
}

/// The inner text of a two-axis polygon.
pub open spec fn polygon_inner_text_2d(p: PolygonView<i64>) -> Seq<char> {
    if p.exterior.len() == 0 && p.interiors.len() == 0 {
        "EMPTY"@
    } else {
        seq!['('] + ring_join_2d(seq![p.exterior] + p.interiors) + seq![')']
    }
}

/// Appends the inner text of a polygon.
pub fn write_polygon_inner(out: &mut String, polygon: &PolygonZ<i64>)
    ensures
        final(out)@ == old(out)@ + polygon_inner_text(polygon@),
{
    if polygon.exterior.0.len() == 0 && polygon.interiors.len() == 0 {
        out.append("EMPTY");
        proof {
            assert(polygon@.interiors.len() == 0);
        }
        return ;
    }
    proof {
        reveal_strlit("(");
        reveal_strlit(")");
        reveal_strlit(",");
    }
    let ghost rings = rings_of(polygon@);
    out.append("(");
    write_coord_seq(out, &polygon.exterior.0);
    proof {
        assert(rings.take(1) =~= seq![polygon@.exterior]);
        assert(out@ =~= old(out)@ + seq!['('] + ring_join(rings.take(1)));
    }
    let mut i: usize = 0;
    while i < polygon.interiors.len()
        invariant
            i <= polygon.interiors@.len(),
            rings == rings_of(polygon@),
            rings.len() == 1 + polygon.interiors@.len(),
            polygon@.interiors.len() == polygon.interiors@.len(),
            forall|j: int|
                0 <= j < polygon.interiors@.len() ==> rings[j + 1] == polygon.interiors@[j]@,
            out@ == old(out)@ + seq!['('] + ring_join(rings.take(i as int + 1)),
        decreases polygon.interiors@.len() - i,
    {
        out.append(",");
        write_coord_seq(out, &polygon.interiors[i].0);
        proof {
            reveal_strlit("(");
            reveal_strlit(",");
            assert(rings.take(i as int + 2).drop_last() =~= rings.take(i as int + 1));
            assert(rings.take(i as int + 2).last() == rings[i as int + 1]);
            assert(out@ =~= old(out)@ + seq!['('] + ring_join(rings.take(i as int + 2)));
        }
        i = i + 1;
    }
    proof {
        assert(rings.take(rings.len() as int) =~= rings);
    }
    out.append(")");
    proof {
        assert(out@ =~= old(out)@ + polygon_inner_text(polygon@));
    }
}

/// The text of a point.
pub open spec fn point_z_text(p: PointZ<i64>) -> Seq<char> {
    "POINT Z"@ + coord_seq_text(seq![p.0])
}

/// The text of a line segment.
pub open spec fn line_z_text(l: LineZ<i64>) -> Seq<char> {
    "LINE Z"@ + coord_seq_text(seq![l.start, l.end])
}

/// The text of a line string.
pub open spec fn line_string_z_text(s: Seq<CoordZ<i64>>) -> Seq<char> {
    if s.len() == 0 {
        "LINESTRING Z EMPTY"@
    } else {
        "LINESTRING Z"@ + coord_seq_text(s)
    }
}

/// The text of a polygon.
pub open spec fn polygon_z_text(p: PolygonZView<i64>) -> Seq<char> {
    if p.exterior.len() == 0 && p.interiors.len() == 0 {
        "POLYGON Z EMPTY"@
    } else {
        "POLYGON Z"@ + polygon_inner_text(p)
    }
}

/// The text of a multi-point.
pub open spec fn multi_point_z_text(s: Seq<PointZ<i64>>) -> Seq<char> {
    if s.len() == 0 {
        "MULTIPOINT Z EMPTY"@
    } else {
        "MULTIPOINT Z"@ + coord_seq_text(Seq::new(s.len(), |i: int| s[i].0))
    }
}

/// The text of a multi-line-string.
pub open spec fn multi_line_string_z_text(s: Seq<Seq<CoordZ<i64>>>) -> Seq<char> {
    if s.len() == 0 {
        "MULTILINESTRING Z EMPTY"@
    } else {
        "MULTILINESTRING Z"@ + seq!['('] + ring_join(s) + seq![')']
    }
}

/// The comma-separated polygon texts of a non-empty polygon run.
pub open spec fn polygon_join(s: Seq<PolygonZView<i64>>) -> Seq<char>
    recommends
        s.len() > 0,
    decreases s.len(),
{
    if s.len() <= 1 {
        polygon_inner_text(s[0])
    } else {
        polygon_join(s.drop_last()) + seq![','] + polygon_inner_text(s.last())
    }
}

/// The text of a multi-polygon.
pub open spec fn multi_polygon_z_text(s: Seq<PolygonZView<i64>>) -> Seq<char> {
    if s.len() == 0 {
        "MULTIPOLYGON Z EMPTY"@
    } else {
        "MULTIPOLYGON Z"@ + seq!['('] + polygon_join(s) + seq![')']
    }
}

/// The text of any geometry, dispatching on its variant.  The legacy
/// two-axis variants render without the third-axis marker.
pub open spec fn geometry_text(g: GeometryView<i64>) -> Seq<char>
    decreases g,
{
    match g {
        GeometryView::Point(p) => "POINT"@ + coord_seq_text_2d(seq![p.0]),
        GeometryView::PointZ(p) => point_z_text(p),
        GeometryView::Line(l) => "LINE"@ + coord_seq_text_2d(seq![l.start, l.end]),
        GeometryView::LineZ(l) => line_z_text(l),
        GeometryView::LineString(s) => if s.len() == 0 {
            "LINESTRING EMPTY"@
        } else {
            "LINESTRING"@ + coord_seq_text_2d(s)
        },
        GeometryView::LineStringZ(s) => line_string_z_text(s),
        GeometryView::Polygon(p) => if p.exterior.len() == 0 && p.interiors.len() == 0 {
            "POLYGON EMPTY"@
        } else {
            "POLYGON"@ + polygon_inner_text_2d(p)
        },
        GeometryView::PolygonZ(p) => polygon_z_text(p),
        GeometryView::MultiPoint(s) => if s.len() == 0 {
            "MULTIPOINT EMPTY"@
        } else {
            "MULTIPOINT"@ + coord_seq_text_2d(Seq::new(s.len(), |i: int| s[i].0))
        },
        GeometryView::MultiPointZ(s) => multi_point_z_text(s),
        GeometryView::MultiLineString(s) => if s.len() == 0 {
            "MULTILINESTRING EMPTY"@
        } else {
            "MULTILINESTRING"@ + seq!['('] + ring_join_2d(s) + seq![')']
        },
        GeometryView::MultiLineStringZ(s) => multi_line_string_z_text(s),
        GeometryView::MultiPolygon(s) => if s.len() == 0 {
            "MULTIPOLYGON EMPTY"@
        } else {
            "MULTIPOLYGON"@ + seq!['('] + polygon_join_2d(s) + seq![')']
        },
        GeometryView::MultiPolygonZ(s) => multi_polygon_z_text(s),
        GeometryView::GeometryCollection(s) => if s.len() == 0 {
            "GEOMETRYCOLLECTION EMPTY"@
        } else {
            "GEOMETRYCOLLECTION"@ + seq!['('] + geometry_join(s) + seq![')']
        },
        GeometryView::Rect(r) => "RECT"@ + coord_seq_text_2d(seq![r.min, r.max]),
    }
}

/// The comma-separated texts of a non-empty two-axis polygon run.
pub open spec fn polygon_join_2d(s: Seq<PolygonView<i64>>) -> Seq<char>
    recommends
        s.len() > 0,
    decreases s.len(),
{
    if s.len() <= 1 {
        polygon_inner_text_2d(s[0])
    } else {
        polygon_join_2d(s.drop_last()) + seq![','] + polygon_inner_text_2d(s.last())
    }
}

/// The comma-separated texts of a non-empty geometry run.
pub open spec fn geometry_join(s: Seq<GeometryView<i64>>) -> Seq<char>
    recommends
        s.len() > 0,
    decreases s,
{
    if s.len() == 0 {
        Seq::empty()
    } else if s.len() == 1 {
        geometry_text(s[0])
    } else {
        geometry_join(s.drop_last()) + seq![','] + geometry_text(s.last())
    }
}

/// The text of a geometry collection.
pub open spec fn geometry_collection_text(s: Seq<GeometryView<i64>>) -> Seq<char> {
    if s.len() == 0 {
        "GEOMETRYCOLLECTION EMPTY"@
    } else {
        "GEOMETRYCOLLECTION"@ + seq!['('] + geometry_join(s) + seq![')']
    }
}

impl CoordZ<i64> {
    /// The display text of this coordinate.
    pub fn wkt_string(&self) -> (r: String)
        ensures
            r@ == "COORD Z"@ + coord_seq_text(seq![*self]),
    {
        let mut out = String::new();
        out.append("COORD Z");
        let mut v: Vec<CoordZ<i64>> = Vec::new();
        v.push(*self);
        write_coord_seq(&mut out, &v);
        proof {
            assert(v@ =~= seq![*self]);
            assert(out@ =~= "COORD Z"@ + coord_seq_text(seq![*self]));
        }
        out
    }
}

impl PointZ<i64> {
    /// The display text of this point.
    pub fn wkt_string(&self) -> (r: String)
        ensures
            r@ == point_z_text(*self),
    {
        let mut out = String::new();
        out.append("POINT Z");
        let mut v: Vec<CoordZ<i64>> = Vec::new();
        v.push(self.0);
        write_coord_seq(&mut out, &v);
        proof {
            assert(v@ =~= seq![self.0]);
            assert(out@ =~= point_z_text(*self));
        }
        out
    }
}

impl LineZ<i64> {
    /// The display text of this line segment.
    pub fn wkt_string(&self) -> (r: String)
        ensures
            r@ == line_z_text(*self),
    {
        let mut out = String::new();
        out.append("LINE Z");
        let mut v: Vec<CoordZ<i64>> = Vec::new();
        v.push(self.start);
        v.push(self.end);
        write_coord_seq(&mut out, &v);
        proof {
            assert(v@ =~= seq![self.start, self.end]);
            assert(out@ =~= line_z_text(*self));
        }
        out
    }
}

impl LineStringZ<i64> {
    /// The display text of this line string.
    pub fn wkt_string(&self) -> (r: String)
        ensures
            r@ == line_string_z_text(self@),
    {
        let mut out = String::new();
        if self.0.len() == 0 {
            out.append("LINESTRING Z EMPTY");
            proof {
                assert(out@ =~= line_string_z_text(self@));
            }
            out
        } else {
            out.append("LINESTRING Z");
            write_coord_seq(&mut out, &self.0);
            proof {
                assert(out@ =~= line_string_z_text(self@));
            }
            out
        }
    }
}

impl PolygonZ<i64> {
    /// The display text of this polygon.
    pub fn wkt_string(&self) -> (r: String)
        ensures
            r@ == polygon_z_text(self@),
    {
        let mut out = String::new();
        if self.exterior.0.len() == 0 && self.interiors.len() == 0 {
            out.append("POLYGON Z EMPTY");
            proof {
                assert(self@.interiors.len() == 0);
                assert(out@ =~= polygon_z_text(self@));
            }
            out
        } else {
            out.append("POLYGON Z");
            write_polygon_inner(&mut out, self);
            proof {
                assert(self@.interiors.len() == self.interiors@.len());
                assert(out@ =~= polygon_z_text(self@));
            }
            out
        }
    }
}

impl MultiPointZ<i64> {
    /// The display text of this multi-point.
    pub fn wkt_string(&self) -> (r: String)
        ensures
            r@ == multi_point_z_text(self@),
    {
        let mut out = String::new();
        if self.0.len() == 0 {
            out.append("MULTIPOINT Z EMPTY");
            proof {
                assert(out@ =~= multi_point_z_text(self@));
            }
            out
        } else {
            out.append("MULTIPOINT Z");
            let mut coords: Vec<CoordZ<i64>> = Vec::new();
            let mut i: usize = 0;
            while i < self.0.len()
                invariant
                    i <= self.0@.len(),
                    coords@.len() == i,
                    forall|j: int| 0 <= j < i ==> coords@[j] == self.0@[j].0,
                decreases self.0@.len() - i,
            {
                coords.push(self.0[i].0);
                i = i + 1;
            }
            write_coord_seq(&mut out, &coords);
            proof {
                assert(coords@ =~= Seq::new(self@.len(), |i: int| self@[i].0));
                assert(out@ =~= multi_point_z_text(self@));
            }
            out
        }
    }
}

impl MultiLineStringZ<i64> {
    /// The display text of this multi-line-string.
    pub fn wkt_string(&self) -> (r: String)
        ensures
            r@ == multi_line_string_z_text(self@),
    {
        let mut out = String::new();
        if self.0.len() == 0 {
            out.append("MULTILINESTRING Z EMPTY");
            proof {
                assert(self@.len() == 0);
                assert(out@ =~= multi_line_string_z_text(self@));
            }
            out
        } else {
            proof {
                reveal_strlit("(");
                reveal_strlit(")");
                reveal_strlit(",");
            }
            out.append("MULTILINESTRING Z");
            out.append("(");
            let ghost pre = out@;
            write_coord_seq(&mut out, &self.0[0].0);
            proof {
                assert(self@.take(1) =~= seq![self@[0]]);
                assert(out@ =~= pre + ring_join(self@.take(1)));
            }
            let mut i: usize = 1;
            while i < self.0.len()
                invariant
                    1 <= i <= self.0@.len(),
                    self@.len() == self.0@.len(),
                    forall|j: int| 0 <= j < self.0@.len() ==> self@[j] == self.0@[j]@,
                    pre == "MULTILINESTRING Z"@ + seq!['('],
                    out@ == pre + ring_join(self@.take(i as int)),
                decreases self.0@.len() - i,
            {
                out.append(",");
                write_coord_seq(&mut out, &self.0[i].0);
                proof {
                    reveal_strlit("(");
                    reveal_strlit(",");
                    assert(self@.take(i as int + 1).drop_last() =~= self@.take(i as int));
                    assert(self@.take(i as int + 1).last() == self@[i as int]);
                    assert(out@ =~= pre + ring_join(self@.take(i as int + 1)));
                }
                i = i + 1;
            }
            proof {
                assert(self@.take(self@.len() as int) =~= self@);
            }
            out.append(")");
            proof {
                assert(out@ =~= multi_line_string_z_text(self@));
            }
            out
        }
    }
}

impl MultiPolygonZ<i64> {
    /// The display text of this multi-polygon.
    pub fn wkt_string(&self) -> (r: String)
        ensures
            r@ == multi_polygon_z_text(self@),
    {
        let mut out = String::new();
        if self.0.len() == 0 {
            out.append("MULTIPOLYGON Z EMPTY");
            proof {
                assert(self@.len() == 0);
                assert(out@ =~= multi_polygon_z_text(self@));
            }
            out
        } else {
            proof {
                reveal_strlit("(");
                reveal_strlit(")");
                reveal_strlit(",");
            }
            out.append("MULTIPOLYGON Z");
            out.append("(");
            let ghost pre = out@;
            write_polygon_inner(&mut out, &self.0[0]);
            proof {
                assert(self@.take(1) =~= seq![self@[0]]);
                assert(out@ =~= pre + polygon_join(self@.take(1)));
            }
            let mut i: usize = 1;
            while i < self.0.len()
                invariant
                    1 <= i <= self.0@.len(),
                    self@.len() == self.0@.len(),
                    forall|j: int| 0 <= j < self.0@.len() ==> self@[j] == self.0@[j]@,
                    pre == "MULTIPOLYGON Z"@ + seq!['('],
                    out@ == pre + polygon_join(self@.take(i as int)),
                decreases self.0@.len() - i,
            {
                out.append(",");
                write_polygon_inner(&mut out, &self.0[i]);
                proof {
                    reveal_strlit("(");
                    reveal_strlit(",");
                    assert(self@.take(i as int + 1).drop_last() =~= self@.take(i as int));
                    assert(self@.take(i as int + 1).last() == self@[i as int]);
                    assert(out@ =~= pre + polygon_join(self@.take(i as int + 1)));
                }
                i = i + 1;
            }
            proof {
                assert(self@.take(self@.len() as int) =~= self@);
            }
            out.append(")");
            proof {
                assert(out@ =~= multi_polygon_z_text(self@));
            }
            out
        }
    }
}

impl Geometry<i64> {
    /// The display text of this geometry.
    #[verifier::loop_isolation(false)]
    #[verifier::rlimit(80)]
    pub fn wkt_string(&self) -> (r: String)
        ensures
            r@ == geometry_text(self@),
        decreases self,
    {
        match self {
            Geometry::Point(p) => {
                let mut out = String::new();
                out.append("POINT");
                let mut v: Vec<Coord<i64>> = Vec::new();
                v.push(p.0);
                write_coord_seq_2d(&mut out, &v);
                proof {
                    assert(v@ =~= seq![p.0]);
                    assert(out@ =~= geometry_text(self@));
                }
                out
            },
            Geometry::PointZ(p) => p.wkt_string(),
            Geometry::Line(l) => {
                let mut out = String::new();
                out.append("LINE");
                let mut v: Vec<Coord<i64>> = Vec::new();
                v.push(l.start);
                v.push(l.end);
                write_coord_seq_2d(&mut out, &v);
                proof {
                    assert(v@ =~= seq![l.start, l.end]);
                    assert(out@ =~= geometry_text(self@));
                }
                out
            },
            Geometry::LineZ(l) => l.wkt_string(),
            Geometry::LineString(ls) => {
                let mut out = String::new();
                if ls.0.len() == 0 {
                    out.append("LINESTRING EMPTY");
                } else {
                    out.append("LINESTRING");
                    write_coord_seq_2d(&mut out, &ls.0);
                }
                proof {
                    assert(out@ =~= geometry_text(self@));
                }
                out
            },
            Geometry::LineStringZ(ls) => ls.wkt_string(),
            Geometry::Polygon(p) => {
                let mut out = String::new();
                if p.exterior.0.len() == 0 && p.interiors.len() == 0 {
                    out.append("POLYGON EMPTY");
                    proof {
                        assert(p@.interiors.len() == 0);
                        assert(out@ =~= geometry_text(self@));
                    }
                    out
                } else {
                    proof {
                        reveal_strlit("(");
                        reveal_strlit(")");
                        reveal_strlit(",");
                    }
                    out.append("POLYGON");
                    out.append("(");
                    let ghost rings = seq![p@.exterior] + p@.interiors;
                    let ghost pre = out@;
                    write_coord_seq_2d(&mut out, &p.exterior.0);
                    proof {
                        assert(rings.take(1) =~= seq![p@.exterior]);
                        assert(out@ =~= pre + ring_join_2d(rings.take(1)));
                    }
                    let mut i: usize = 0;
                    while i < p.interiors.len()
                        invariant
                            i <= p.interiors@.len(),
                            out@ == pre + ring_join_2d(rings.take(i as int + 1)),
                        decreases p.interiors@.len() - i,
                    {
                        out.append(",");
                        write_coord_seq_2d(&mut out, &p.interiors[i].0);
                        proof {
                            assert(rings.take(i as int + 2).drop_last() =~= rings.take(
                                i as int + 1,
                            ));
                            assert(rings.take(i as int + 2).last() == rings[i as int + 1]);
                            assert(out@ =~= pre + ring_join_2d(rings.take(i as int + 2)));
                        }
                        i = i + 1;
                    }
                    proof {
                        assert(rings.take(rings.len() as int) =~= rings);
                    }
                    out.append(")");
                    proof {
                        assert(out@ =~= geometry_text(self@));
                    }
                    out
                }
            },
            Geometry::PolygonZ(p) => p.wkt_string(),
            Geometry::MultiPoint(mp) => {
                let mut out = String::new();
                if mp.0.len() == 0 {
                    out.append("MULTIPOINT EMPTY");
                    proof {
                        assert(out@ =~= geometry_text(self@));
                    }
                    out
                } else {
                    out.append("MULTIPOINT");
                    let mut coords: Vec<Coord<i64>> = Vec::new();
                    let mut i: usize = 0;
                    while i < mp.0.len()
                        invariant
                            i <= mp.0@.len(),
                            coords@.len() == i,
                            forall|j: int| 0 <= j < i ==> coords@[j] == mp.0@[j].0,
                        decreases mp.0@.len() - i,
                    {
                        coords.push(mp.0[i].0);
                        i = i + 1;
                    }
                    write_coord_seq_2d(&mut out, &coords);
                    proof {
                        assert(coords@ =~= Seq::new(mp@.len(), |i: int| mp@[i].0));
                        assert(out@ =~= geometry_text(self@));
                    }
                    out
                }
            },
            Geometry::MultiPointZ(mp) => mp.wkt_string(),
            Geometry::MultiLineString(mls) => {
                let mut out = String::new();
                if mls.0.len() == 0 {
                    out.append("MULTILINESTRING EMPTY");
                    proof {
                        assert(mls@.len() == 0);
                        assert(out@ =~= geometry_text(self@));
                    }
                    out
                } else {
                    proof {
                        reveal_strlit("(");
                        reveal_strlit(")");
                        reveal_strlit(",");
                    }
                    out.append("MULTILINESTRING");
                    out.append("(");
                    let ghost pre = out@;
                    write_coord_seq_2d(&mut out, &mls.0[0].0);
                    proof {
                        assert(mls@.take(1) =~= seq![mls@[0]]);
                        assert(out@ =~= pre + ring_join_2d(mls@.take(1)));
                    }
                    let mut i: usize = 1;
                    while i < mls.0.len()
                        invariant
                            1 <= i <= mls.0@.len(),
                            out@ == pre + ring_join_2d(mls@.take(i as int)),
                        decreases mls.0@.len() - i,
                    {
                        out.append(",");
                        write_coord_seq_2d(&mut out, &mls.0[i].0);
                        proof {
                            assert(mls@.take(i as int + 1).drop_last() =~= mls@.take(i as int));
                            assert(mls@.take(i as int + 1).last() == mls@[i as int]);
                            assert(out@ =~= pre + ring_join_2d(mls@.take(i as int + 1)));
                        }
                        i = i + 1;
                    }
                    proof {
                        assert(mls@.take(mls@.len() as int) =~= mls@);
                    }
                    out.append(")");
                    proof {
                        assert(out@ =~= geometry_text(self@));
                    }
                    out
                }
            },
            Geometry::MultiLineStringZ(mls) => mls.wkt_string(),
            Geometry::MultiPolygon(mp) => {
                let mut out = String::new();
                if mp.0.len() == 0 {
                    out.append("MULTIPOLYGON EMPTY");
                    proof {
                        assert(mp@.len() == 0);
                        assert(out@ =~= geometry_text(self@));
                    }
                    out
                } else {
                    proof {
                        reveal_strlit("(");
                        reveal_strlit(")");
                        reveal_strlit(",");
                    }
                    out.append("MULTIPOLYGON");
                    out.append("(");
                    let ghost pre = out@;
                    write_polygon_inner_2d(&mut out, &mp.0[0]);
                    proof {
                        assert(mp@.take(1) =~= seq![mp@[0]]);
                        assert(out@ =~= pre + polygon_join_2d(mp@.take(1)));
                    }
                    let mut i: usize = 1;
                    while i < mp.0.len()
                        invariant
                            1 <= i <= mp.0@.len(),
                            out@ == pre + polygon_join_2d(mp@.take(i as int)),
                        decreases mp.0@.len() - i,
                    {
                        out.append(",");
                        write_polygon_inner_2d(&mut out, &mp.0[i]);
                        proof {
                            assert(mp@.take(i as int + 1).drop_last() =~= mp@.take(i as int));
                            assert(mp@.take(i as int + 1).last() == mp@[i as int]);
                            assert(out@ =~= pre + polygon_join_2d(mp@.take(i as int + 1)));
                        }
                        i = i + 1;
                    }
                    proof {
                        assert(mp@.take(mp@.len() as int) =~= mp@);
                    }
                    out.append(")");
                    proof {
                        assert(out@ =~= geometry_text(self@));
                    }
                    out
                }
            },
            Geometry::MultiPolygonZ(mp) => mp.wkt_string(),
            Geometry::GeometryCollection(gc) => {
                let mut out = String::new();
                proof {
                    lemma_geometry_seq_view(gc.0@);
                }
                if gc.0.len() == 0 {
                    out.append("GEOMETRYCOLLECTION EMPTY");
                    proof {
                        assert(gc@.len() == 0);
                        assert(out@ =~= geometry_text(self@));
                    }
                    out
                } else {
                    proof {
                        reveal_strlit("(");
                        reveal_strlit(")");
                        reveal_strlit(",");
                        assert(decreases_to!(*self => self->GeometryCollection_0));
                        assert(self->GeometryCollection_0 == *gc);
                        assert(decreases_to!(*gc => gc.0));
                        assert(decreases_to!(gc.0 => gc.0@));
                        assert(decreases_to!(gc.0@ => gc.0@[0]));
                    }
                    out.append("GEOMETRYCOLLECTION");
                    out.append("(");
                    let ghost pre = out@;
                    let first = gc.0[0].wkt_string();
                    out.append(first.as_str());
                    proof {
                        assert(gc@.take(1) =~= seq![gc@[0]]);
                        assert(out@ =~= pre + geometry_join(gc@.take(1)));
                    }
                    let mut i: usize = 1;
                    while i < gc.0.len()
                        invariant
                            1 <= i <= gc.0@.len(),
                            out@ == pre + geometry_join(gc@.take(i as int)),
                        decreases gc.0@.len() - i,
                    {
                        proof {
                            assert(decreases_to!(gc.0@ => gc.0@[i as int]));
                        }
                        out.append(",");
                        let next = gc.0[i].wkt_string();
                        out.append(next.as_str());
                        proof {
                            assert(gc@.take(i as int + 1).drop_last() =~= gc@.take(i as int));
                            assert(gc@.take(i as int + 1).last() == gc@[i as int]);
                            assert(out@ =~= pre + geometry_join(gc@.take(i as int + 1)));
                        }
                        i = i + 1;
                    }
                    proof {
                        assert(gc@.take(gc@.len() as int) =~= gc@);
                    }
                    out.append(")");
                    proof {
                        assert(out@ =~= geometry_text(self@));
                    }
                    out
                }
            },
            Geometry::Rect(rect) => {
                let mut out = String::new();
                out.append("RECT");
                let mut v: Vec<Coord<i64>> = Vec::new();
                v.push(rect.min);
                v.push(rect.max);
                write_coord_seq_2d(&mut out, &v);
                proof {
                    assert(v@ =~= seq![rect.min, rect.max]);
                    assert(out@ =~= geometry_text(self@));
                }
                out
            },
        }
    }
}

/// Appends the inner text of a two-axis polygon.
fn write_polygon_inner_2d(out: &mut String, polygon: &crate::two_d::Polygon<i64>)
    ensures
        final(out)@ == old(out)@ + polygon_inner_text_2d(polygon@),
{
    if polygon.exterior.0.len() == 0 && polygon.interiors.len() == 0 {
        out.append("EMPTY");
        proof {
            assert(polygon@.interiors.len() == 0);
        }
        return ;
    }
    proof {
        reveal_strlit("(");
        reveal_strlit(")");
        reveal_strlit(",");
    }
    let ghost rings = seq![polygon@.exterior] + polygon@.interiors;
    out.append("(");
    let ghost pre = out@;
    write_coord_seq_2d(out, &polygon.exterior.0);
    proof {
        assert(rings.take(1) =~= seq![polygon@.exterior]);
        assert(out@ =~= pre + ring_join_2d(rings.take(1)));
    }
    let mut i: usize = 0;
    while i < polygon.interiors.len()
        invariant
            i <= polygon.interiors@.len(),
            rings == seq![polygon@.exterior] + polygon@.interiors,
            rings.len() == 1 + polygon.interiors@.len(),
            polygon@.interiors.len() == polygon.interiors@.len(),
            forall|j: int|
                0 <= j < polygon.interiors@.len() ==> rings[j + 1] == polygon.interiors@[j]@,
            pre == old(out)@ + seq!['('],
            out@ == pre + ring_join_2d(rings.take(i as int + 1)),
        decreases polygon.interiors@.len() - i,
    {
        out.append(",");
        write_coord_seq_2d(out, &polygon.interiors[i].0);
        proof {
            reveal_strlit("(");
            reveal_strlit(",");
            assert(rings.take(i as int + 2).drop_last() =~= rings.take(i as int + 1));
            assert(rings.take(i as int + 2).last() == rings[i as int + 1]);
            assert(out@ =~= pre + ring_join_2d(rings.take(i as int + 2)));
        }
        i = i + 1;
    }
    proof {
        assert(rings.take(rings.len() as int) =~= rings);
    }
    out.append(")");
    proof {
        assert(out@ =~= old(out)@ + polygon_inner_text_2d(polygon@));
    }
}

impl GeometryCollection<i64> {
    /// The display text of this collection.
    pub fn wkt_string(&self) -> (r: String)
        ensures
            r@ == geometry_collection_text(self@),
    {
        let mut out = String::new();
        proof {
            lemma_geometry_seq_view(self.0@);
        }
        if self.0.len() == 0 {
            out.append("GEOMETRYCOLLECTION EMPTY");
            proof {
                assert(self@.len() == 0);
                assert(out@ =~= geometry_collection_text(self@));
            }
            out
        } else {
            proof {
                reveal_strlit("(");
                reveal_strlit(")");
                reveal_strlit(",");
            }
            out.append("GEOMETRYCOLLECTION");
            out.append("(");
            let ghost pre = out@;
            let first = self.0[0].wkt_string();
            out.append(first.as_str());
            proof {
                assert(self@.take(1) =~= seq![self@[0]]);
                assert(out@ =~= pre + geometry_join(self@.take(1)));
            }
            let mut i: usize = 1;
            while i < self.0.len()
                invariant
                    1 <= i <= self.0@.len(),
                    self@.len() == self.0@.len(),
                    forall|j: int| 0 <= j < self.0@.len() ==> self@[j] == self.0@[j]@,
                    pre == "GEOMETRYCOLLECTION"@ + seq!['('],
                    out@ == pre + geometry_join(self@.take(i as int)),
                decreases self.0@.len() - i,
            {
                out.append(",");
                let next = self.0[i].wkt_string();
                out.append(next.as_str());
                proof {
                    reveal_strlit("(");
                    reveal_strlit(",");
                    assert(self@.take(i as int + 1).drop_last() =~= self@.take(i as int));
                    assert(self@.take(i as int + 1).last() == self@[i as int]);
                    assert(out@ =~= pre + geometry_join(self@.take(i as int + 1)));
                }
                i = i + 1;
            }
            proof {
                assert(self@.take(self@.len() as int) =~= self@);
            }
            out.append(")");
            proof {
                assert(out@ =~= geometry_collection_text(self@));
            }
            out
        }
    }
}

} // verus!
