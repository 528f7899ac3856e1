use vstd::prelude::*;
use vstd::string::StrSliceExecFns;

use crate::coord_z::CoordZ;
use crate::error::Error;
use crate::geometry::Geometry;
use crate::geometry::GeometryCollection;
use crate::geometry::GeometryView;
use crate::line_string_z::LineStringZ;
use crate::multi::MultiLineStringZ;
use crate::multi::MultiPointZ;
use crate::multi::MultiPolygonZ;
use crate::point_z::PointZ;
use crate::polygon_z::polygon_of_rings;
use crate::polygon_z::PolygonZ;
use crate::polygon_z::PolygonZView;

verus! {

/// A decimal number literal, exactly as written: an optional sign, the
/// digits before the decimal point, and the digits after it.  `1.50` and
/// `1.5` are distinct values of this type; the literal decoder never
/// normalises what was written.  Each digit run is limited to eighteen
/// digits, so both parts always fit their fields.
#[derive(Clone, Copy, PartialEq, Eq, Structural, Debug)]
pub struct Decimal {
    pub negative: bool,
    pub int_part: u64,
    pub frac_part: u64,
    pub frac_len: u32,
}

/// Whether a character is blank space between tokens of a geometry
/// literal.
pub open spec fn is_wkt_ws(c: char) -> bool {
    c == ' ' || c == '\t' || c == '\n' || c == '\r'
}

/// Whether a character is a decimal digit.
pub open spec fn is_wkt_digit(c: char) -> bool {
    48 <= c as u32 <= 57
}

/// The first offset at or after `i` that holds no blank space.
pub open spec fn skip_ws_spec(t: Seq<char>, i: int) -> int
    decreases t.len() - i,
{
    if 0 <= i < t.len() && is_wkt_ws(t[i]) {
        skip_ws_spec(t, i + 1)
    } else {
        i
    }
}

/// The first offset at or after `i` that holds no digit.
pub open spec fn digits_end_spec(t: Seq<char>, i: int) -> int
    decreases t.len() - i,
{
    if 0 <= i < t.len() && is_wkt_digit(t[i]) {
        digits_end_spec(t, i + 1)
    } else {
        i
    }
}

/// The value of the digit run between `i` and `j`.
pub open spec fn digits_val_spec(t: Seq<char>, i: int, j: int) -> int
    decreases j - i,
{
    if j <= i {
        0
    } else {
        digits_val_spec(t, i, j - 1) * 10 + (t[j - 1] as u32 - 48)
    }
}

/// Ten to the given power.
pub open spec fn pow10(k: int) -> int
    decreases k,
{
    if k <= 0 {
        1
    } else {
        10 * pow10(k - 1)
    }
}

/// A digit run of `k` digits has a value below ten to the `k`.
proof fn lemma_digits_val_bound(t: Seq<char>, i: int, j: int)
    requires
        i <= j <= t.len(),
        forall|q: int| i <= q < j ==> is_wkt_digit(t[q]),
    ensures
        0 <= digits_val_spec(t, i, j) < pow10(j - i),
    decreases j - i,
{
    if j > i {
        lemma_digits_val_bound(t, i, j - 1);
    }
}

/// Ten to a power between bounds is itself bounded.
proof fn lemma_pow10_mono(a: int, b: int)
    requires
        a <= b,
    ensures
        pow10(a) <= pow10(b),
    decreases b - a,
{
    if a < b {
        lemma_pow10_mono(a, b - 1);
        lemma_pow10_positive(b - 1);
    }
}

/// Ten to any power is positive.
proof fn lemma_pow10_positive(k: int)
    ensures
        pow10(k) >= 1,
    decreases k,
{
    if k > 0 {
        lemma_pow10_positive(k - 1);
    }
}

/// Whether the text carries the given keyword starting at offset `i`.
pub open spec fn matches_keyword(t: Seq<char>, i: int, kw: Seq<char>) -> bool {
    0 <= i && i + kw.len() <= t.len() && t.subrange(i, i + kw.len()) == kw
}

/// What reading one number literal at offset `i` yields: the decimal and
/// the offset just past it.  A number is an optional minus sign, one to
/// eighteen digits, and optionally a point followed by one to eighteen
/// more digits.
pub open spec fn parse_number_spec(t: Seq<char>, i: int) -> Option<(Decimal, int)> {
    if !(0 <= i < t.len()) {
        None
    } else {
        let negative = t[i] == '-';
        let i1 = if negative {
            i + 1
        } else {
            i
        };
        let j = digits_end_spec(t, i1);
        if j == i1 || j - i1 > 18 {
            None
        } else {
            if j < t.len() && t[j] == '.' {
                let k = digits_end_spec(t, j + 1);
                if k == j + 1 || k - (j + 1) > 18 {
                    None
                } else {
                    Some(
                        (
                            Decimal {
                                negative,
                                int_part: digits_val_spec(t, i1, j) as u64,
                                frac_part: digits_val_spec(t, j + 1, k) as u64,
                                frac_len: (k - (j + 1)) as u32,
                            },
                            k,
                        ),
                    )
                }
            } else {
                Some(
                    (
                        Decimal {
                            negative,
                            int_part: digits_val_spec(t, i1, j) as u64,
                            frac_part: 0,
                            frac_len: 0,
                        },
                        j,
                    ),
                )
            }
        }
    }
}

/// What reading one coordinate at offset `i` yields: three blank-
/// separated numbers as x, y and z.
pub open spec fn parse_coord_spec(t: Seq<char>, i: int) -> Option<(CoordZ<Decimal>, int)> {
    let i0 = skip_ws_spec(t, i);
    match parse_number_spec(t, i0) {
        Option::None => None,
        Option::Some((x, p1)) => {
            let i1 = skip_ws_spec(t, p1);
            match parse_number_spec(t, i1) {
                Option::None => None,
                Option::Some((y, p2)) => {
                    let i2 = skip_ws_spec(t, p2);
                    match parse_number_spec(t, i2) {
                        Option::None => None,
                        Option::Some((z, p3)) => Some((CoordZ { x, y, z }, p3)),
                    }
                },
            }
        },
    }
}

/// What reading a comma-separated coordinate run yields, starting just
/// inside the opening parenthesis and consuming the closing one.
pub open spec fn parse_coords_spec(t: Seq<char>, i: int) -> Option<(Seq<CoordZ<Decimal>>, int)>
    decreases t.len() - i,
{
    match parse_coord_spec(t, i) {
        Option::None => None,
        Option::Some((c, p)) => {
            let k = skip_ws_spec(t, p);
            if k < t.len() && t[k] == ',' {
                if i < k + 1 && k + 1 <= t.len() {
                    match parse_coords_spec(t, k + 1) {
                        Option::None => None,
                        Option::Some((rest, e)) => Some((seq![c] + rest, e)),
                    }
                } else {
                    None
                }
            } else if k < t.len() && t[k] == ')' {
                Some((seq![c], k + 1))
            } else {
                None
            }
        },
    }
}

/// What reading one ring (or one line string body) yields: the literal
/// token `EMPTY`, or a parenthesized coordinate run.
pub open spec fn parse_ring_spec(t: Seq<char>, i: int) -> Option<(Seq<CoordZ<Decimal>>, int)> {
    let k = skip_ws_spec(t, i);
    if matches_keyword(t, k, "EMPTY"@) {
        Some((Seq::empty(), k + 5))
    } else if k < t.len() && t[k] == '(' {
        parse_coords_spec(t, k + 1)
    } else {
        None
    }
}

/// What reading a comma-separated ring run yields, consuming the closing
/// parenthesis of the surrounding list.
pub open spec fn parse_rings_spec(t: Seq<char>, i: int) -> Option<(Seq<Seq<CoordZ<Decimal>>>, int)>
    decreases t.len() - i,
{
    match parse_ring_spec(t, i) {
        Option::None => None,
        Option::Some((r, p)) => {
            let k = skip_ws_spec(t, p);
            if k < t.len() && t[k] == ',' {
                if i < k + 1 && k + 1 <= t.len() {
                    match parse_rings_spec(t, k + 1) {
                        Option::None => None,
                        Option::Some((rest, e)) => Some((seq![r] + rest, e)),
                    }
                } else {
                    None
                }
            } else if k < t.len() && t[k] == ')' {
                Some((seq![r], k + 1))
            } else {
                None
            }
        },
    }
}

/// What reading one parenthesized coordinate yields: a multi-point
/// member.
pub open spec fn parse_paren_coord_spec(t: Seq<char>, i: int) -> Option<(CoordZ<Decimal>, int)> {
    let k = skip_ws_spec(t, i);
    if k < t.len() && t[k] == '(' {
        match parse_coord_spec(t, k + 1) {
            Option::None => None,
            Option::Some((c, p)) => {
                let k2 = skip_ws_spec(t, p);
                if k2 < t.len() && t[k2] == ')' {
                    Some((c, k2 + 1))
                } else {
                    None
                }
            },
        }
    } else {
        None
    }
}

/// What reading a comma-separated run of parenthesized coordinates
/// yields.
pub open spec fn parse_paren_coords_spec(t: Seq<char>, i: int) -> Option<
    (Seq<CoordZ<Decimal>>, int),
>
    decreases t.len() - i,
{
    match parse_paren_coord_spec(t, i) {
        Option::None => None,
        Option::Some((c, p)) => {
            let k = skip_ws_spec(t, p);
            if k < t.len() && t[k] == ',' {
                if i < k + 1 && k + 1 <= t.len() {
                    match parse_paren_coords_spec(t, k + 1) {
                        Option::None => None,
                        Option::Some((rest, e)) => Some((seq![c] + rest, e)),
                    }
                } else {
                    None
                }
            } else if k < t.len() && t[k] == ')' {
                Some((seq![c], k + 1))
            } else {
                None
            }
        },
    }
}

/// What reading one polygon body yields: `EMPTY` for the empty polygon,
/// or a parenthesized ring run whose ring 0 becomes the exterior and
/// whose remaining rings become the interiors, in written order.  No
/// ring is closed beyond what is written.
pub open spec fn parse_polygon_body_spec(t: Seq<char>, i: int) -> Option<
    (PolygonZView<Decimal>, int),
> {
    let k = skip_ws_spec(t, i);
    if matches_keyword(t, k, "EMPTY"@) {
        Some((PolygonZView { exterior: Seq::empty(), interiors: Seq::empty() }, k + 5))
    } else if k < t.len() && t[k] == '(' {
        match parse_rings_spec(t, k + 1) {
            Option::None => None,
            Option::Some((rs, p)) => Some((polygon_of_rings(rs), p)),
        }
    } else {
        None
    }
}

/// What reading a comma-separated run of polygon bodies yields.
pub open spec fn parse_polygons_spec(t: Seq<char>, i: int) -> Option<
    (Seq<PolygonZView<Decimal>>, int),
>
    decreases t.len() - i,
{
    match parse_polygon_body_spec(t, i) {
        Option::None => None,
        Option::Some((pv, p)) => {
            let k = skip_ws_spec(t, p);
            if k < t.len() && t[k] == ',' {
                if i < k + 1 && k + 1 <= t.len() {
                    match parse_polygons_spec(t, k + 1) {
                        Option::None => None,
                        Option::Some((rest, e)) => Some((seq![pv] + rest, e)),
                    }
                } else {
                    None
                }
            } else if k < t.len() && t[k] == ')' {
                Some((seq![pv], k + 1))
            } else {
                None
            }
        },
    }
}

/// What reading one geometry literal yields, dispatching on its
/// case-sensitive keyword.  `EMPTY` is accepted for every collection-like
/// kind and rejected for `POINT`: a point cannot be empty.
pub open spec fn parse_geometry_spec(t: Seq<char>, i: int) -> Option<(GeometryView<Decimal>, int)>
    decreases t.len() - i, 0int,
{
    let k = skip_ws_spec(t, i);
    if matches_keyword(t, k, "POINT"@) {
        let k2 = skip_ws_spec(t, k + 5);
        if k2 < t.len() && t[k2] == '(' {
            match parse_coord_spec(t, k2 + 1) {
                Option::None => None,
                Option::Some((c, p)) => {
                    let k3 = skip_ws_spec(t, p);
                    if k3 < t.len() && t[k3] == ')' {
                        Some((GeometryView::PointZ(PointZ(c)), k3 + 1))
                    } else {
                        None
                    }
                },
            }
        } else {
            None
        }
    } else if matches_keyword(t, k, "LINESTRING"@) {
        match parse_ring_spec(t, k + 10) {
            Option::None => None,
            Option::Some((cs, p)) => Some((GeometryView::LineStringZ(cs), p)),
        }
    } else if matches_keyword(t, k, "POLYGON"@) {
        match parse_polygon_body_spec(t, k + 7) {
            Option::None => None,
            Option::Some((pv, p)) => Some((GeometryView::PolygonZ(pv), p)),
        }
    } else if matches_keyword(t, k, "MULTIPOINT"@) {
        let k2 = skip_ws_spec(t, k + 10);
        if matches_keyword(t, k2, "EMPTY"@) {
            Some((GeometryView::MultiPointZ(Seq::empty()), k2 + 5))
        } else if k2 < t.len() && t[k2] == '(' {
            match parse_paren_coords_spec(t, k2 + 1) {
                Option::None => None,
                Option::Some((cs, p)) => Some(
                    (GeometryView::MultiPointZ(Seq::new(cs.len(), |q: int| PointZ(cs[q]))), p),
                ),
            }
        } else {
            None
        }
    } else if matches_keyword(t, k, "MULTILINESTRING"@) {
        let k2 = skip_ws_spec(t, k + 15);
        if matches_keyword(t, k2, "EMPTY"@) {
            Some((GeometryView::MultiLineStringZ(Seq::empty()), k2 + 5))
        } else if k2 < t.len() && t[k2] == '(' {
            match parse_rings_spec(t, k2 + 1) {
                Option::None => None,
                Option::Some((rs, p)) => Some((GeometryView::MultiLineStringZ(rs), p)),
            }
        } else {
            None
        }
    } else if matches_keyword(t, k, "MULTIPOLYGON"@) {
        let k2 = skip_ws_spec(t, k + 12);
        if matches_keyword(t, k2, "EMPTY"@) {
            Some((GeometryView::MultiPolygonZ(Seq::empty()), k2 + 5))
        } else if k2 < t.len() && t[k2] == '(' {
            match parse_polygons_spec(t, k2 + 1) {
                Option::None => None,
                Option::Some((ps, p)) => Some((GeometryView::MultiPolygonZ(ps), p)),
            }
        } else {
            None
        }
    } else if matches_keyword(t, k, "GEOMETRYCOLLECTION"@) {
        let k2 = skip_ws_spec(t, k + 18);
        if matches_keyword(t, k2, "EMPTY"@) {
            Some((GeometryView::GeometryCollection(Seq::empty()), k2 + 5))
        } else if k2 < t.len() && t[k2] == '(' {
            if i < k2 + 1 && k2 + 1 <= t.len() {
                match parse_geometries_spec(t, k2 + 1) {
                    Option::None => None,
                    Option::Some((gs, p)) => Some((GeometryView::GeometryCollection(gs), p)),
                }
            } else {
                None
            }
        } else {
            None
        }
    } else {
        None
    }
}

/// What reading a comma-separated run of geometry literals yields: the
/// members of a collection literal.
pub open spec fn parse_geometries_spec(t: Seq<char>, i: int) -> Option<
    (Seq<GeometryView<Decimal>>, int),
>
    decreases t.len() - i, 1int,
{
    match parse_geometry_spec(t, i) {
        Option::None => None,
        Option::Some((g, p)) => {
            let k = skip_ws_spec(t, p);
            if k < t.len() && t[k] == ',' {
                if i < k + 1 && k + 1 <= t.len() {
                    match parse_geometries_spec(t, k + 1) {
                        Option::None => None,
                        Option::Some((rest, e)) => Some((seq![g] + rest, e)),
                    }
                } else {
                    None
                }
            } else if k < t.len() && t[k] == ')' {
                Some((seq![g], k + 1))
            } else {
                None
            }
        },
    }
}

/// Which geometry a whole literal denotes: one geometry literal with
/// nothing but blank space around it, or nothing when the grammar is
/// violated.
pub open spec fn wkt_decode_spec(t: Seq<char>) -> Option<GeometryView<Decimal>> {
    match parse_geometry_spec(t, 0) {
        Option::None => None,
        Option::Some((g, p)) => {
            if skip_ws_spec(t, p) == t.len() {
                Some(g)
            } else {
                None
            }
        },
    }
}


/// Whether a character is blank space between tokens.
fn is_ws_char(c: char) -> (r: bool)
    ensures
        r == is_wkt_ws(c),
{
    c == ' ' || c == '\t' || c == '\n' || c == '\r'
}

/// Whether a character is a decimal digit.
fn is_digit_char(c: char) -> (r: bool)
    ensures
        r == is_wkt_digit(c),
{
    let v = c as u32;
    48 <= v && v <= 57
}

/// Moves past blank space.
fn skip_ws(s: &str, n: usize, i: usize) -> (r: usize)
    requires
        n == s@.len(),
        i <= n,
    ensures
        r == skip_ws_spec(s@, i as int),
        i <= r <= n,
{
    let mut p = i;
    loop
        invariant
            i <= p <= n,
            n == s@.len(),
            skip_ws_spec(s@, i as int) == skip_ws_spec(s@, p as int),
        decreases n - p,
    {
        if p < n {
            let c = s.get_char(p);
            if is_ws_char(c) {
                p = p + 1;
                continue ;
            }
        }
        return p;
    }
}

/// Whether the text carries the given keyword at offset `i`.
fn has_keyword(s: &str, n: usize, i: usize, kw: &str) -> (r: bool)
    requires
        n == s@.len(),
    ensures
        r == matches_keyword(s@, i as int, kw@),
{
    let m = kw.unicode_len();
    if i > n || m > n - i {
        return false;
    }
    let mut j: usize = 0;
    while j < m
        invariant
            j <= m,
            i + m <= n,
            m == kw@.len(),
            n == s@.len(),
            forall|q: int| 0 <= q < j ==> s@[i + q] == kw@[q],
        decreases m - j,
    {
        if s.get_char(i + j) != kw.get_char(j) {
            proof {
                assert(s@.subrange(i as int, i + m) != kw@) by {
                    assert(s@.subrange(i as int, i + m)[j as int] != kw@[j as int]);
                }
            }
            return false;
        }
        j = j + 1;
    }
    proof {
        assert(s@.subrange(i as int, i + m) =~= kw@);
    }
    true
}

/// Reads a digit run starting at `i`: its end and its value.
fn scan_digits(s: &str, n: usize, i: usize) -> (r: Result<(u64, usize), Error>)
    requires
        n == s@.len(),
        i <= n,
    ensures
        match r {
            Ok((v, j)) => {
                &&& j == digits_end_spec(s@, i as int)
                &&& i < j <= n
                &&& j - i <= 18
                &&& v == digits_val_spec(s@, i as int, j as int)
            },
            Err(e) => (digits_end_spec(s@, i as int) == i || digits_end_spec(s@, i as int) - i
                > 18) && e is InvalidWkt,
        },
{
    let mut j = i;
    loop
        invariant
            i <= j <= n,
            n == s@.len(),
            digits_end_spec(s@, i as int) == digits_end_spec(s@, j as int),
            forall|q: int| i <= q < j ==> is_wkt_digit(s@[q]),
        ensures
            i <= j <= n,
            j == digits_end_spec(s@, i as int),
            forall|q: int| i <= q < j ==> is_wkt_digit(s@[q]),
        decreases n - j,
    {
        if j < n {
            let c = s.get_char(j);
            if is_digit_char(c) {
                j = j + 1;
                continue ;
            }
        }
        break ;
    }
    if j == i || j - i > 18 {
        return Err(Error::InvalidWkt { offset: j });
    }
    proof {
        lemma_digits_val_bound(s@, i as int, j as int);
    }
    let mut v: u64 = 0;
    let mut cur = i;
    while cur < j
        invariant
            i <= cur <= j <= n,
            j - i <= 18,
            n == s@.len(),
            forall|q: int| i <= q < j ==> is_wkt_digit(s@[q]),
            v == digits_val_spec(s@, i as int, cur as int),
            v < pow10(cur - i),
        decreases j - cur,
    {
        let c = s.get_char(cur);
        let d: u64 = (c as u32 - 48) as u64;
        proof {
            lemma_pow10_mono(cur - i + 1, 18);
            assert(pow10(18) == 1000000000000000000) by {
                reveal_with_fuel(pow10, 20);
            }
            assert(pow10(cur - i + 1) == 10 * pow10(cur - i));
        }
        v = v * 10 + d;
        cur = cur + 1;
    }
    Ok((v, j))
}

/// Reads one number literal.
fn parse_number(s: &str, n: usize, i: usize) -> (r: Result<(Decimal, usize), Error>)
    requires
        n == s@.len(),
        i <= n,
    ensures
        match r {
            Ok((d, p)) => parse_number_spec(s@, i as int) == Some((d, p as int)) && i < p <= n,
            Err(e) => parse_number_spec(s@, i as int) is None && e is InvalidWkt,
        },
{
    if i == n {
        return Err(Error::InvalidWkt { offset: i });
    }
    let negative = s.get_char(i) == '-';
    let i1 = if negative {
        i + 1
    } else {
        i
    };
    if i1 > n {
        return Err(Error::InvalidWkt { offset: i });
    }
    match scan_digits(s, n, i1) {
        Err(e) => Err(e),
        Ok((int_part, j)) => {
            if j < n && s.get_char(j) == '.' {
                match scan_digits(s, n, j + 1) {
                    Err(e) => Err(e),
                    Ok((frac_part, k)) => {
                        let d = Decimal {
                            negative,
                            int_part,
                            frac_part,
                            frac_len: (k - (j + 1)) as u32,
                        };
                        Ok((d, k))
                    },
                }
            } else {
                let d = Decimal { negative, int_part, frac_part: 0, frac_len: 0 };
                Ok((d, j))
            }
        },
    }
}

/// Reads one coordinate: three blank-separated numbers.
fn parse_coord(s: &str, n: usize, i: usize) -> (r: Result<(CoordZ<Decimal>, usize), Error>)
    requires
        n == s@.len(),
        i <= n,
    ensures
        match r {
            Ok((c, p)) => parse_coord_spec(s@, i as int) == Some((c, p as int)) && i < p <= n,
            Err(e) => parse_coord_spec(s@, i as int) is None && e is InvalidWkt,
        },
{
    let i0 = skip_ws(s, n, i);
    match parse_number(s, n, i0) {
        Err(e) => Err(e),
        Ok((x, p1)) => {
            let i1 = skip_ws(s, n, p1);
            match parse_number(s, n, i1) {
                Err(e) => Err(e),
                Ok((y, p2)) => {
                    let i2 = skip_ws(s, n, p2);
                    match parse_number(s, n, i2) {
                        Err(e) => Err(e),
                        Ok((z, p3)) => Ok((CoordZ { x, y, z }, p3)),
                    }
                },
            }
        },
    }
}

/// Reads a comma-separated coordinate run up to and including the
/// closing parenthesis.
fn parse_coords(s: &str, n: usize, i: usize) -> (r: Result<(Vec<CoordZ<Decimal>>, usize), Error>)
    requires
        n == s@.len(),
        i <= n,
    ensures
        match r {
            Ok((v, p)) => parse_coords_spec(s@, i as int) == Some((v@, p as int)) && i < p <= n,
            Err(e) => parse_coords_spec(s@, i as int) is None && e is InvalidWkt,
        },
{
    let mut acc: Vec<CoordZ<Decimal>> = Vec::new();
    let mut pos = i;
    loop
        invariant
            i <= pos <= n,
            n == s@.len(),
            pos == i || pos > i,
            ({
                let whole = parse_coords_spec(s@, i as int);
                match parse_coords_spec(s@, pos as int) {
                    Option::None => whole is None,
                    Option::Some((rest, e)) => whole == Some((acc@ + rest, e)),
                }
            }),
        decreases n - pos,
    {
        match parse_coord(s, n, pos) {
            Err(e) => {
                return Err(e);
            },
            Ok((c, j)) => {
                let k = skip_ws(s, n, j);
                if k < n && s.get_char(k) == ',' {
                    proof {
                        match parse_coords_spec(s@, k + 1) {
                            Option::Some((rest, _e)) => {
                                assert(acc@ + (seq![c] + rest) =~= acc@.push(c) + rest);
                            },
                            Option::None => {},
                        }
                    }
                    acc.push(c);
                    pos = k + 1;
                } else if k < n && s.get_char(k) == ')' {
                    proof {
                        assert(acc@ + seq![c] =~= acc@.push(c));
                    }
                    acc.push(c);
                    return Ok((acc, k + 1));
                } else {
                    return Err(Error::InvalidWkt { offset: k });
                }
            },
        }
    }
}

/// Reads one ring (or line string body): `EMPTY` or a parenthesized
/// coordinate run.
fn parse_ring(s: &str, n: usize, i: usize) -> (r: Result<(LineStringZ<Decimal>, usize), Error>)
    requires
        n == s@.len(),
        i <= n,
    ensures
        match r {
            Ok((ls, p)) => parse_ring_spec(s@, i as int) == Some((ls@, p as int)) && i < p <= n,
            Err(e) => parse_ring_spec(s@, i as int) is None && e is InvalidWkt,
        },
{
    let k = skip_ws(s, n, i);
    if has_keyword(s, n, k, "EMPTY") {
        proof {
            reveal_strlit("EMPTY");
        }
        Ok((LineStringZ::empty(), k + 5))
    } else if k < n && s.get_char(k) == '(' {
        match parse_coords(s, n, k + 1) {
            Err(e) => Err(e),
            Ok((v, p)) => Ok((LineStringZ(v), p)),
        }
    } else {
        Err(Error::InvalidWkt { offset: k })
    }
}

/// Reads a comma-separated ring run up to and including the closing
/// parenthesis of the surrounding list.
fn parse_rings(s: &str, n: usize, i: usize) -> (r: Result<
    (Vec<LineStringZ<Decimal>>, usize),
    Error,
>)
    requires
        n == s@.len(),
        i <= n,
    ensures
        match r {
            Ok((v, p)) => parse_rings_spec(s@, i as int) == Some(
                (Seq::new(v@.len(), |q: int| v@[q]@), p as int),
            ) && i < p <= n,
            Err(e) => parse_rings_spec(s@, i as int) is None && e is InvalidWkt,
        },
{
    let mut acc: Vec<LineStringZ<Decimal>> = Vec::new();
    let ghost mut accv: Seq<Seq<CoordZ<Decimal>>> = Seq::empty();
    let mut pos = i;
    loop
        invariant
            i <= pos <= n,
            n == s@.len(),
            accv.len() == acc@.len(),
            forall|q: int| 0 <= q < accv.len() ==> accv[q] == acc@[q]@,
            ({
                let whole = parse_rings_spec(s@, i as int);
                match parse_rings_spec(s@, pos as int) {
                    Option::None => whole is None,
                    Option::Some((rest, e)) => whole == Some((accv + rest, e)),
                }
            }),
        decreases n - pos,
    {
        match parse_ring(s, n, pos) {
            Err(e) => {
                return Err(e);
            },
            Ok((ls, j)) => {
                let k = skip_ws(s, n, j);
                if k < n && s.get_char(k) == ',' {
                    proof {
                        match parse_rings_spec(s@, k + 1) {
                            Option::Some((rest, _e)) => {
                                assert(accv + (seq![ls@] + rest) =~= accv.push(ls@) + rest);
                            },
                            Option::None => {},
                        }
                        accv = accv.push(ls@);
                    }
                    acc.push(ls);
                    pos = k + 1;
                } else if k < n && s.get_char(k) == ')' {
                    proof {
                        assert(accv + seq![ls@] =~= accv.push(ls@));
                        accv = accv.push(ls@);
                    }
                    acc.push(ls);
                    proof {
                        assert(Seq::new(acc@.len(), |q: int| acc@[q]@) =~= accv);
                    }
                    return Ok((acc, k + 1));
                } else {
                    return Err(Error::InvalidWkt { offset: k });
                }
            },
        }
    }
}

/// Reads one parenthesized coordinate: a multi-point member.
fn parse_paren_coord(s: &str, n: usize, i: usize) -> (r: Result<
    (CoordZ<Decimal>, usize),
    Error,
>)
    requires
        n == s@.len(),
        i <= n,
    ensures
        match r {
            Ok((c, p)) => parse_paren_coord_spec(s@, i as int) == Some((c, p as int)) && i < p
                <= n,
            Err(e) => parse_paren_coord_spec(s@, i as int) is None && e is InvalidWkt,
        },
{
    let k = skip_ws(s, n, i);
    if k < n && s.get_char(k) == '(' {
        match parse_coord(s, n, k + 1) {
            Err(e) => Err(e),
            Ok((c, p)) => {
                let k2 = skip_ws(s, n, p);
                if k2 < n && s.get_char(k2) == ')' {
                    Ok((c, k2 + 1))
                } else {
                    Err(Error::InvalidWkt { offset: k2 })
                }
            },
        }
    } else {
        Err(Error::InvalidWkt { offset: k })
    }
}

/// Reads a comma-separated run of parenthesized coordinates.
fn parse_paren_coords(s: &str, n: usize, i: usize) -> (r: Result<
    (Vec<CoordZ<Decimal>>, usize),
    Error,
>)
    requires
        n == s@.len(),
        i <= n,
    ensures
        match r {
            Ok((v, p)) => parse_paren_coords_spec(s@, i as int) == Some((v@, p as int)) && i < p
                <= n,
            Err(e) => parse_paren_coords_spec(s@, i as int) is None && e is InvalidWkt,
        },
{
    let mut acc: Vec<CoordZ<Decimal>> = Vec::new();
    let mut pos = i;
    loop
        invariant
            i <= pos <= n,
            n == s@.len(),
            ({
                let whole = parse_paren_coords_spec(s@, i as int);
                match parse_paren_coords_spec(s@, pos as int) {
                    Option::None => whole is None,
                    Option::Some((rest, e)) => whole == Some((acc@ + rest, e)),
                }
            }),
        decreases n - pos,
    {
        match parse_paren_coord(s, n, pos) {
            Err(e) => {
                return Err(e);
            },
            Ok((c, j)) => {
                let k = skip_ws(s, n, j);
                if k < n && s.get_char(k) == ',' {
                    proof {
                        match parse_paren_coords_spec(s@, k + 1) {
                            Option::Some((rest, _e)) => {
                                assert(acc@ + (seq![c] + rest) =~= acc@.push(c) + rest);
                            },
                            Option::None => {},
                        }
                    }
                    acc.push(c);
                    pos = k + 1;
                } else if k < n && s.get_char(k) == ')' {
                    proof {
                        assert(acc@ + seq![c] =~= acc@.push(c));
                    }
                    acc.push(c);
                    return Ok((acc, k + 1));
                } else {
                    return Err(Error::InvalidWkt { offset: k });
                }
            },
        }
    }
}

/// Reads one polygon body: `EMPTY` or a parenthesized ring run.
fn parse_polygon_body(s: &str, n: usize, i: usize) -> (r: Result<
    (PolygonZ<Decimal>, usize),
    Error,
>)
    requires
        n == s@.len(),
        i <= n,
    ensures
        match r {
            Ok((pz, p)) => parse_polygon_body_spec(s@, i as int) == Some((pz@, p as int)) && i
                < p <= n,
            Err(e) => parse_polygon_body_spec(s@, i as int) is None && e is InvalidWkt,
        },
{
    let k = skip_ws(s, n, i);
    if has_keyword(s, n, k, "EMPTY") {
        proof {
            reveal_strlit("EMPTY");
        }
        let pz = PolygonZ::empty();
        proof {
            assert(pz@ =~= (PolygonZView::<Decimal> {
                exterior: Seq::empty(),
                interiors: Seq::empty(),
            }));
        }
        Ok((pz, k + 5))
    } else if k < n && s.get_char(k) == '(' {
        match parse_rings(s, n, k + 1) {
            Err(e) => Err(e),
            Ok((rings, p)) => {
                let pz = PolygonZ::from_rings(rings);
                Ok((pz, p))
            },
        }
    } else {
        Err(Error::InvalidWkt { offset: k })
    }
}

/// Reads a comma-separated run of polygon bodies.
fn parse_polygons(s: &str, n: usize, i: usize) -> (r: Result<
    (Vec<PolygonZ<Decimal>>, usize),
    Error,
>)
    requires
        n == s@.len(),
        i <= n,
    ensures
        match r {
            Ok((v, p)) => parse_polygons_spec(s@, i as int) == Some(
                (Seq::new(v@.len(), |q: int| v@[q]@), p as int),
            ) && i < p <= n,
            Err(e) => parse_polygons_spec(s@, i as int) is None && e is InvalidWkt,
        },
{
    let mut acc: Vec<PolygonZ<Decimal>> = Vec::new();
    let ghost mut accv: Seq<PolygonZView<Decimal>> = Seq::empty();
    let mut pos = i;
    loop
        invariant
            i <= pos <= n,
            n == s@.len(),
            accv.len() == acc@.len(),
            forall|q: int| 0 <= q < accv.len() ==> accv[q] == acc@[q]@,
            ({
                let whole = parse_polygons_spec(s@, i as int);
                match parse_polygons_spec(s@, pos as int) {
                    Option::None => whole is None,
                    Option::Some((rest, e)) => whole == Some((accv + rest, e)),
                }
            }),
        decreases n - pos,
    {
        match parse_polygon_body(s, n, pos) {
            Err(e) => {
                return Err(e);
            },
            Ok((pz, j)) => {
                let k = skip_ws(s, n, j);
                if k < n && s.get_char(k) == ',' {
                    proof {
                        match parse_polygons_spec(s@, k + 1) {
                            Option::Some((rest, _e)) => {
                                assert(accv + (seq![pz@] + rest) =~= accv.push(pz@) + rest);
                            },
                            Option::None => {},
                        }
                        accv = accv.push(pz@);
                    }
                    acc.push(pz);
                    pos = k + 1;
                } else if k < n && s.get_char(k) == ')' {
                    proof {
                        assert(accv + seq![pz@] =~= accv.push(pz@));
                        accv = accv.push(pz@);
                    }
                    acc.push(pz);
                    proof {
                        assert(Seq::new(acc@.len(), |q: int| acc@[q]@) =~= accv);
                    }
                    return Ok((acc, k + 1));
                } else {
                    return Err(Error::InvalidWkt { offset: k });
                }
            },
        }
    }
}

/// Reads one geometry literal, dispatching on its keyword.  `EMPTY` is
/// accepted for every collection-like kind; `POINT EMPTY` is rejected —
/// a point cannot be empty, and no placeholder value is produced.
#[verifier::loop_isolation(false)]
#[verifier::rlimit(60)]
pub fn parse_geometry(s: &str, n: usize, i: usize) -> (r: Result<
    (Geometry<Decimal>, usize),
    Error,
>)
    requires
        n == s@.len(),
        i <= n,
    ensures
        match r {
            Ok((g, p)) => parse_geometry_spec(s@, i as int) == Some((g@, p as int)) && i < p
                <= n,
            Err(e) => parse_geometry_spec(s@, i as int) is None && e is InvalidWkt,
        },
    decreases n - i,
{
    let k = skip_ws(s, n, i);
    if has_keyword(s, n, k, "POINT") {
        proof {
            reveal_strlit("POINT");
        }
        let k2 = skip_ws(s, n, k + 5);
        if k2 < n && s.get_char(k2) == '(' {
            match parse_coord(s, n, k2 + 1) {
                Err(e) => Err(e),
                Ok((c, p)) => {
                    let k3 = skip_ws(s, n, p);
                    if k3 < n && s.get_char(k3) == ')' {
                        Ok((Geometry::PointZ(PointZ(c)), k3 + 1))
                    } else {
                        Err(Error::InvalidWkt { offset: k3 })
                    }
                },
            }
        } else {
            Err(Error::InvalidWkt { offset: k2 })
        }
    } else if has_keyword(s, n, k, "LINESTRING") {
        proof {
            reveal_strlit("LINESTRING");
        }
        match parse_ring(s, n, k + 10) {
            Err(e) => Err(e),
            Ok((ls, p)) => Ok((Geometry::LineStringZ(ls), p)),
        }
    } else if has_keyword(s, n, k, "POLYGON") {
        proof {
            reveal_strlit("POLYGON");
        }
        match parse_polygon_body(s, n, k + 7) {
            Err(e) => Err(e),
            Ok((pz, p)) => Ok((Geometry::PolygonZ(pz), p)),
        }
    } else if has_keyword(s, n, k, "MULTIPOINT") {
        proof {
            reveal_strlit("MULTIPOINT");
        }
        let k2 = skip_ws(s, n, k + 10);
        if has_keyword(s, n, k2, "EMPTY") {
            proof {
                reveal_strlit("EMPTY");
            }
            Ok((Geometry::MultiPointZ(MultiPointZ(Vec::new())), k2 + 5))
        } else if k2 < n && s.get_char(k2) == '(' {
            match parse_paren_coords(s, n, k2 + 1) {
                Err(e) => Err(e),
                Ok((cs, p)) => {
                    let mut points: Vec<PointZ<Decimal>> = Vec::new();
                    let mut q: usize = 0;
                    while q < cs.len()
                        invariant
                            q <= cs@.len(),
                            points@.len() == q,
                            forall|w: int| 0 <= w < q ==> points@[w] == PointZ(cs@[w]),
                        decreases cs@.len() - q,
                    {
                        points.push(PointZ(cs[q]));
                        q = q + 1;
                    }
                    proof {
                        assert(points@ =~= Seq::new(cs@.len(), |w: int| PointZ(cs@[w])));
                    }
                    Ok((Geometry::MultiPointZ(MultiPointZ(points)), p))
                },
            }
        } else {
            Err(Error::InvalidWkt { offset: k2 })
        }
    } else if has_keyword(s, n, k, "MULTILINESTRING") {
        proof {
            reveal_strlit("MULTILINESTRING");
        }
        let k2 = skip_ws(s, n, k + 15);
        if has_keyword(s, n, k2, "EMPTY") {
            proof {
                reveal_strlit("EMPTY");
            }
            let r = Geometry::MultiLineStringZ(MultiLineStringZ(Vec::new()));
            proof {
                assert(r@->MultiLineStringZ_0 =~= Seq::<Seq<CoordZ<Decimal>>>::empty());
            }
            Ok((r, k2 + 5))
        } else if k2 < n && s.get_char(k2) == '(' {
            match parse_rings(s, n, k2 + 1) {
                Err(e) => Err(e),
                Ok((rings, p)) => Ok((Geometry::MultiLineStringZ(MultiLineStringZ(rings)), p)),
            }
        } else {
            Err(Error::InvalidWkt { offset: k2 })
        }
    } else if has_keyword(s, n, k, "MULTIPOLYGON") {
        proof {
            reveal_strlit("MULTIPOLYGON");
        }
        let k2 = skip_ws(s, n, k + 12);
        if has_keyword(s, n, k2, "EMPTY") {
            proof {
                reveal_strlit("EMPTY");
            }
            let r = Geometry::MultiPolygonZ(MultiPolygonZ(Vec::new()));
            proof {
                assert(r@->MultiPolygonZ_0 =~= Seq::<PolygonZView<Decimal>>::empty());
            }
            Ok((r, k2 + 5))
        } else if k2 < n && s.get_char(k2) == '(' {
            match parse_polygons(s, n, k2 + 1) {
                Err(e) => Err(e),
                Ok((ps, p)) => Ok((Geometry::MultiPolygonZ(MultiPolygonZ(ps)), p)),
            }
        } else {
            Err(Error::InvalidWkt { offset: k2 })
        }
    } else if has_keyword(s, n, k, "GEOMETRYCOLLECTION") {
        proof {
            reveal_strlit("GEOMETRYCOLLECTION");
        }
        let k2 = skip_ws(s, n, k + 18);
        if has_keyword(s, n, k2, "EMPTY") {
            proof {
                reveal_strlit("EMPTY");
            }
            let r = Geometry::GeometryCollection(GeometryCollection(Vec::new()));
            proof {
                assert(r@->GeometryCollection_0 =~= Seq::<GeometryView<Decimal>>::empty());
            }
            Ok((r, k2 + 5))
        } else if k2 < n && s.get_char(k2) == '(' {
            let mut acc: Vec<Geometry<Decimal>> = Vec::new();
            let ghost mut accv: Seq<GeometryView<Decimal>> = Seq::empty();
            let mut pos = k2 + 1;
            loop
                invariant
                    i < pos <= n,
                    accv.len() == acc@.len(),
                    forall|q: int| 0 <= q < accv.len() ==> accv[q] == acc@[q]@,
                    ({
                        let whole = parse_geometries_spec(s@, k2 + 1);
                        match parse_geometries_spec(s@, pos as int) {
                            Option::None => whole is None,
                            Option::Some((rest, e)) => whole == Some((accv + rest, e)),
                        }
                    }),
                decreases n - pos,
            {
                match parse_geometry(s, n, pos) {
                    Err(e) => {
                        return Err(e);
                    },
                    Ok((g, j)) => {
                        let k3 = skip_ws(s, n, j);
                        if k3 < n && s.get_char(k3) == ',' {
                            proof {
                                match parse_geometries_spec(s@, k3 + 1) {
                                    Option::Some((rest, _e)) => {
                                        assert(accv + (seq![g@] + rest) =~= accv.push(g@)
                                            + rest);
                                    },
                                    Option::None => {},
                                }
                                accv = accv.push(g@);
                            }
                            acc.push(g);
                            pos = k3 + 1;
                        } else if k3 < n && s.get_char(k3) == ')' {
                            proof {
                                assert(accv + seq![g@] =~= accv.push(g@));
                                accv = accv.push(g@);
                            }
                            acc.push(g);
                            let r = Geometry::GeometryCollection(GeometryCollection(acc));
                            proof {
                                crate::geometry::lemma_geometry_seq_view(
                                    r->GeometryCollection_0.0@,
                                );
                                assert(r@->GeometryCollection_0 =~= accv);
                            }
                            return Ok((r, k3 + 1));
                        } else {
                            return Err(Error::InvalidWkt { offset: k3 });
                        }
                    },
                }
            }
        } else {
            Err(Error::InvalidWkt { offset: k2 })
        }
    } else {
        Err(Error::InvalidWkt { offset: k })
    }
}

/// Decodes a whole geometry literal: one geometry with nothing but blank
/// space around it.  A malformed literal — including `POINT EMPTY` —
/// yields a decode rejection and never a value.
pub fn wkt_decode(text: &str) -> (r: Result<Geometry<Decimal>, Error>)
    ensures
        match r {
            Ok(g) => wkt_decode_spec(text@) == Some(g@),
            Err(e) => wkt_decode_spec(text@) is None && e is InvalidWkt,
        },
{
    let n = text.unicode_len();
    match parse_geometry(text, n, 0) {
        Err(e) => Err(e),
        Ok((g, p)) => {
            let e = skip_ws(text, n, p);
            if e == n {
                Ok(g)
            } else {
                Err(Error::InvalidWkt { offset: e })
            }
        },
    }
}

} // verus!\n