//! The geometry model, and how a JSON value is read as a geometry.

use vstd::prelude::*;

use crate::json::{find_member, member_named, Json, Member};
use crate::words::{
    spells, COORDINATES, LINE_STRING, MULTI_LINE_STRING, MULTI_POINT, MULTI_POLYGON, POINT,
    POLYGON, TYPE,
};

verus! {

/// Why a value could not be decoded.
#[derive(Debug, Clone, Copy, PartialEq, Eq, Structural)]
pub enum Error {
    /// The value has not the form that the format asks for.
    Decode,
    /// The value is a geometry of a kind outside the six that are decoded.
    UnsupportedGeometry,
}

/// Whether `bits` is the bit pattern of a finite double: its exponent is not
/// all ones.
pub open spec fn finite_bits(bits: u64) -> bool {
    (bits >> 52) & 0x7ff != 0x7ff
}

/// A position: longitude and latitude, each as the bit pattern of a double.
#[derive(Debug, Clone, Copy, PartialEq, Eq, Structural)]
pub struct Coordinate {
    pub x: u64,
    pub y: u64,
}

impl Coordinate {
    /// Both numbers are finite.
    pub open spec fn is_finite(self) -> bool {
        finite_bits(self.x) && finite_bits(self.y)
    }
}

/// A geometry of one of the six kinds.
#[derive(Debug, PartialEq)]
pub enum Geometry {
    Point(Coordinate),
    MultiPoint(Vec<Coordinate>),
    LineString(Vec<Coordinate>),
    MultiLineString(Vec<Vec<Coordinate>>),
    /// The rings of a polygon: the exterior first, then the holes.
    Polygon(Vec<Vec<Coordinate>>),
    MultiPolygon(Vec<Vec<Vec<Coordinate>>>),
}

/// What a `Geometry` holds, as sequences.
pub ghost enum Shape {
    Point(Coordinate),
    MultiPoint(Seq<Coordinate>),
    LineString(Seq<Coordinate>),
    MultiLineString(Seq<Seq<Coordinate>>),
    Polygon(Seq<Seq<Coordinate>>),
    MultiPolygon(Seq<Seq<Seq<Coordinate>>>),
}

/// The lines that a vector of vectors holds.
pub open spec fn lines_view(lines: Seq<Vec<Coordinate>>) -> Seq<Seq<Coordinate>> {
    Seq::new(lines.len(), |i: int| lines[i]@)
}

/// The polygons that a vector of vectors of vectors holds.
pub open spec fn polygons_view(polygons: Seq<Vec<Vec<Coordinate>>>) -> Seq<Seq<Seq<Coordinate>>> {
    Seq::new(polygons.len(), |i: int| lines_view(polygons[i]@))
}

impl View for Geometry {
    type V = Shape;

    open spec fn view(&self) -> Shape {
        match *self {
            Geometry::Point(c) => Shape::Point(c),
            Geometry::MultiPoint(points) => Shape::MultiPoint(points@),
            Geometry::LineString(line) => Shape::LineString(line@),
            Geometry::MultiLineString(lines) => Shape::MultiLineString(lines_view(lines@)),
            Geometry::Polygon(rings) => Shape::Polygon(lines_view(rings@)),
            Geometry::MultiPolygon(polygons) => Shape::MultiPolygon(polygons_view(polygons@)),
        }
    }
}

/// The kinds of geometry.
#[derive(Debug, Clone, Copy, PartialEq, Eq, Structural)]
pub enum Kind {
    Point,
    MultiPoint,
    LineString,
    MultiLineString,
    Polygon,
    MultiPolygon,
}

/// The kind that `name` spells, if it spells one.
pub open spec fn kind_named(name: Seq<u8>) -> Option<Kind> {
    if name == POINT@ {
        Some(Kind::Point)
    } else if name == MULTI_POINT@ {
        Some(Kind::MultiPoint)
    } else if name == LINE_STRING@ {
        Some(Kind::LineString)
    } else if name == MULTI_LINE_STRING@ {
        Some(Kind::MultiLineString)
    } else if name == POLYGON@ {
        Some(Kind::Polygon)
    } else if name == MULTI_POLYGON@ {
        Some(Kind::MultiPolygon)
    } else {
        None
    }
}

/// The finite double that `value` holds, where it is a number.
pub open spec fn ordinate_of(value: Json) -> Option<u64> {
    match value {
        Json::Number(n) => match n.double_bits {
            Some(bits) => if finite_bits(bits) {
                Some(bits)
            } else {
                None
            },
            None => None,
        },
        _ => None,
    }
}

/// The position that `value` holds: an array of exactly two numbers.
pub open spec fn coordinate_of(value: Json) -> Option<Coordinate> {
    match value {
        Json::Array(items) => if items@.len() == 2 && ordinate_of(items@[0]) is Some
            && ordinate_of(items@[1]) is Some {
            Some(Coordinate { x: ordinate_of(items@[0])->0, y: ordinate_of(items@[1])->0 })
        } else {
            None
        },
        _ => None,
    }
}

/// The positions that `value` holds: an array of positions.
pub open spec fn line_of(value: Json) -> Option<Seq<Coordinate>> {
    match value {
        Json::Array(items) => if forall|i: int|
            0 <= i < items@.len() ==> coordinate_of(#[trigger] items@[i]) is Some {
            Some(Seq::new(items@.len(), |i: int| coordinate_of(items@[i])->0))
        } else {
            None
        },
        _ => None,
    }
}

/// The lines that `value` holds: an array of arrays of positions.
pub open spec fn lines_of(value: Json) -> Option<Seq<Seq<Coordinate>>> {
    match value {
        Json::Array(items) => if forall|i: int|
            0 <= i < items@.len() ==> line_of(#[trigger] items@[i]) is Some {
            Some(Seq::new(items@.len(), |i: int| line_of(items@[i])->0))
        } else {
            None
        },
        _ => None,
    }
}

/// The polygons that `value` holds: an array of arrays of arrays of
/// positions.
pub open spec fn polygons_of(value: Json) -> Option<Seq<Seq<Seq<Coordinate>>>> {
    match value {
        Json::Array(items) => if forall|i: int|
            0 <= i < items@.len() ==> lines_of(#[trigger] items@[i]) is Some {
            Some(Seq::new(items@.len(), |i: int| lines_of(items@[i])->0))
        } else {
            None
        },
        _ => None,
    }
}

/// The geometry of kind `kind` whose coordinates are `value`.
pub open spec fn shape_of(kind: Kind, value: Json) -> Option<Shape> {
    match kind {
        Kind::Point => match coordinate_of(value) {
            Some(c) => Some(Shape::Point(c)),
            None => None,
        },
        Kind::MultiPoint => match line_of(value) {
            Some(points) => Some(Shape::MultiPoint(points)),
            None => None,
        },
        Kind::LineString => match line_of(value) {
            Some(line) => Some(Shape::LineString(line)),
            None => None,
        },
        Kind::MultiLineString => match lines_of(value) {
            Some(lines) => Some(Shape::MultiLineString(lines)),
            None => None,
        },
        Kind::Polygon => match lines_of(value) {
            Some(rings) => Some(Shape::Polygon(rings)),
            None => None,
        },
        Kind::MultiPolygon => match polygons_of(value) {
            Some(polygons) => Some(Shape::MultiPolygon(polygons)),
            None => None,
        },
    }
}

/// The geometry that the members of an object spell. The member `type` must
/// be a string: one that names none of the six kinds is an unsupported
/// geometry, whatever else the object holds. The member `coordinates` must
/// then have the form that the kind asks for.
pub open spec fn geometry_of_members(members: Seq<Member>) -> Result<Shape, Error> {
    match member_named(members, TYPE@) {
        None => Err(Error::Decode),
        Some(t) => match members[t].value {
            Json::Text(name) => match kind_named(name@) {
                None => Err(Error::UnsupportedGeometry),
                Some(kind) => match member_named(members, COORDINATES@) {
                    None => Err(Error::Decode),
                    Some(c) => match shape_of(kind, members[c].value) {
                        Some(shape) => Ok(shape),
                        None => Err(Error::Decode),
                    },
                },
            },
            _ => Err(Error::Decode),
        },
    }
}

/// The geometry that `value` spells.
pub open spec fn geometry_of(value: Json) -> Result<Shape, Error> {
    match value {
        Json::Object(members) => geometry_of_members(members@),
        _ => Err(Error::Decode),
    }
}

/// Every position of `line` is finite.
pub open spec fn line_is_finite(line: Seq<Coordinate>) -> bool {
    forall|i: int| 0 <= i < line.len() ==> (#[trigger] line[i]).is_finite()
}

/// Every position of every line of `lines` is finite.
pub open spec fn lines_are_finite(lines: Seq<Seq<Coordinate>>) -> bool {
    forall|i: int| 0 <= i < lines.len() ==> line_is_finite(#[trigger] lines[i])
}

impl Shape {
    /// Every position of the geometry is finite.
    pub open spec fn is_finite(self) -> bool {
        match self {
            Shape::Point(c) => c.is_finite(),
            Shape::MultiPoint(points) => line_is_finite(points),
            Shape::LineString(line) => line_is_finite(line),
            Shape::MultiLineString(lines) => lines_are_finite(lines),
            Shape::Polygon(rings) => lines_are_finite(rings),
            Shape::MultiPolygon(polygons) => forall|i: int|
                0 <= i < polygons.len() ==> lines_are_finite(#[trigger] polygons[i]),
        }
    }
}

/// A geometry that a JSON value spells holds finite positions only.
pub proof fn lemma_decoded_geometry_is_finite(value: Json)
    ensures
        match geometry_of(value) {
            Ok(shape) => shape.is_finite(),
            Err(_) => true,
        },
{
    match geometry_of(value) {
        Ok(shape) => {
            let members = value->Object_0@;
            let kind = kind_named(members[member_named(members, TYPE@)->0].value->Text_0@)->0;
            let c = members[member_named(members, COORDINATES@)->0].value;
            assert(shape_of(kind, c) == Some(shape));
            match shape {
                Shape::Point(_) => {},
                Shape::MultiPoint(_) => {},
                Shape::LineString(_) => {},
                Shape::MultiLineString(lines) => {
                    assert(lines_of(c) == Some(lines));
                    assert forall|i: int| 0 <= i < lines.len() implies line_is_finite(
                        #[trigger] lines[i],
                    ) by {
                        assert(line_of(c->Array_0@[i]) == Some(lines[i]));
                    }
                },
                Shape::Polygon(rings) => {
                    assert(lines_of(c) == Some(rings));
                    assert forall|i: int| 0 <= i < rings.len() implies line_is_finite(
                        #[trigger] rings[i],
                    ) by {
                        assert(line_of(c->Array_0@[i]) == Some(rings[i]));
                    }
                },
                Shape::MultiPolygon(polygons) => {
                    assert(polygons_of(c) == Some(polygons));
                    assert forall|i: int| 0 <= i < polygons.len() implies lines_are_finite(
                        #[trigger] polygons[i],
                    ) by {
                        let lines = polygons[i];
                        let inner = c->Array_0@[i];
                        assert(lines_of(inner) == Some(lines));
                        assert forall|j: int| 0 <= j < lines.len() implies line_is_finite(
                            #[trigger] lines[j],
                        ) by {
                            assert(line_of(inner->Array_0@[j]) == Some(lines[j]));
                        }
                    }
                },
            }
        },
        Err(_) => {},
    }
}

/// Reads a finite number.
pub fn decode_ordinate(value: &Json) -> (found: Option<u64>)
    ensures
        found == ordinate_of(*value),
{
    match value {
        Json::Number(n) => match n.double_bits {
            Some(bits) => {
                if (bits >> 52) & 0x7ff != 0x7ff {
                    Some(bits)
                } else {
                    None
                }
            },
            None => None,
        },
        _ => None,
    }
}

/// Reads a position.
pub fn decode_coordinate(value: &Json) -> (found: Option<Coordinate>)
    ensures
        found == coordinate_of(*value),
        found is Some ==> found->0.is_finite(),
{
    match value {
        Json::Array(items) => {
            if items.len() != 2 {
                return None;
            }
            match (decode_ordinate(&items[0]), decode_ordinate(&items[1])) {
                (Some(x), Some(y)) => Some(Coordinate { x, y }),
                _ => None,
            }
        },
        _ => None,
    }
}

/// Reads an array of positions.
pub fn decode_line(value: &Json) -> (found: Option<Vec<Coordinate>>)
    ensures
        match found {
            Some(line) => line_of(*value) == Some(line@),
            None => line_of(*value) is None,
        },
{
    match value {
        Json::Array(items) => {
            let mut line: Vec<Coordinate> = Vec::new();
            let mut i: usize = 0;
            while i < items.len()
                invariant
                    *value == Json::Array(*items),
                    i <= items.len(),
                    line@.len() == i,
                    forall|j: int|
                        0 <= j < i ==> coordinate_of(#[trigger] items@[j]) == Some(line@[j]),
                decreases items.len() - i,
            {
                match decode_coordinate(&items[i]) {
                    Some(c) => line.push(c),
                    None => {
                        assert(coordinate_of(items@[i as int]) is None);
                        return None;
                    },
                }
                i += 1;
            }
            assert(line@ =~= line_of(*value)->0);
            Some(line)
        },
        _ => None,
    }
}

/// Reads an array of arrays of positions.
pub fn decode_lines(value: &Json) -> (found: Option<Vec<Vec<Coordinate>>>)
    ensures
        match found {
            Some(lines) => lines_of(*value) == Some(lines_view(lines@)),
            None => lines_of(*value) is None,
        },
{
    match value {
        Json::Array(items) => {
            let mut lines: Vec<Vec<Coordinate>> = Vec::new();
            let mut i: usize = 0;
            while i < items.len()
                invariant
                    *value == Json::Array(*items),
                    i <= items.len(),
                    lines@.len() == i,
                    forall|j: int|
                        0 <= j < i ==> line_of(#[trigger] items@[j]) == Some(lines@[j]@),
                decreases items.len() - i,
            {
                match decode_line(&items[i]) {
                    Some(line) => lines.push(line),
                    None => {
                        assert(line_of(items@[i as int]) is None);
                        return None;
                    },
                }
                i += 1;
            }
            assert(lines_view(lines@) =~= lines_of(*value)->0);
            Some(lines)
        },
        _ => None,
    }
}

/// Reads an array of arrays of arrays of positions.
pub fn decode_polygons(value: &Json) -> (found: Option<Vec<Vec<Vec<Coordinate>>>>)
    ensures
        match found {
            Some(polygons) => polygons_of(*value) == Some(polygons_view(polygons@)),
            None => polygons_of(*value) is None,
        },
{
    match value {
        Json::Array(items) => {
            let mut polygons: Vec<Vec<Vec<Coordinate>>> = Vec::new();
            let mut i: usize = 0;
            while i < items.len()
                invariant
                    *value == Json::Array(*items),
                    i <= items.len(),
                    polygons@.len() == i,
                    forall|j: int|
                        0 <= j < i ==> lines_of(#[trigger] items@[j]) == Some(
                            lines_view(polygons@[j]@),
                        ),
                decreases items.len() - i,
            {
                match decode_lines(&items[i]) {
                    Some(rings) => polygons.push(rings),
                    None => {
                        assert(lines_of(items@[i as int]) is None);
                        return None;
                    },
                }
                i += 1;
            }
            assert(polygons_view(polygons@) =~= polygons_of(*value)->0);
            Some(polygons)
        },
        _ => None,
    }
}

/// Tells which kind `name` spells.
pub fn kind_of_name(name: &Vec<u8>) -> (kind: Option<Kind>)
    ensures
        kind == kind_named(name@),
{
    if spells(name, &POINT) {
        Some(Kind::Point)
    } else if spells(name, &MULTI_POINT) {
        Some(Kind::MultiPoint)
    } else if spells(name, &LINE_STRING) {
        Some(Kind::LineString)
    } else if spells(name, &MULTI_LINE_STRING) {
        Some(Kind::MultiLineString)
    } else if spells(name, &POLYGON) {
        Some(Kind::Polygon)
    } else if spells(name, &MULTI_POLYGON) {
        Some(Kind::MultiPolygon)
    } else {
        None
    }
}

/// Reads the coordinates of a geometry of kind `kind`.
pub fn decode_shape(kind: Kind, value: &Json) -> (found: Option<Geometry>)
    ensures
        match found {
            Some(geometry) => shape_of(kind, *value) == Some(geometry@),
            None => shape_of(kind, *value) is None,
        },
{
    match kind {
        Kind::Point => match decode_coordinate(value) {
            Some(c) => Some(Geometry::Point(c)),
            None => None,
        },
        Kind::MultiPoint => match decode_line(value) {
            Some(points) => Some(Geometry::MultiPoint(points)),
            None => None,
        },
        Kind::LineString => match decode_line(value) {
            Some(line) => Some(Geometry::LineString(line)),
            None => None,
        },
        Kind::MultiLineString => match decode_lines(value) {
            Some(lines) => Some(Geometry::MultiLineString(lines)),
            None => None,
        },
        Kind::Polygon => match decode_lines(value) {
            Some(rings) => Some(Geometry::Polygon(rings)),
            None => None,
        },
        Kind::MultiPolygon => match decode_polygons(value) {
            Some(polygons) => Some(Geometry::MultiPolygon(polygons)),
            None => None,
        },
    }
}

/// Reads the geometry that the members of an object spell.
pub fn decode_geometry_members(members: &Vec<Member>) -> (found: Result<Geometry, Error>)
    ensures
        match found {
            Ok(geometry) => geometry_of_members(members@) == Ok::<Shape, Error>(geometry@),
            Err(error) => geometry_of_members(members@) == Err::<Shape, Error>(error),
        },
{
    let t = match find_member(members, &TYPE) {
        Some(t) => t,
        None => {
            return Err(Error::Decode);
        },
    };
    let kind = match &members[t].value {
        Json::Text(name) => match kind_of_name(name) {
            Some(kind) => kind,
            None => {
                return Err(Error::UnsupportedGeometry);
            },
        },
        _ => {
            return Err(Error::Decode);
        },
    };
    let c = match find_member(members, &COORDINATES) {
        Some(c) => c,
        None => {
            return Err(Error::Decode);
        },
    };
    match decode_shape(kind, &members[c].value) {
        Some(geometry) => Ok(geometry),
        None => Err(Error::Decode),
    }
}

/// Reads `value` as a geometry.
pub fn decode_geometry(value: &Json) -> (found: Result<Geometry, Error>)
    ensures
        match found {
            Ok(geometry) => geometry_of(*value) == Ok::<Shape, Error>(geometry@)
                && geometry@.is_finite(),
            Err(error) => geometry_of(*value) == Err::<Shape, Error>(error),
        },
{
    proof {
        lemma_decoded_geometry_is_finite(*value);
    }
    match value {
        Json::Object(members) => decode_geometry_members(members),
        _ => Err(Error::Decode),
    }
}

} // verus!
