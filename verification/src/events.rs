//! The calls that a geometry asks of a consumer, as a sequence of events.

use vstd::prelude::*;

use crate::geometry::{lines_view, polygons_view, Coordinate, Geometry, Shape};

verus! {

/// One call on the consumer. `index` tells the place of a part within what
/// holds it; a count tells how many parts follow.
#[derive(Debug, Clone, Copy, PartialEq, Eq, Structural)]
pub enum Event {
    PointBegin { index: usize },
    PointEnd,
    MultiPointBegin { count: usize, index: usize },
    MultiPointEnd,
    LineBegin { count: usize, index: usize },
    LineEnd { index: usize },
    MultiLineBegin { count: usize, index: usize },
    MultiLineEnd,
    PolyBegin { rings: usize, index: usize },
    PolyEnd { index: usize },
    /// A position, its two numbers as the bit patterns of doubles.
    Coordinate { x: u64, y: u64, index: usize },
    PropertiesBegin,
    /// The property at place `index` among those of the feature.
    Property { index: usize },
    PropertiesEnd,
}

/// One coordinate event for each position of `line`, numbered from 0.
pub open spec fn coordinate_events(line: Seq<Coordinate>) -> Seq<Event> {
    Seq::new(
        line.len(),
        |i: int| Event::Coordinate { x: line[i].x, y: line[i].y, index: i as usize },
    )
}

/// A line: its begin with the number of positions, the positions, its end.
pub open spec fn line_events(line: Seq<Coordinate>, index: usize) -> Seq<Event> {
    seq![Event::LineBegin { count: line.len() as usize, index }] + coordinate_events(line)
        + seq![Event::LineEnd { index }]
}

/// The lines of `lines` one after the other, each under its place.
pub open spec fn lines_events(lines: Seq<Seq<Coordinate>>) -> Seq<Event>
    decreases lines.len(),
{
    if lines.len() == 0 {
        Seq::empty()
    } else {
        lines_events(lines.drop_last()) + line_events(lines.last(), (lines.len() - 1) as usize)
    }
}

/// A polygon: its begin with the number of rings, the rings as lines, its
/// end.
pub open spec fn polygon_events(rings: Seq<Seq<Coordinate>>, index: usize) -> Seq<Event> {
    seq![Event::PolyBegin { rings: rings.len() as usize, index }] + lines_events(rings)
        + seq![Event::PolyEnd { index }]
}

/// The polygons of `polygons` one after the other, each under its place.
pub open spec fn polygons_events(polygons: Seq<Seq<Seq<Coordinate>>>) -> Seq<Event>
    decreases polygons.len(),
{
    if polygons.len() == 0 {
        Seq::empty()
    } else {
        polygons_events(polygons.drop_last()) + polygon_events(
            polygons.last(),
            (polygons.len() - 1) as usize,
        )
    }
}

/// The events of a geometry that stands alone: every call at the top has
/// index 0.
pub open spec fn shape_events(shape: Shape) -> Seq<Event> {
    match shape {
        Shape::Point(c) => seq![
            Event::PointBegin { index: 0 },
            Event::Coordinate { x: c.x, y: c.y, index: 0 },
            Event::PointEnd,
        ],
        Shape::MultiPoint(points) => seq![
            Event::MultiPointBegin { count: points.len() as usize, index: 0 },
        ] + coordinate_events(points) + seq![Event::MultiPointEnd],
        Shape::LineString(line) => line_events(line, 0),
        Shape::MultiLineString(lines) => seq![
            Event::MultiLineBegin { count: lines.len() as usize, index: 0 },
        ] + lines_events(lines) + seq![Event::MultiLineEnd],
        Shape::Polygon(rings) => polygon_events(rings, 0),
        Shape::MultiPolygon(polygons) => polygons_events(polygons),
    }
}

/// Appends the coordinate events of `line`.
fn push_coordinates(out: &mut Vec<Event>, line: &Vec<Coordinate>)
    ensures
        final(out)@ == old(out)@ + coordinate_events(line@),
{
    let mut i: usize = 0;
    while i < line.len()
        invariant
            i <= line.len(),
            out@ == old(out)@ + coordinate_events(line@).subrange(0, i as int),
        decreases line.len() - i,
    {
        let c = line[i];
        out.push(Event::Coordinate { x: c.x, y: c.y, index: i });
        i += 1;
        assert(out@ =~= old(out)@ + coordinate_events(line@).subrange(0, i as int));
    }
    assert(coordinate_events(line@).subrange(0, i as int) =~= coordinate_events(line@));
}

/// Appends the events of one line.
fn push_line(out: &mut Vec<Event>, line: &Vec<Coordinate>, index: usize)
    ensures
        final(out)@ == old(out)@ + line_events(line@, index),
{
    out.push(Event::LineBegin { count: line.len(), index });
    push_coordinates(out, line);
    out.push(Event::LineEnd { index });
    assert(out@ =~= old(out)@ + line_events(line@, index));
}

/// Appends the events of several lines.
fn push_lines(out: &mut Vec<Event>, lines: &Vec<Vec<Coordinate>>)
    ensures
        final(out)@ == old(out)@ + lines_events(lines_view(lines@)),
{
    let ghost all = lines_view(lines@);
    let mut i: usize = 0;
    assert(out@ =~= old(out)@ + lines_events(all.subrange(0, 0)));
    while i < lines.len()
        invariant
            i <= lines.len(),
            all == lines_view(lines@),
            out@ == old(out)@ + lines_events(all.subrange(0, i as int)),
        decreases lines.len() - i,
    {
        push_line(out, &lines[i], i);
        proof {
            let next = all.subrange(0, i + 1);
            assert(next.drop_last() =~= all.subrange(0, i as int));
            assert(next.last() == lines@[i as int]@);
            assert(out@ =~= old(out)@ + lines_events(next));
        }
        i += 1;
    }
    assert(all.subrange(0, i as int) =~= all);
}

/// Appends the events of one polygon.
fn push_polygon(out: &mut Vec<Event>, rings: &Vec<Vec<Coordinate>>, index: usize)
    ensures
        final(out)@ == old(out)@ + polygon_events(lines_view(rings@), index),
{
    out.push(Event::PolyBegin { rings: rings.len(), index });
    push_lines(out, rings);
    out.push(Event::PolyEnd { index });
    assert(out@ =~= old(out)@ + polygon_events(lines_view(rings@), index));
}

/// Appends the events of several polygons.
fn push_polygons(out: &mut Vec<Event>, polygons: &Vec<Vec<Vec<Coordinate>>>)
    ensures
        final(out)@ == old(out)@ + polygons_events(polygons_view(polygons@)),
{
    let ghost all = polygons_view(polygons@);
    let mut i: usize = 0;
    assert(out@ =~= old(out)@ + polygons_events(all.subrange(0, 0)));
    while i < polygons.len()
        invariant
            i <= polygons.len(),
            all == polygons_view(polygons@),
            out@ == old(out)@ + polygons_events(all.subrange(0, i as int)),
        decreases polygons.len() - i,
    {
        push_polygon(out, &polygons[i], i);
        proof {
            let next = all.subrange(0, i + 1);
            assert(next.drop_last() =~= all.subrange(0, i as int));
            assert(next.last() == lines_view(polygons@[i as int]@));
            assert(out@ =~= old(out)@ + polygons_events(next));
        }
        i += 1;
    }
    assert(all.subrange(0, i as int) =~= all);
}

/// The events that `geometry` asks for, in order.
pub fn geometry_events(geometry: &Geometry) -> (events: Vec<Event>)
    ensures
        events@ == shape_events(geometry@),
{
    let mut out: Vec<Event> = Vec::new();
    match geometry {
        Geometry::Point(c) => {
            out.push(Event::PointBegin { index: 0 });
            out.push(Event::Coordinate { x: c.x, y: c.y, index: 0 });
            out.push(Event::PointEnd);
        },
        Geometry::MultiPoint(points) => {
            out.push(Event::MultiPointBegin { count: points.len(), index: 0 });
            push_coordinates(&mut out, points);
            out.push(Event::MultiPointEnd);
        },
        Geometry::LineString(line) => {
            push_line(&mut out, line, 0);
        },
        Geometry::MultiLineString(lines) => {
            out.push(Event::MultiLineBegin { count: lines.len(), index: 0 });
            push_lines(&mut out, lines);
            out.push(Event::MultiLineEnd);
        },
        Geometry::Polygon(rings) => {
            push_polygon(&mut out, rings, 0);
        },
        Geometry::MultiPolygon(polygons) => {
            push_polygons(&mut out, polygons);
        },
    }
    assert(out@ =~= shape_events(geometry@));
    out
}

/// A polygon of one ring asks for its begin with one ring, the begin of
/// that ring with the number of its positions, one coordinate event for each
/// position in the order given, the ring's end and the polygon's end, and
/// for nothing else: no position is added to close the ring.
pub proof fn lemma_single_ring_polygon(ring: Seq<Coordinate>)
    ensures
        shape_events(Shape::Polygon(seq![ring])) == seq![
            (Event::PolyBegin { rings: 1, index: 0 }),
            (Event::LineBegin { count: ring.len() as usize, index: 0 }),
        ] + coordinate_events(ring) + seq![
            (Event::LineEnd { index: 0 }),
            (Event::PolyEnd { index: 0 }),
        ],
        coordinate_events(ring).len() == ring.len(),
        forall|i: int|
            0 <= i < ring.len() ==> (#[trigger] coordinate_events(ring)[i]) == (Event::Coordinate {
                x: ring[i].x,
                y: ring[i].y,
                index: i as usize,
            }),
        shape_events(Shape::Polygon(seq![ring])).len() == ring.len() + 4,
{
    let rings = seq![ring];
    assert(rings.drop_last() =~= Seq::<Seq<Coordinate>>::empty());
    assert(rings.last() == ring);
    reveal_with_fuel(lines_events, 3);
    assert(lines_events(rings) =~= line_events(ring, 0));
    assert(shape_events(Shape::Polygon(rings)) =~= seq![
        Event::PolyBegin { rings: 1, index: 0 },
        Event::LineBegin { count: ring.len() as usize, index: 0 },
    ] + coordinate_events(ring) + seq![Event::LineEnd { index: 0 }, Event::PolyEnd { index: 0 }]);
}

} // verus!
