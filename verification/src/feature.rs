//! Features: a geometry with its properties.

use vstd::prelude::*;

use crate::events::{geometry_events, shape_events, Event};
use crate::geometry::{decode_geometry, geometry_of, Error, Geometry, Shape};
use crate::json::{find_member, member_named, Json, Member};
use crate::words::{spells, FEATURE, GEOMETRY, PROPERTIES, TYPE};

verus! {

/// A decoded feature. The properties stand in the order of the text, their
/// values untouched.
#[derive(Debug, PartialEq)]
pub struct Feature {
    pub geometry: Geometry,
    pub properties: Vec<Member>,
    /// Whether the text gives the properties before the geometry.
    pub properties_first: bool,
}

/// What a `Feature` holds.
pub ghost struct FeatureView {
    pub geometry: Shape,
    pub properties: Seq<Member>,
    pub properties_first: bool,
}

impl View for Feature {
    type V = FeatureView;

    open spec fn view(&self) -> FeatureView {
        FeatureView {
            geometry: self.geometry@,
            properties: self.properties@,
            properties_first: self.properties_first,
        }
    }
}

/// The feature that the members of an object spell. The member `type` must
/// be the string `Feature`; the member `geometry` must spell a geometry; the
/// member `properties` must be an object. The first of these that fails
/// decides the error.
pub open spec fn feature_of_members(members: Seq<Member>) -> Result<FeatureView, Error> {
    match member_named(members, TYPE@) {
        None => Err(Error::Decode),
        Some(t) => match members[t].value {
            Json::Text(name) => if name@ != FEATURE@ {
                Err(Error::Decode)
            } else {
                match member_named(members, GEOMETRY@) {
                    None => Err(Error::Decode),
                    Some(g) => match geometry_of(members[g].value) {
                        Err(error) => Err(error),
                        Ok(shape) => match member_named(members, PROPERTIES@) {
                            None => Err(Error::Decode),
                            Some(p) => match members[p].value {
                                Json::Object(properties) => Ok(
                                    FeatureView {
                                        geometry: shape,
                                        properties: properties@,
                                        properties_first: p < g,
                                    },
                                ),
                                _ => Err(Error::Decode),
                            },
                        },
                    },
                }
            },
            _ => Err(Error::Decode),
        },
    }
}

/// The feature that `value` spells.
pub open spec fn feature_of(value: Json) -> Result<FeatureView, Error> {
    match value {
        Json::Object(members) => feature_of_members(members@),
        _ => Err(Error::Decode),
    }
}

/// Reads `value` as a feature. The properties are moved out of `value`, not
/// copied.
pub fn decode_feature(value: Json) -> (found: Result<Feature, Error>)
    ensures
        match found {
            Ok(feature) => feature_of(value) == Ok::<FeatureView, Error>(feature@),
            Err(error) => feature_of(value) == Err::<FeatureView, Error>(error),
        },
{
    let mut members = match value {
        Json::Object(members) => members,
        _ => {
            return Err(Error::Decode);
        },
    };
    let ghost all = members@;
    let t = match find_member(&members, &TYPE) {
        Some(t) => t,
        None => {
            return Err(Error::Decode);
        },
    };
    match &members[t].value {
        Json::Text(name) => {
            if !spells(name, &FEATURE) {
                return Err(Error::Decode);
            }
        },
        _ => {
            return Err(Error::Decode);
        },
    }
    let g = match find_member(&members, &GEOMETRY) {
        Some(g) => g,
        None => {
            return Err(Error::Decode);
        },
    };
    let geometry = match decode_geometry(&members[g].value) {
        Ok(geometry) => geometry,
        Err(error) => {
            return Err(error);
        },
    };
    let p = match find_member(&members, &PROPERTIES) {
        Some(p) => p,
        None => {
            return Err(Error::Decode);
        },
    };
    let held = members.remove(p);
    assert(held == all[p as int]);
    match held.value {
        Json::Object(properties) => Ok(Feature { geometry, properties, properties_first: p < g }),
        _ => Err(Error::Decode),
    }
}

/// The events of `count` properties: the begin, one event for each property
/// in order, the end.
pub open spec fn properties_events(count: nat) -> Seq<Event> {
    seq![Event::PropertiesBegin] + Seq::new(count, |i: int| Event::Property { index: i as usize })
        + seq![Event::PropertiesEnd]
}

/// The events of a feature: those of its properties and those of its
/// geometry, in the order in which the text gave the two.
pub open spec fn feature_events_of(feature: FeatureView) -> Seq<Event> {
    if feature.properties_first {
        properties_events(feature.properties.len()) + shape_events(feature.geometry)
    } else {
        shape_events(feature.geometry) + properties_events(feature.properties.len())
    }
}

/// Appends the events of `count` properties.
fn push_properties(out: &mut Vec<Event>, count: usize)
    ensures
        final(out)@ == old(out)@ + properties_events(count as nat),
{
    out.push(Event::PropertiesBegin);
    let mut i: usize = 0;
    while i < count
        invariant
            i <= count,
            out@ == old(out)@ + seq![Event::PropertiesBegin] + Seq::new(
                i as nat,
                |j: int| Event::Property { index: j as usize },
            ),
        decreases count - i,
    {
        out.push(Event::Property { index: i });
        i += 1;
        assert(out@ =~= old(out)@ + seq![Event::PropertiesBegin] + Seq::new(
            i as nat,
            |j: int| Event::Property { index: j as usize },
        ));
    }
    out.push(Event::PropertiesEnd);
    assert(out@ =~= old(out)@ + properties_events(count as nat));
}

/// The events that `feature` asks for, in order.
pub fn feature_events(feature: &Feature) -> (events: Vec<Event>)
    ensures
        events@ == feature_events_of(feature@),
{
    if feature.properties_first {
        let mut out: Vec<Event> = Vec::new();
        push_properties(&mut out, feature.properties.len());
        let mut shape = geometry_events(&feature.geometry);
        out.append(&mut shape);
        assert(out@ =~= feature_events_of(feature@));
        out
    } else {
        let mut out = geometry_events(&feature.geometry);
        push_properties(&mut out, feature.properties.len());
        out
    }
}

} // verus!
