//! Decoding a whole document.

use vstd::prelude::*;

use crate::events::{geometry_events, shape_events, Event};
use crate::feature::{
    decode_feature, feature_events, feature_events_of, feature_of, Feature, FeatureView,
};
use crate::geometry::{decode_geometry, geometry_of, Error, Geometry, Shape};
use crate::json::{read_whole_value, whole_value};
use crate::sniff::{
    declared_type, lemma_unknown_type, prelude_text, read_geojson_prelude, sniff_of, DocumentShape,
};
use crate::stream::{
    elements_from, features_from, features_view, lemma_one_feature_for_each_element,
    read_features, Failure, FeatureList,
};
use crate::words::{BARE_GEOMETRY, FEATURE, FEATURE_COLLECTION};

verus! {

/// What a document was decoded to.
#[derive(Debug, PartialEq)]
pub enum Decoded {
    /// The document's shape is unknown: nothing was decoded.
    Nothing,
    /// The document is one geometry.
    Geometry(Geometry),
    /// The document is one feature.
    Feature(Feature),
    /// The document is a feature collection.
    Features(FeatureList),
}

/// What a `Decoded` holds.
pub ghost enum DecodedView {
    Nothing,
    Geometry(Shape),
    Feature(FeatureView),
    Features { items: Seq<FeatureView>, closed: bool },
}

impl View for Decoded {
    type V = DecodedView;

    open spec fn view(&self) -> DecodedView {
        match *self {
            Decoded::Nothing => DecodedView::Nothing,
            Decoded::Geometry(geometry) => DecodedView::Geometry(geometry@),
            Decoded::Feature(feature) => DecodedView::Feature(feature@),
            Decoded::Features(list) => DecodedView::Features {
                items: features_view(list.items@),
                closed: list.closed,
            },
        }
    }
}

/// The geometry that the whole of `doc` spells; an error is given with the
/// place 0.
pub open spec fn geometry_document_of(doc: Seq<u8>) -> Result<Shape, Failure> {
    match whole_value(doc) {
        None => Err(Failure { error: Error::Decode, offset: 0 }),
        Some(value) => match geometry_of(value) {
            Ok(shape) => Ok(shape),
            Err(error) => Err(Failure { error, offset: 0 }),
        },
    }
}

/// The feature that the whole of `doc` spells; an error is given with the
/// place 0.
pub open spec fn feature_document_of(doc: Seq<u8>) -> Result<FeatureView, Failure> {
    match whole_value(doc) {
        None => Err(Failure { error: Error::Decode, offset: 0 }),
        Some(value) => match feature_of(value) {
            Ok(feature) => Ok(feature),
            Err(error) => Err(Failure { error, offset: 0 }),
        },
    }
}

/// What `doc` decodes to: by its shape, the features of its array from the
/// offset on, the one feature or the one geometry that the whole of it
/// spells, or nothing where the shape is unknown.
pub open spec fn document_of(doc: Seq<u8>) -> Result<DecodedView, Failure> {
    match sniff_of(doc).0 {
        DocumentShape::Unknown => Ok(DecodedView::Nothing),
        DocumentShape::FeatureCollection => match features_from(doc, sniff_of(doc).1) {
            Ok((items, closed)) => Ok(DecodedView::Features { items, closed }),
            Err(failure) => Err(failure),
        },
        DocumentShape::Feature => match feature_document_of(doc) {
            Ok(feature) => Ok(DecodedView::Feature(feature)),
            Err(failure) => Err(failure),
        },
        DocumentShape::Geometry => match geometry_document_of(doc) {
            Ok(shape) => Ok(DecodedView::Geometry(shape)),
            Err(failure) => Err(failure),
        },
    }
}

/// Decodes the whole of `doc` as one geometry.
pub fn decode_geometry_document(doc: &[u8]) -> (found: Result<Geometry, Failure>)
    ensures
        match found {
            Ok(geometry) => geometry_document_of(doc@) == Ok::<Shape, Failure>(geometry@),
            Err(failure) => geometry_document_of(doc@) == Err::<Shape, Failure>(failure),
        },
{
    match read_whole_value(doc) {
        None => Err(Failure { error: Error::Decode, offset: 0 }),
        Some(value) => match decode_geometry(&value) {
            Ok(geometry) => Ok(geometry),
            Err(error) => Err(Failure { error, offset: 0 }),
        },
    }
}

/// Decodes the whole of `doc` as one feature.
pub fn decode_feature_document(doc: &[u8]) -> (found: Result<Feature, Failure>)
    ensures
        match found {
            Ok(feature) => feature_document_of(doc@) == Ok::<FeatureView, Failure>(feature@),
            Err(failure) => feature_document_of(doc@) == Err::<FeatureView, Failure>(failure),
        },
{
    match read_whole_value(doc) {
        None => Err(Failure { error: Error::Decode, offset: 0 }),
        Some(value) => match decode_feature(value) {
            Ok(feature) => Ok(feature),
            Err(error) => Err(Failure { error, offset: 0 }),
        },
    }
}

/// Decodes `doc`: tells its shape from the prelude, then decodes what the
/// shape asks for. An unknown shape is no error: nothing is decoded.
pub fn process_geojson(doc: &[u8]) -> (found: Result<Decoded, Failure>)
    ensures
        match found {
            Ok(decoded) => document_of(doc@) == Ok::<DecodedView, Failure>(decoded@),
            Err(failure) => document_of(doc@) == Err::<DecodedView, Failure>(failure),
        },
{
    let prelude = read_geojson_prelude(doc);
    match prelude.shape {
        DocumentShape::Unknown => Ok(Decoded::Nothing),
        DocumentShape::FeatureCollection => match read_features(doc, prelude.offset) {
            Ok(list) => Ok(Decoded::Features(list)),
            Err(failure) => Err(failure),
        },
        DocumentShape::Feature => match decode_feature_document(doc) {
            Ok(feature) => Ok(Decoded::Feature(feature)),
            Err(failure) => Err(failure),
        },
        DocumentShape::Geometry => match decode_geometry_document(doc) {
            Ok(geometry) => Ok(Decoded::Geometry(geometry)),
            Err(failure) => Err(failure),
        },
    }
}

/// The events of what was decoded, one run for each geometry or feature, in
/// the order of the document.
pub open spec fn event_runs_of(decoded: DecodedView) -> Seq<Seq<Event>> {
    match decoded {
        DecodedView::Nothing => Seq::empty(),
        DecodedView::Geometry(shape) => seq![shape_events(shape)],
        DecodedView::Feature(feature) => seq![feature_events_of(feature)],
        DecodedView::Features { items, closed } => Seq::new(
            items.len(),
            |i: int| feature_events_of(items[i]),
        ),
    }
}

/// The runs that a vector of vectors of events holds.
pub open spec fn runs_view(runs: Seq<Vec<Event>>) -> Seq<Seq<Event>> {
    Seq::new(runs.len(), |i: int| runs[i]@)
}

/// The events that `decoded` asks for, one run for each geometry or feature.
pub fn event_runs(decoded: &Decoded) -> (runs: Vec<Vec<Event>>)
    ensures
        runs_view(runs@) == event_runs_of(decoded@),
{
    let mut runs: Vec<Vec<Event>> = Vec::new();
    match decoded {
        Decoded::Nothing => {},
        Decoded::Geometry(geometry) => {
            runs.push(geometry_events(geometry));
        },
        Decoded::Feature(feature) => {
            runs.push(feature_events(feature));
        },
        Decoded::Features(list) => {
            let mut i: usize = 0;
            while i < list.items.len()
                invariant
                    i <= list.items.len(),
                    runs@.len() == i,
                    forall|j: int|
                        0 <= j < i ==> (#[trigger] runs@[j])@ == feature_events_of(
                            list.items@[j]@,
                        ),
                decreases list.items.len() - i,
            {
                runs.push(feature_events(&list.items[i]));
                i += 1;
            }
        },
    }
    assert(runs_view(runs@) =~= event_runs_of(decoded@));
    runs
}

/// A document of unknown shape is no error: it decodes to nothing, and
/// nothing asks for no event.
pub proof fn lemma_unknown_shape_is_silent(doc: Seq<u8>)
    requires
        sniff_of(doc).0 == DocumentShape::Unknown,
    ensures
        document_of(doc) == Ok::<DecodedView, Failure>(DecodedView::Nothing),
        event_runs_of(DecodedView::Nothing) == Seq::<Seq<Event>>::empty(),
{
}

/// A document whose `type` is none of the three top-level words, or that
/// declares none, is of unknown shape, and so decodes to nothing.
pub proof fn lemma_unknown_type_is_silent(doc: Seq<u8>)
    requires
        match declared_type(whole_value(prelude_text(doc))) {
            Some(name) => name != FEATURE_COLLECTION@ && name != FEATURE@ && name
                != BARE_GEOMETRY@,
            None => true,
        },
    ensures
        sniff_of(doc) == (DocumentShape::Unknown, 0int),
        document_of(doc) == Ok::<DecodedView, Failure>(DecodedView::Nothing),
{
    lemma_unknown_type(doc);
}

/// A feature collection that was read to the `]` of its array asks for one
/// run of events for each element of the array.
pub proof fn lemma_one_run_for_each_element(doc: Seq<u8>)
    requires
        sniff_of(doc).0 == DocumentShape::FeatureCollection,
        elements_from(doc, sniff_of(doc).1) is Some,
        document_of(doc) is Ok,
    ensures
        event_runs_of(document_of(doc)->Ok_0).len() == elements_from(doc, sniff_of(doc).1)->0,
{
    lemma_one_feature_for_each_element(doc, sniff_of(doc).1);
}

} // verus!
