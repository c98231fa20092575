//! Telling what a document is from its first bytes.

use vstd::prelude::*;

use crate::json::{find_member, member_named, read_whole_value, whole_value, Json};
use crate::words::{
    spells, BARE_GEOMETRY, BRACE_CLOSE, BRACKET_OPEN, DIGIT_ZERO, FEATURE, FEATURE_COLLECTION,
    TYPE,
};

verus! {

/// The number of bytes of a document that are looked at, at most.
pub const PRELUDE_CAP: usize = 1024;

/// What a document is at its top.
#[derive(Debug, Clone, Copy, PartialEq, Eq, Structural)]
pub enum DocumentShape {
    Unknown,
    FeatureCollection,
    Feature,
    Geometry,
}

/// What was found at the head of a document.
#[derive(Debug, Clone, Copy, PartialEq, Eq, Structural)]
pub struct Prelude {
    pub shape: DocumentShape,
    /// Where the elements of the feature array begin: the place right after
    /// its `[`. It is 0 unless the shape is `FeatureCollection`.
    pub offset: usize,
}

/// Where a scan that starts at `at` stops: right after the first `[`, at the
/// end of the document, or at the cap.
pub open spec fn scan_from(doc: Seq<u8>, at: int) -> int
    decreases doc.len() - at,
{
    if at < 0 || at >= doc.len() || at >= PRELUDE_CAP {
        at
    } else if doc[at] == BRACKET_OPEN {
        at + 1
    } else {
        scan_from(doc, at + 1)
    }
}

/// The length of the prelude: the bytes up to and with the first `[`, or all
/// bytes that the cap allows where there is none.
pub open spec fn prelude_len(doc: Seq<u8>) -> int {
    scan_from(doc, 0)
}

/// Whether the prelude ends in `[`.
pub open spec fn array_found(doc: Seq<u8>) -> bool {
    prelude_len(doc) > 0 && doc[prelude_len(doc) - 1] == BRACKET_OPEN
}

/// The prelude made whole: its closing `[` gives way to `0}`, so that an
/// object which the array would have ended closes on a number instead.
pub open spec fn prelude_text(doc: Seq<u8>) -> Seq<u8> {
    if array_found(doc) {
        doc.subrange(0, prelude_len(doc) - 1) + seq![DIGIT_ZERO, BRACE_CLOSE]
    } else {
        doc.subrange(0, prelude_len(doc))
    }
}

/// The string under `type` in `value`, where `value` is an object that has
/// one.
pub open spec fn declared_type(value: Option<Json>) -> Option<Seq<u8>> {
    match value {
        Some(Json::Object(members)) => match member_named(members@, TYPE@) {
            Some(t) => match members@[t].value {
                Json::Text(name) => Some(name@),
                _ => None,
            },
            None => None,
        },
        _ => None,
    }
}

/// The shape that `name` stands for.
pub open spec fn shape_named(name: Seq<u8>) -> DocumentShape {
    if name == FEATURE_COLLECTION@ {
        DocumentShape::FeatureCollection
    } else if name == FEATURE@ {
        DocumentShape::Feature
    } else if name == BARE_GEOMETRY@ {
        DocumentShape::Geometry
    } else {
        DocumentShape::Unknown
    }
}

/// The shape that `value` declares: `Unknown` where it is no object, has no
/// `type`, or has one that is no string or stands for no shape.
pub open spec fn shape_declared(value: Option<Json>) -> DocumentShape {
    match declared_type(value) {
        Some(name) => shape_named(name),
        None => DocumentShape::Unknown,
    }
}

/// The shape and offset to report for a prelude of length `len` that
/// declares `shape`. A feature collection is one only where its array was
/// found, and it alone is given an offset.
pub open spec fn prelude_of(shape: DocumentShape, found: bool, len: int) -> (DocumentShape, int) {
    if shape == DocumentShape::FeatureCollection {
        if found {
            (DocumentShape::FeatureCollection, len)
        } else {
            (DocumentShape::Unknown, 0)
        }
    } else {
        (shape, 0)
    }
}

/// The shape and offset of a document.
pub open spec fn sniff_of(doc: Seq<u8>) -> (DocumentShape, int) {
    prelude_of(
        shape_declared(whole_value(prelude_text(doc))),
        array_found(doc),
        prelude_len(doc),
    )
}

/// A scan stops within the document and the cap.
pub proof fn lemma_scan_from(doc: Seq<u8>, at: int)
    requires
        0 <= at <= doc.len(),
        at <= PRELUDE_CAP,
    ensures
        at <= scan_from(doc, at) <= doc.len(),
        scan_from(doc, at) <= PRELUDE_CAP,
    decreases doc.len() - at,
{
    if at < doc.len() && at < PRELUDE_CAP && doc[at] != BRACKET_OPEN {
        lemma_scan_from(doc, at + 1);
    }
}

/// Copies the bytes of `doc` before `end`.
fn copy_head(doc: &[u8], end: usize) -> (head: Vec<u8>)
    requires
        end <= doc@.len(),
    ensures
        head@ == doc@.subrange(0, end as int),
{
    let mut head: Vec<u8> = Vec::new();
    let mut i: usize = 0;
    while i < end
        invariant
            i <= end <= doc@.len(),
            head@ == doc@.subrange(0, i as int),
        decreases end - i,
    {
        head.push(doc[i]);
        i += 1;
        assert(head@ =~= doc@.subrange(0, i as int));
    }
    head
}

/// Tells which shape `value` declares.
pub fn declared_shape(value: &Option<Json>) -> (shape: DocumentShape)
    ensures
        shape == shape_declared(*value),
{
    match value {
        Some(Json::Object(members)) => match find_member(members, &TYPE) {
            Some(t) => match &members[t].value {
                Json::Text(name) => {
                    if spells(name, &FEATURE_COLLECTION) {
                        DocumentShape::FeatureCollection
                    } else if spells(name, &FEATURE) {
                        DocumentShape::Feature
                    } else if spells(name, &BARE_GEOMETRY) {
                        DocumentShape::Geometry
                    } else {
                        DocumentShape::Unknown
                    }
                },
                _ => DocumentShape::Unknown,
            },
            None => DocumentShape::Unknown,
        },
        _ => DocumentShape::Unknown,
    }
}

/// Tells what to report for a prelude of length `len` that declares `shape`.
pub fn make_prelude(shape: DocumentShape, found: bool, len: usize) -> (prelude: Prelude)
    ensures
        (prelude.shape, prelude.offset as int) == prelude_of(shape, found, len as int),
{
    match shape {
        DocumentShape::FeatureCollection => {
            if found {
                Prelude { shape, offset: len }
            } else {
                Prelude { shape: DocumentShape::Unknown, offset: 0 }
            }
        },
        _ => Prelude { shape, offset: 0 },
    }
}

/// Tells what `doc` is from its prelude alone, and for a feature collection
/// where the elements of its array begin.
pub fn read_geojson_prelude(doc: &[u8]) -> (found: Prelude)
    ensures
        (found.shape, found.offset as int) == sniff_of(doc@),
        found.offset <= doc@.len(),
        found.offset <= PRELUDE_CAP,
        found.offset > 0 <==> found.shape == DocumentShape::FeatureCollection,
        found.offset > 0 ==> doc@[found.offset - 1] == BRACKET_OPEN,
{
    let mut n: usize = 0;
    let mut found = false;
    while n < doc.len() && n < PRELUDE_CAP && !found
        invariant
            n <= doc@.len(),
            n <= PRELUDE_CAP,
            !found ==> scan_from(doc@, 0) == scan_from(doc@, n as int),
            !found ==> forall|j: int| 0 <= j < n ==> doc@[j] != BRACKET_OPEN,
            found ==> n > 0 && scan_from(doc@, 0) == n && doc@[n - 1] == BRACKET_OPEN,
        decreases doc@.len() - n + if found { 0int } else { 1int },
    {
        if doc[n] == BRACKET_OPEN {
            found = true;
        }
        n += 1;
    }
    assert(n == prelude_len(doc@));
    assert(found == array_found(doc@));
    let text = if found {
        let mut head = copy_head(doc, n - 1);
        head.push(DIGIT_ZERO);
        head.push(BRACE_CLOSE);
        assert(head@ =~= prelude_text(doc@));
        head
    } else {
        copy_head(doc, n)
    };
    let value = read_whole_value(text.as_slice());
    make_prelude(declared_shape(&value), found, n)
}

/// A document with no `[` among the bytes that are looked at is never taken
/// for a feature collection, and is given no offset.
pub proof fn lemma_no_bracket_no_offset(doc: Seq<u8>)
    requires
        forall|i: int| 0 <= i < doc.len() && i < PRELUDE_CAP ==> doc[i] != BRACKET_OPEN,
    ensures
        !array_found(doc),
        sniff_of(doc).0 != DocumentShape::FeatureCollection,
        sniff_of(doc).1 == 0,
{
    lemma_scan_from(doc, 0);
}

/// An offset is given only to a feature collection whose array was found,
/// and it is the place right after the `[` of that array; a feature
/// collection is never reported without one.
pub proof fn lemma_offset_follows_array(doc: Seq<u8>)
    ensures
        sniff_of(doc).1 > 0 <==> sniff_of(doc).0 == DocumentShape::FeatureCollection,
        sniff_of(doc).1 > 0 ==> array_found(doc) && sniff_of(doc).1 == prelude_len(doc)
            && doc[sniff_of(doc).1 - 1] == BRACKET_OPEN && declared_type(
            whole_value(prelude_text(doc)),
        ) == Some(FEATURE_COLLECTION@),
        sniff_of(doc).1 <= doc.len(),
        sniff_of(doc).1 <= PRELUDE_CAP,
{
    lemma_scan_from(doc, 0);
}

/// A document whose `type` is none of the three top-level words, or that
/// declares none, has the shape `Unknown` and no offset.
pub proof fn lemma_unknown_type(doc: Seq<u8>)
    requires
        match declared_type(whole_value(prelude_text(doc))) {
            Some(name) => name != FEATURE_COLLECTION@ && name != FEATURE@ && name
                != BARE_GEOMETRY@,
            None => true,
        },
    ensures
        sniff_of(doc) == (DocumentShape::Unknown, 0int),
{
}

} // verus!
