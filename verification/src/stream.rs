//! Reading the features of an array one after the other.

use vstd::prelude::*;
use vstd::slice::slice_subrange;

use crate::feature::{decode_feature, feature_of, Feature, FeatureView};
use crate::geometry::Error;
use crate::json::{leading_value, read_leading_value, Json};
use crate::words::{blank, is_blank, BRACKET_CLOSE, COMMA};

verus! {

/// An error, and the place in the document of the element that gave it.
#[derive(Debug, Clone, Copy, PartialEq, Eq, Structural)]
pub struct Failure {
    pub error: Error,
    pub offset: usize,
}

/// What one step of the reading found.
#[derive(Debug, PartialEq)]
pub enum Step {
    /// A feature; the reading goes on at `next`.
    Item { feature: Feature, next: usize },
    /// No further feature: the array was closed by `]`, or the document
    /// ended before it was.
    End { closed: bool },
}

/// What a `Step` holds.
pub ghost enum StepView {
    Item { feature: FeatureView, next: int },
    End { closed: bool },
}

/// The features of an array, in order.
#[derive(Debug, PartialEq)]
pub struct FeatureList {
    pub items: Vec<Feature>,
    /// Whether the array was closed by `]`; if not, the document ended
    /// first.
    pub closed: bool,
}

/// What a vector of features holds.
pub open spec fn features_view(items: Seq<Feature>) -> Seq<FeatureView> {
    Seq::new(items.len(), |i: int| items[i]@)
}

/// The first place at or after `at` that holds no white space.
pub open spec fn skip_blank(doc: Seq<u8>, at: int) -> int
    decreases doc.len() - at,
{
    if 0 <= at < doc.len() && is_blank(doc[at]) {
        skip_blank(doc, at + 1)
    } else {
        at
    }
}

/// Where the next element starts: white space is passed over, and one comma
/// with the white space after it.
pub open spec fn element_start(doc: Seq<u8>, at: int) -> int {
    let p = skip_blank(doc, at);
    if 0 <= p < doc.len() && doc[p] == COMMA {
        skip_blank(doc, p + 1)
    } else {
        p
    }
}

/// The feature that a reading `found` of the element at `start` gives, in a
/// document of `len` bytes, and the place after it. The reading must have
/// taken at least one byte and none beyond the document, and its value must
/// spell a feature; else the error is given with `start`.
pub open spec fn element_of(len: int, start: int, found: Option<(Json, nat)>) -> Result<
    (FeatureView, int),
    Failure,
> {
    match found {
        None => Err(Failure { error: Error::Decode, offset: start as usize }),
        Some((value, taken)) => if taken == 0 || start + taken > len {
            Err(Failure { error: Error::Decode, offset: start as usize })
        } else {
            match feature_of(value) {
                Err(error) => Err(Failure { error, offset: start as usize }),
                Ok(feature) => Ok((feature, start + taken)),
            }
        },
    }
}

/// One step of the reading, from `at`. At the end of the document the
/// reading ends unclosed; at `]` it ends closed. Anything else must be a JSON
/// value that spells a feature; where it is not, the error is given with the
/// place at which the element starts.
pub open spec fn step_of(doc: Seq<u8>, at: int) -> Result<StepView, Failure> {
    let start = element_start(doc, at);
    if start < 0 || start >= doc.len() {
        Ok(StepView::End { closed: false })
    } else if doc[start] == BRACKET_CLOSE {
        Ok(StepView::End { closed: true })
    } else {
        match element_of(
            doc.len() as int,
            start,
            leading_value(doc.subrange(start, doc.len() as int)),
        ) {
            Ok((feature, next)) => Ok(StepView::Item { feature, next }),
            Err(failure) => Err(failure),
        }
    }
}

/// `head` put before the features of `tail`, where `tail` has any.
pub open spec fn prepend(
    head: Seq<FeatureView>,
    tail: Result<(Seq<FeatureView>, bool), Failure>,
) -> Result<(Seq<FeatureView>, bool), Failure> {
    match tail {
        Ok((rest, closed)) => Ok((head + rest, closed)),
        Err(failure) => Err(failure),
    }
}

/// All features from `at` on, and whether the array was closed: the steps
/// taken one after the other until one ends the reading or fails. The first
/// failure is the result of the whole.
pub open spec fn features_from(doc: Seq<u8>, at: int) -> Result<(Seq<FeatureView>, bool), Failure>
    decreases doc.len() - at,
    via features_from_decreases
{
    match step_of(doc, at) {
        Err(failure) => Err(failure),
        Ok(StepView::End { closed }) => Ok((Seq::empty(), closed)),
        Ok(StepView::Item { feature, next }) => prepend(seq![feature], features_from(doc, next)),
    }
}

#[via_fn]
proof fn features_from_decreases(doc: Seq<u8>, at: int) {
    lemma_step_advances(doc, at);
}

/// White space is passed over forwards, and not beyond the end of the
/// document.
pub proof fn lemma_skip_blank(doc: Seq<u8>, at: int)
    ensures
        at <= skip_blank(doc, at),
        at <= doc.len() ==> skip_blank(doc, at) <= doc.len(),
    decreases doc.len() - at,
{
    if 0 <= at < doc.len() && is_blank(doc[at]) {
        lemma_skip_blank(doc, at + 1);
    }
}

/// A step that finds a feature goes on after the place it started from, and
/// within the document.
pub proof fn lemma_step_advances(doc: Seq<u8>, at: int)
    ensures
        match step_of(doc, at) {
            Ok(StepView::Item { feature, next }) => at < next <= doc.len(),
            _ => true,
        },
{
    lemma_skip_blank(doc, at);
    lemma_skip_blank(doc, skip_blank(doc, at) + 1);
}

/// Passes over white space.
fn skip_blanks(doc: &[u8], at: usize) -> (stop: usize)
    ensures
        stop == skip_blank(doc@, at as int),
        at <= stop,
        at <= doc@.len() ==> stop <= doc@.len(),
{
    let mut i: usize = at;
    while i < doc.len() && blank(doc[i])
        invariant
            at <= i,
            at <= doc@.len() ==> i <= doc@.len(),
            skip_blank(doc@, at as int) == skip_blank(doc@, i as int),
        decreases doc@.len() - i,
    {
        i += 1;
    }
    i
}

/// Decodes the feature that a reading `found` of the element at `start`
/// gives, in a document of `len` bytes, and tells the place after it.
pub fn take_element(len: usize, start: usize, found: Option<(Json, usize)>) -> (element: Result<
    (Feature, usize),
    Failure,
>)
    ensures
        match element {
            Ok((feature, next)) => element_of(
                len as int,
                start as int,
                match found {
                    Some((value, taken)) => Some((value, taken as nat)),
                    None => None,
                },
            ) == Ok::<(FeatureView, int), Failure>((feature@, next as int)) && start < next
                <= len,
            Err(failure) => element_of(
                len as int,
                start as int,
                match found {
                    Some((value, taken)) => Some((value, taken as nat)),
                    None => None,
                },
            ) == Err::<(FeatureView, int), Failure>(failure),
        },
{
    match found {
        None => Err(Failure { error: Error::Decode, offset: start }),
        Some((value, taken)) => {
            if taken == 0 || start > len || taken > len - start {
                return Err(Failure { error: Error::Decode, offset: start });
            }
            match decode_feature(value) {
                Err(error) => Err(Failure { error, offset: start }),
                Ok(feature) => Ok((feature, start + taken)),
            }
        },
    }
}

/// Takes one step of the reading, from `at`.
pub fn next_feature(doc: &[u8], at: usize) -> (found: Result<Step, Failure>)
    ensures
        match found {
            Ok(Step::Item { feature, next }) => step_of(doc@, at as int) == Ok::<
                StepView,
                Failure,
            >(StepView::Item { feature: feature@, next: next as int }) && at < next <= doc@.len(),
            Ok(Step::End { closed }) => step_of(doc@, at as int) == Ok::<StepView, Failure>(
                StepView::End { closed },
            ),
            Err(failure) => step_of(doc@, at as int) == Err::<StepView, Failure>(failure),
        },
{
    let mut start = skip_blanks(doc, at);
    if start < doc.len() && doc[start] == COMMA {
        start = skip_blanks(doc, start + 1);
    }
    if start >= doc.len() {
        return Ok(Step::End { closed: false });
    }
    if doc[start] == BRACKET_CLOSE {
        return Ok(Step::End { closed: true });
    }
    let rest = slice_subrange(doc, start, doc.len());
    match take_element(doc.len(), start, read_leading_value(rest)) {
        Ok((feature, next)) => Ok(Step::Item { feature, next }),
        Err(failure) => Err(failure),
    }
}

/// Reads all features from `offset` on: those of an array up to its `]`, or,
/// where the document ends first, those that stand one after the other up to
/// its end, with or without commas between them. The first element that is
/// no feature ends the reading with its error.
pub fn read_features(doc: &[u8], offset: usize) -> (found: Result<FeatureList, Failure>)
    ensures
        match found {
            Ok(list) => features_from(doc@, offset as int) == Ok::<
                (Seq<FeatureView>, bool),
                Failure,
            >((features_view(list.items@), list.closed)),
            Err(failure) => features_from(doc@, offset as int) == Err::<
                (Seq<FeatureView>, bool),
                Failure,
            >(failure),
        },
{
    let mut items: Vec<Feature> = Vec::new();
    let mut at: usize = offset;
    proof {
        lemma_prepend_nothing(features_from(doc@, offset as int));
        assert(features_view(items@) =~= Seq::<FeatureView>::empty());
    }
    loop
        invariant
            features_from(doc@, offset as int) == prepend(
                features_view(items@),
                features_from(doc@, at as int),
            ),
        decreases doc@.len() - at,
    {
        let ghost before = features_view(items@);
        match next_feature(doc, at) {
            Err(failure) => {
                return Err(failure);
            },
            Ok(Step::End { closed }) => {
                assert(before + Seq::<FeatureView>::empty() =~= before);
                return Ok(FeatureList { items, closed });
            },
            Ok(Step::Item { feature, next }) => {
                proof {
                    lemma_prepend_one(before, feature@, features_from(doc@, next as int));
                }
                items.push(feature);
                assert(features_view(items@) =~= before.push(feature@));
                at = next;
            },
        }
    }
}

/// Nothing put before a result leaves it as it is.
pub proof fn lemma_prepend_nothing(tail: Result<(Seq<FeatureView>, bool), Failure>)
    ensures
        prepend(Seq::empty(), tail) == tail,
{
    match tail {
        Ok((rest, closed)) => {
            assert(Seq::<FeatureView>::empty() + rest =~= rest);
        },
        Err(_) => {},
    }
}

/// To put `head` before what starts with `feature` is to put `head` with
/// `feature` before the rest.
pub proof fn lemma_prepend_one(
    head: Seq<FeatureView>,
    feature: FeatureView,
    tail: Result<(Seq<FeatureView>, bool), Failure>,
)
    ensures
        prepend(head, prepend(seq![feature], tail)) == prepend(head.push(feature), tail),
{
    match tail {
        Ok((rest, closed)) => {
            assert(head + (seq![feature] + rest) =~= head.push(feature) + rest);
        },
        Err(_) => {},
    }
}

/// The number of JSON values that stand from `at` on, up to the `]` that
/// closes the array; `None` where the document ends, or something that is no
/// JSON value stands, before a `]`.
pub open spec fn elements_from(doc: Seq<u8>, at: int) -> Option<nat>
    decreases doc.len() - at,
    via elements_from_decreases
{
    let start = element_start(doc, at);
    if start < 0 || start >= doc.len() {
        None
    } else if doc[start] == BRACKET_CLOSE {
        Some(0)
    } else {
        match leading_value(doc.subrange(start, doc.len() as int)) {
            None => None,
            Some((value, taken)) => if taken == 0 || start + taken > doc.len() {
                None
            } else {
                match elements_from(doc, start + taken) {
                    Some(count) => Some(count + 1),
                    None => None,
                }
            },
        }
    }
}

#[via_fn]
proof fn elements_from_decreases(doc: Seq<u8>, at: int) {
    lemma_skip_blank(doc, at);
    lemma_skip_blank(doc, skip_blank(doc, at) + 1);
}

/// Where the reading succeeds on an array that is closed, it gives exactly
/// as many features as the array has elements; and it says that the array
/// was closed exactly where it is.
pub proof fn lemma_one_feature_for_each_element(doc: Seq<u8>, at: int)
    ensures
        match (features_from(doc, at), elements_from(doc, at)) {
            (Ok((items, closed)), Some(count)) => closed && items.len() == count,
            (Ok((items, closed)), None) => !closed,
            (Err(_), _) => true,
        },
    decreases doc.len() - at,
{
    lemma_step_advances(doc, at);
    match step_of(doc, at) {
        Ok(StepView::Item { feature, next }) => {
            lemma_one_feature_for_each_element(doc, next);
        },
        _ => {},
    }
}

/// The first step that fails ends the reading with its failure: whether it
/// is the step at `at`, or any later one after features that were read.
pub proof fn lemma_failure_ends_reading(doc: Seq<u8>, at: int)
    ensures
        match step_of(doc, at) {
            Err(failure) => features_from(doc, at) == Err::<(Seq<FeatureView>, bool), Failure>(
                failure,
            ),
            Ok(StepView::Item { feature, next }) => match features_from(doc, next) {
                Err(failure) => features_from(doc, at) == Err::<
                    (Seq<FeatureView>, bool),
                    Failure,
                >(failure),
                Ok((rest, closed)) => features_from(doc, at) == Ok::<
                    (Seq<FeatureView>, bool),
                    Failure,
                >((seq![feature] + rest, closed)),
            },
            Ok(StepView::End { closed }) => features_from(doc, at) == Ok::<
                (Seq<FeatureView>, bool),
                Failure,
            >((Seq::empty(), closed)),
        },
{
}

} // verus!
