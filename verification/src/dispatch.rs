//! Handing a run of events to a consumer that may stop the decoding.

use vstd::prelude::*;

use crate::events::Event;

verus! {

/// What the consumer said of a call.
#[derive(Debug, Clone, Copy, PartialEq, Eq, Structural)]
pub enum Reply {
    Accepted,
    /// The consumer failed, or asked to stop.
    Refused,
}

/// A run of events on its way to the consumer: which calls were made, and
/// whether the last of them was refused.
#[derive(Debug, PartialEq)]
pub struct Dispatch {
    pub events: Vec<Event>,
    /// The number of calls made so far.
    pub made: usize,
    /// Whether the consumer refused the last call made.
    pub stopped: bool,
}

impl Dispatch {
    /// No more calls were made than there are events, and only a call that
    /// was made can have been refused.
    pub open spec fn is_valid(&self) -> bool {
        self.made <= self.events@.len() && (self.stopped ==> self.made > 0)
    }

    /// The calls made so far: the first `made` events, in order.
    pub open spec fn delivered(&self) -> Seq<Event> {
        self.events@.subrange(0, self.made as int)
    }

    /// The call to make next, if there is one: none once the consumer has
    /// refused a call, and none when every event was delivered.
    pub open spec fn pending_call(&self) -> Option<Event> {
        if self.stopped || self.made >= self.events@.len() {
            None
        } else {
            Some(self.events@[self.made as int])
        }
    }

    /// Starts on a run of events, with no call made.
    pub fn new(events: Vec<Event>) -> (dispatch: Dispatch)
        ensures
            dispatch.is_valid(),
            dispatch.events == events,
            dispatch.made == 0,
            !dispatch.stopped,
            dispatch.delivered() == Seq::<Event>::empty(),
    {
        let dispatch = Dispatch { events, made: 0, stopped: false };
        assert(dispatch.delivered() =~= Seq::<Event>::empty());
        dispatch
    }

    /// The call to make next.
    pub fn pending(&self) -> (call: Option<Event>)
        ensures
            call == self.pending_call(),
            self.stopped ==> call is None,
    {
        if self.stopped || self.made >= self.events.len() {
            None
        } else {
            Some(self.events[self.made])
        }
    }

    /// Takes note of the consumer's reply to the pending call: the call
    /// counts as made, and a refusal stops the run. Where no call is
    /// pending, nothing changes.
    pub fn record(&mut self, reply: Reply)
        ensures
            old(self).is_valid() ==> final(self).is_valid(),
            final(self).events == old(self).events,
            old(self).pending_call() is None ==> *final(self) == *old(self),
            old(self).pending_call() is Some ==> final(self).made == old(self).made + 1
                && final(self).stopped == (reply == Reply::Refused) && final(self).delivered()
                == old(self).delivered().push(old(self).pending_call()->0),
            final(self).stopped ==> final(self).pending_call() is None,
    {
        if !self.stopped && self.made < self.events.len() {
            self.made = self.made + 1;
            self.stopped = match reply {
                Reply::Accepted => false,
                Reply::Refused => true,
            };
            assert(self.delivered() =~= old(self).delivered().push(old(self).pending_call()->0));
        }
    }

    /// How the run ended: `Ok` when no call is pending and none was refused,
    /// else the place of the call that was refused or is still to make.
    pub fn outcome(&self) -> (end: Result<(), usize>)
        ensures
            end is Ok <==> !self.stopped && self.made >= self.events@.len(),
            self.is_valid() ==> match end {
                Ok(()) => self.delivered() == self.events@,
                Err(at) => if self.stopped {
                    at == self.made - 1
                } else {
                    at == self.made
                },
            },
    {
        if self.stopped {
            Err(if self.made > 0 { self.made - 1 } else { 0 })
        } else if self.made < self.events.len() {
            Err(self.made)
        } else {
            assert(self.is_valid() ==> self.delivered() =~= self.events@);
            Ok(())
        }
    }
}

/// Once the consumer has refused a call, no call is pending, and the last
/// call that was delivered is the one it refused.
pub proof fn lemma_nothing_after_refusal(dispatch: Dispatch)
    requires
        dispatch.is_valid(),
        dispatch.stopped,
    ensures
        dispatch.pending_call() is None,
        dispatch.delivered().len() == dispatch.made,
        dispatch.delivered().last() == dispatch.events@[dispatch.made - 1],
{
}

} // verus!
