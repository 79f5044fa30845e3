//! Carrying a script out, one line operation at a time.
//!
//! The driver does not touch the lines. It hands the operation that is due to
//! whoever owns them, is told how that went, and decides what comes next: the
//! following operation, or nothing more, because the script is finished or
//! the hardware has failed. A failure ends the transmission for good; what
//! was already sent stays sent.
//!
//! The chip's acknowledge is read once per byte, at the moment the script
//! says, and is easily missed. By default a byte that was not acknowledged is
//! counted and the transmission goes on; a transmission can also be told to
//! take a missing acknowledge for a failure.

use vstd::prelude::*;
use crate::tm1637::errors::TmError;
use crate::tm1637::mappings::GpioPinValue;
use crate::tm1637::wire::LineOp;

verus! {

/// How one line operation went.
#[derive(Debug, PartialEq, Eq)]
pub enum LineEvent<E> {
    /// The operation was carried out.
    Done,
    /// The data line was read, at this level.
    Sampled(GpioPinValue),
    /// The hardware reported an error.
    Failed(E),
}

/// What a transmission makes of a byte that the chip did not acknowledge.
#[derive(Clone, Copy, Debug, PartialEq, Eq, Structural)]
pub enum AckPolicy {
    /// Count it and go on.
    Tolerate,
    /// End the transmission with an error.
    Require,
}

/// The state of a transmission, as contracts see it.
pub struct TransmissionState {
    /// What is to be sent.
    pub script: Seq<LineOp>,
    /// What a missing acknowledge leads to.
    pub policy: AckPolicy,
    /// How many operations have been carried out.
    pub done: nat,
    /// How many bytes the chip did not acknowledge.
    pub missed_acks: nat,
    /// Whether a hardware failure has ended the transmission.
    pub aborted: bool,
}

impl TransmissionState {
    /// A transmission of `script` of which nothing has been sent yet.
    pub open spec fn fresh(script: Seq<LineOp>, policy: AckPolicy) -> Self {
        TransmissionState { script, policy, done: 0, missed_acks: 0, aborted: false }
    }

    /// The operation that is due, if any.
    pub open spec fn pending(self) -> Option<LineOp> {
        if self.aborted || self.done >= self.script.len() {
            None
        } else {
            Some(self.script[self.done as int])
        }
    }

    /// Whether `event`, as the outcome of `op`, is a missing acknowledge: the
    /// data line was to be read and was not found low.
    pub open spec fn is_missed_ack<E>(op: LineOp, event: LineEvent<E>) -> bool {
        op == LineOp::SampleData && event != LineEvent::<E>::Sampled(GpioPinValue::Low)
    }

    /// What the outcome `event` of the operation that is due ends the
    /// transmission with, if it ends it: the hardware's error, or a missing
    /// acknowledge where the policy requires one.
    pub open spec fn failure_of<E>(self, event: LineEvent<E>) -> Option<TmError<E>> {
        match self.pending() {
            None => None,
            Some(op) => match event {
                LineEvent::Failed(e) => Some(TmError::IO(e)),
                _ => if Self::is_missed_ack(op, event) && self.policy == AckPolicy::Require {
                    Some(TmError::Ack)
                } else {
                    None
                },
            },
        }
    }

    /// The state after the operation that was due went as `event` says. With
    /// nothing due, nothing changes. An operation that the hardware failed
    /// does not count as carried out; a read that found no acknowledge does.
    pub open spec fn after<E>(self, event: LineEvent<E>) -> Self {
        match self.pending() {
            None => self,
            Some(op) => match event {
                LineEvent::Failed(_) => TransmissionState { aborted: true, ..self },
                _ => TransmissionState {
                    done: self.done + 1,
                    missed_acks: if Self::is_missed_ack(op, event) {
                        self.missed_acks + 1
                    } else {
                        self.missed_acks
                    },
                    aborted: Self::is_missed_ack(op, event) && self.policy == AckPolicy::Require,
                    ..self
                },
            },
        }
    }

    /// The state after a run of events, the first of them first.
    pub open spec fn after_all<E>(self, events: Seq<LineEvent<E>>) -> Self
        decreases events.len(),
    {
        if events.len() == 0 {
            self
        } else {
            self.after(events[0]).after_all(events.skip(1))
        }
    }

    /// The operations that have been carried out.
    pub open spec fn sent(self) -> Seq<LineOp> {
        self.script.take(self.done as int)
    }
}

/// A script on its way to the chip.
pub struct Transmission {
    script: Vec<LineOp>,
    policy: AckPolicy,
    done: usize,
    missed_acks: usize,
    aborted: bool,
}

impl View for Transmission {
    type V = TransmissionState;

    closed spec fn view(&self) -> TransmissionState {
        TransmissionState {
            script: self.script@,
            policy: self.policy,
            done: self.done as nat,
            missed_acks: self.missed_acks as nat,
            aborted: self.aborted,
        }
    }
}

impl Transmission {
    #[verifier::type_invariant]
    spec fn well_formed(self) -> bool {
        self.missed_acks <= self.done <= self.script@.len()
    }

    /// A transmission of `script`, of which nothing has been sent yet. It
    /// goes on when the chip does not acknowledge a byte.
    pub fn new(script: Vec<LineOp>) -> (t: Self)
        ensures
            t@ == TransmissionState::fresh(script@, AckPolicy::Tolerate),
    {
        Transmission { script, policy: AckPolicy::Tolerate, done: 0, missed_acks: 0, aborted: false }
    }

    /// A transmission of `script` that treats a missing acknowledge as
    /// `policy` says.
    pub fn with_ack_policy(script: Vec<LineOp>, policy: AckPolicy) -> (t: Self)
        ensures
            t@ == TransmissionState::fresh(script@, policy),
    {
        Transmission { script, policy, done: 0, missed_acks: 0, aborted: false }
    }

    /// The operation to carry out now, or `None` when there is nothing more
    /// to do.
    pub fn pending(&self) -> (op: Option<LineOp>)
        ensures
            op == self@.pending(),
    {
        proof {
            use_type_invariant(self);
        }
        if self.aborted || self.done >= self.script.len() {
            None
        } else {
            Some(self.script[self.done])
        }
    }

    /// Takes note of how the pending operation went and tells what to do
    /// next: `Ok(Some(op))` to carry out `op`, `Ok(None)` when nothing is
    /// left, and the error, once, when the outcome ends the transmission.
    /// After that nothing is pending any more.
    pub fn step<E>(&mut self, event: LineEvent<E>) -> (r: Result<Option<LineOp>, TmError<E>>)
        ensures
            final(self)@ == old(self)@.after(event),
            match r {
                Ok(next) => next == final(self)@.pending() && old(self)@.failure_of(event) is None,
                Err(e) => old(self)@.failure_of(event) == Some(e),
            },
    {
        proof {
            use_type_invariant(&*self);
        }
        if self.aborted || self.done >= self.script.len() {
            return Ok(None);
        }
        let op = self.script[self.done];
        match event {
            LineEvent::Failed(e) => {
                self.aborted = true;
                Err(TmError::from(e))
            },
            LineEvent::Sampled(level) => {
                let missed = op == LineOp::SampleData && level != GpioPinValue::Low;
                self.settle(missed)
            },
            LineEvent::Done => {
                let missed = op == LineOp::SampleData;
                self.settle(missed)
            },
        }
    }

    /// Counts the pending operation as carried out, with or without a missed
    /// acknowledge.
    fn settle<E>(&mut self, missed_ack: bool) -> (r: Result<Option<LineOp>, TmError<E>>)
        requires
            old(self)@.pending() is Some,
        ensures
            final(self)@ == (TransmissionState {
                done: old(self)@.done + 1,
                missed_acks: if missed_ack {
                    old(self)@.missed_acks + 1
                } else {
                    old(self)@.missed_acks
                },
                aborted: missed_ack && old(self)@.policy == AckPolicy::Require,
                ..old(self)@
            }),
            match r {
                Ok(next) => next == final(self)@.pending() && !final(self)@.aborted,
                Err(e) => e == TmError::<E>::Ack && final(self)@.aborted,
            },
    {
        proof {
            use_type_invariant(&*self);
        }
        assert(self.done < self.script.len());
        self.done = self.done + 1;
        if missed_ack {
            self.missed_acks = self.missed_acks + 1;
            if self.policy == AckPolicy::Require {
                self.aborted = true;
                return Err(TmError::Ack);
            }
        }
        Ok(self.pending())
    }

    /// Number of operations carried out so far.
    pub fn performed(&self) -> (n: usize)
        ensures
            n == self@.done,
    {
        self.done
    }

    /// Number of bytes that the chip did not acknowledge so far.
    pub fn missed_acks(&self) -> (n: usize)
        ensures
            n == self@.missed_acks,
    {
        self.missed_acks
    }

    /// Whether a hardware failure has ended the transmission.
    pub fn is_aborted(&self) -> (b: bool)
        ensures
            b == self@.aborted,
    {
        self.aborted
    }

    /// Whether the whole script has been sent.
    pub fn is_complete(&self) -> (b: bool)
        ensures
            b == (self@.done == self@.script.len()),
    {
        proof {
            use_type_invariant(self);
        }
        self.done == self.script.len()
    }
}

/// An aborted transmission has nothing pending, whatever events it is told
/// of.
pub proof fn lemma_aborted_stays_aborted<E>(s: TransmissionState, later: Seq<LineEvent<E>>)
    requires
        s.aborted,
    ensures
        s.pending() is None,
        s.after_all(later) == s,
    decreases later.len(),
{
    if later.len() > 0 {
        assert(s.after(later[0]) == s);
        lemma_aborted_stays_aborted(s, later.skip(1));
    }
}

/// Under the tolerant policy only the hardware can end a transmission.
pub proof fn lemma_missing_ack_is_tolerated<E>(s: TransmissionState, event: LineEvent<E>)
    requires
        s.policy == AckPolicy::Tolerate,
        !(event is Failed),
    ensures
        s.failure_of(event) is None,
        s.after(event).aborted == s.aborted,
{
}

/// After a hardware failure nothing is pending, and no later event changes
/// that: the operations carried out are those before the one that failed.
pub proof fn lemma_failure_ends_transmission<E>(
    s: TransmissionState,
    e: E,
    later: Seq<LineEvent<E>>,
)
    requires
        s.pending() is Some,
    ensures
        s.after(LineEvent::Failed(e)).aborted,
        s.after(LineEvent::Failed(e)).pending() is None,
        s.after(LineEvent::Failed(e)).sent() == s.sent(),
        s.after(LineEvent::Failed(e)).after_all(later) == s.after(LineEvent::Failed(e)),
{
    lemma_aborted_stays_aborted(s.after(LineEvent::Failed(e)), later);
}

/// Under the tolerant policy, a run of events whose first failure is the
/// event at `k`, on a script with more than `k` operations left, carries out
/// exactly `k` more operations and ends aborted, whatever events follow the
/// failure.
pub proof fn lemma_first_failure_stops_the_script<E>(
    s: TransmissionState,
    events: Seq<LineEvent<E>>,
    k: int,
)
    requires
        !s.aborted,
        s.policy == AckPolicy::Tolerate,
        0 <= k < events.len(),
        s.done + k < s.script.len(),
        events[k] is Failed,
        forall|j: int| 0 <= j < k ==> !(#[trigger] events[j] is Failed),
    ensures
        s.after_all(events).aborted,
        s.after_all(events).done == s.done + k,
        s.after_all(events).sent() == s.script.take(s.done + k),
        s.after_all(events).pending() is None,
    decreases k,
{
    if k == 0 {
        lemma_failure_ends_transmission(s, events[0]->Failed_0, events.skip(1));
    } else {
        let next = s.after(events[0]);
        let rest = events.skip(1);
        assert(!(events[0] is Failed));
        assert(rest[k - 1] == events[k]);
        assert forall|j: int| 0 <= j < k - 1 implies !(#[trigger] rest[j] is Failed) by {
            assert(rest[j] == events[j + 1]);
        }
        lemma_first_failure_stops_the_script(next, rest, k - 1);
    }
}

/// Under the tolerant policy, a run of events without a failure, no longer
/// than what is left of the script, carries out one operation for each event.
pub proof fn lemma_events_advance_the_script<E>(s: TransmissionState, events: Seq<LineEvent<E>>)
    requires
        !s.aborted,
        s.policy == AckPolicy::Tolerate,
        s.done + events.len() <= s.script.len(),
        forall|j: int| 0 <= j < events.len() ==> !(#[trigger] events[j] is Failed),
    ensures
        !s.after_all(events).aborted,
        s.after_all(events).done == s.done + events.len(),
        s.after_all(events).script == s.script,
    decreases events.len(),
{
    if events.len() > 0 {
        let next = s.after(events[0]);
        let rest = events.skip(1);
        assert(!(events[0] is Failed));
        assert forall|j: int| 0 <= j < rest.len() implies !(#[trigger] rest[j] is Failed) by {
            assert(rest[j] == events[j + 1]);
        }
        lemma_events_advance_the_script(next, rest);
    }
}

} // verus!
