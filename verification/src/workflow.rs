//! What the three identification workflows have in common: their states,
//! the bounded count of failed attempts, and the rule that a workflow has at
//! most one request with the engine at a time.

use crate::entities::criminal::Model;
use vstd::prelude::*;

verus! {

/// The most failed attempts in a row before live scanning gives up.
pub const MAX_ATTEMPTS: u32 = 10;

/// Why a search ended without a record.
#[derive(Debug, Clone, Copy, PartialEq, Eq, Structural)]
pub enum NotFoundReason {
    /// The engine matched the picture to no one.
    NoMatch,
    /// The engine named someone, but the store gave no record: it could not
    /// be asked, it failed, or it has no record under that id.
    LookupError,
}

/// Where an identification stands.
#[derive(Debug, Clone, PartialEq, Eq)]
pub enum WorkflowState {
    /// Nothing asked, nothing shown.
    Idle,
    /// Waiting for the operator or the camera to supply a picture.
    AwaitingInput,
    /// A request is with the engine and its answer is awaited.
    Requesting,
    /// The engine named someone and the store is being asked who that is.
    Identifying,
    /// The person was found in the store.
    Found(Model),
    /// The search ended without a record, for this reason.
    NotFound(NotFoundReason),
}

impl WorkflowState {
    /// A request is with the engine: the next line from it is the answer.
    pub open spec fn awaits_engine(self) -> bool {
        self is Requesting
    }

    /// The identification is under way, with the engine or with the store.
    pub open spec fn is_busy(self) -> bool {
        self is Requesting || self is Identifying
    }

    /// The identification has ended, one way or the other.
    pub open spec fn is_terminal(self) -> bool {
        self is Found || self is NotFound
    }

    /// Why the search ends without a record if it ends now: the store is
    /// to blame once the engine has named someone, the engine before that.
    pub open spec fn miss_reason(self) -> NotFoundReason {
        if self is Identifying {
            NotFoundReason::LookupError
        } else {
            NotFoundReason::NoMatch
        }
    }

    /// Why the search ends without a record if it ends now.
    pub fn reason_of_miss(&self) -> (reason: NotFoundReason)
        ensures
            reason == self.miss_reason(),
    {
        match self {
            WorkflowState::Identifying => NotFoundReason::LookupError,
            _ => NotFoundReason::NoMatch,
        }
    }

    /// Whether a request is with the engine.
    pub fn is_awaiting_engine(&self) -> (b: bool)
        ensures
            b == self.awaits_engine(),
    {
        match self {
            WorkflowState::Requesting => true,
            _ => false,
        }
    }

    /// Whether the identification is under way.
    pub fn busy(&self) -> (b: bool)
        ensures
            b == self.is_busy(),
    {
        match self {
            WorkflowState::Requesting => true,
            WorkflowState::Identifying => true,
            _ => false,
        }
    }

    /// Whether the identification has ended.
    pub fn terminal(&self) -> (b: bool)
        ensures
            b == self.is_terminal(),
    {
        match self {
            WorkflowState::Found(_) => true,
            WorkflowState::NotFound(_) => true,
            _ => false,
        }
    }

    /// The record that was found, if one was.
    pub fn record(&self) -> (r: Option<&Model>)
        ensures
            match r {
                Some(m) => *self == WorkflowState::Found(*m),
                None => !(self is Found),
            },
    {
        match self {
            WorkflowState::Found(m) => Some(m),
            _ => None,
        }
    }
}

/// Counts failed attempts, from 0 up to `MAX_ATTEMPTS` and no further.
#[derive(Debug)]
pub struct AttemptCounter {
    count: u32,
}

impl View for AttemptCounter {
    type V = nat;

    closed spec fn view(&self) -> nat {
        self.count as nat
    }
}

impl AttemptCounter {
    /// The count is within its bound.
    pub open spec fn wf(&self) -> bool {
        self@ <= MAX_ATTEMPTS
    }

    /// A counter at zero.
    pub fn new() -> (counter: Self)
        ensures
            counter@ == 0,
            counter.wf(),
    {
        AttemptCounter { count: 0 }
    }

    /// The number of failed attempts so far.
    pub fn value(&self) -> (n: u32)
        ensures
            n == self@,
    {
        self.count
    }

    /// Whether the bound is reached.
    pub fn is_exhausted(&self) -> (b: bool)
        ensures
            b == (self@ >= MAX_ATTEMPTS),
    {
        self.count >= MAX_ATTEMPTS
    }

    /// Counts one more failed attempt, unless the bound is reached already.
    /// Returns whether the bound is reached now.
    pub fn record_miss(&mut self) -> (exhausted: bool)
        requires
            old(self).wf(),
        ensures
            final(self).wf(),
            final(self)@ == if old(self)@ < MAX_ATTEMPTS {
                old(self)@ + 1
            } else {
                old(self)@
            },
            exhausted == (final(self)@ == MAX_ATTEMPTS),
    {
        if self.count < MAX_ATTEMPTS {
            self.count = self.count + 1;
        }
        self.count == MAX_ATTEMPTS
    }

    /// Back to zero.
    pub fn reset(&mut self)
        ensures
            final(self)@ == 0,
            final(self).wf(),
    {
        self.count = 0;
    }
}

/// One step of a workflow, reduced to what matters for its traffic with the
/// engine: whether a request was outstanding before and after the step,
/// whether the step sent a command, and whether it took in an answer.
pub struct Step {
    pub awaiting_before: bool,
    pub awaiting_after: bool,
    pub sent: bool,
    pub processed: bool,
}

/// A step keeps the discipline of one request at a time if it sends only
/// when nothing is outstanding, takes an answer in only when something is,
/// and lets nothing become outstanding without a send.
pub open spec fn disciplined(s: Step) -> bool {
    &&& s.sent ==> !s.awaiting_before && s.awaiting_after
    &&& s.processed ==> s.awaiting_before && !s.awaiting_after
    &&& !s.sent && s.awaiting_after ==> s.awaiting_before
}

/// A sequence of steps of one workflow: each is disciplined and begins
/// where the one before it ended.
pub open spec fn is_trace(t: Seq<Step>) -> bool {
    &&& forall|i: int| 0 <= i < t.len() ==> disciplined(#[trigger] t[i])
    &&& forall|i: int|
        0 <= i < t.len() - 1 ==> (#[trigger] t[i]).awaiting_after == t[i + 1].awaiting_before
}

/// The number of commands sent in steps `from..to`.
pub open spec fn sent_in(t: Seq<Step>, from: int, to: int) -> nat
    decreases to - from,
{
    if from >= to {
        0
    } else {
        sent_in(t, from, to - 1) + if t[to - 1].sent {
            1nat
        } else {
            0nat
        }
    }
}

/// The number of answers taken in in steps `from..to`.
pub open spec fn processed_in(t: Seq<Step>, from: int, to: int) -> nat
    decreases to - from,
{
    if from >= to {
        0
    } else {
        processed_in(t, from, to - 1) + if t[to - 1].processed {
            1nat
        } else {
            0nat
        }
    }
}

/// Over any stretch of a trace, no more answers are taken in than commands
/// were sent, counting one more if a request was outstanding at the start
/// and one less if one still is at the end.
pub proof fn lemma_answers_bounded_by_commands(t: Seq<Step>, from: int, to: int)
    requires
        is_trace(t),
        0 <= from < to <= t.len(),
    ensures
        processed_in(t, from, to) + (if t[to - 1].awaiting_after {
            1nat
        } else {
            0nat
        }) <= sent_in(t, from, to) + (if t[from].awaiting_before {
            1nat
        } else {
            0nat
        }),
    decreases to - from,
{
    assert(disciplined(t[to - 1]));
    if to - 1 > from {
        lemma_answers_bounded_by_commands(t, from, to - 1);
        assert(t[to - 2].awaiting_after == t[to - 2 + 1].awaiting_before);
    } else {
        assert(sent_in(t, from, to - 1) == 0);
        assert(processed_in(t, from, to - 1) == 0);
    }
}

/// Single outstanding request: between a command and the next command of
/// the same workflow, at most one answer from the engine is taken in.
pub proof fn lemma_one_answer_per_command(t: Seq<Step>, first: int, next: int)
    requires
        is_trace(t),
        0 <= first < next < t.len(),
        t[first].sent,
        t[next].sent,
        forall|k: int| first < k < next ==> !(#[trigger] t[k]).sent,
    ensures
        processed_in(t, first + 1, next) <= 1,
        !t[first].processed,
        !t[next].processed,
{
    assert(disciplined(t[first]));
    assert(disciplined(t[next]));
    if first + 1 < next {
        lemma_answers_bounded_by_commands(t, first + 1, next);
        lemma_no_sends(t, first + 1, next);
        assert(t[first].awaiting_after == t[first + 1].awaiting_before);
    }
}

proof fn lemma_no_sends(t: Seq<Step>, from: int, to: int)
    requires
        0 <= from <= to <= t.len(),
        forall|k: int| from <= k < to ==> !(#[trigger] t[k]).sent,
    ensures
        sent_in(t, from, to) == 0,
    decreases to - from,
{
    if from < to {
        lemma_no_sends(t, from, to - 1);
    }
}

} // verus!
