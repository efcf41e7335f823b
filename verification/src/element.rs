use vstd::prelude::*;

use crate::clock::Clock;

verus! {

/// The four states of the element state machine, ordered
/// NULL < READY < PAUSED < PLAYING.  Requests move one step at a time; a
/// request spanning several steps is decomposed into single steps.
#[derive(Clone, Copy, PartialEq, Eq, Structural, Debug)]
pub enum State {
    Null,
    Ready,
    Paused,
    Playing,
}

/// What a state-change request reports back.
#[derive(Clone, Copy, PartialEq, Eq, Structural, Debug)]
pub enum TransitionResult {
    /// The transition completed synchronously.
    Success,
    /// The transition will complete later; completion arrives as an event.
    Async,
    /// The element is live and cannot pre-roll data before PLAYING.
    NoPreroll,
    /// The element refuses the transition.
    Failure,
}

/// Position of a state in the NULL..PLAYING order.
pub open spec fn ord(s: State) -> int {
    match s {
        State::Null => 0,
        State::Ready => 1,
        State::Paused => 2,
        State::Playing => 3,
    }
}

/// Number of single steps between two states.
pub open spec fn dist(a: State, b: State) -> int {
    if ord(a) <= ord(b) {
        ord(b) - ord(a)
    } else {
        ord(a) - ord(b)
    }
}

/// The state one single step from `from` toward `to`.
pub open spec fn toward(from: State, to: State) -> State
    recommends
        from != to,
{
    if ord(from) < ord(to) {
        match from {
            State::Null => State::Ready,
            State::Ready => State::Paused,
            _ => State::Playing,
        }
    } else {
        match from {
            State::Playing => State::Paused,
            State::Paused => State::Ready,
            _ => State::Null,
        }
    }
}

/// Dominance order on transition results: FAILURE over ASYNC over NO_PREROLL
/// over SUCCESS.
pub open spec fn combine(a: TransitionResult, b: TransitionResult) -> TransitionResult {
    if a == TransitionResult::Failure || b == TransitionResult::Failure {
        TransitionResult::Failure
    } else if a == TransitionResult::Async || b == TransitionResult::Async {
        TransitionResult::Async
    } else if a == TransitionResult::NoPreroll || b == TransitionResult::NoPreroll {
        TransitionResult::NoPreroll
    } else {
        TransitionResult::Success
    }
}

/// A state-machine unit of the graph.
///
/// The behaviour of a concrete element implementation is outside this
/// library; an `Element` value carries the facts the orchestration layer
/// depends on: its identity, its position in the state machine, whether it is
/// live, whether it must pre-roll asynchronously, which transitions it
/// refuses, whether it is a sink, and the clock it offers.
#[derive(Debug)]
pub struct Element {
    /// Identity, unique within the owning container.
    pub name: String,
    /// Current state.
    pub state: State,
    /// Target of an in-flight asynchronous transition, if any.
    pub pending: Option<State>,
    /// A live element cannot pre-roll before PLAYING; every step reaching
    /// PAUSED reports NO_PREROLL.
    pub live: bool,
    /// A non-live element that must pre-roll reports ASYNC when stepped from
    /// READY up to PAUSED, completing later from its own context.
    pub prerolls_async: bool,
    /// The element refuses every step into this state.
    pub refuses: Option<State>,
    /// The clock this element offers to the pipeline, if any.
    pub provided_clock: Option<Clock>,
    /// Sinks are the preferred clock providers of non-live graphs.
    pub sink: bool,
}

/// One element's behaviour for a request toward `target`: single steps in
/// sequence, stopping early at a refusal or at an asynchronous pre-roll.
/// Results of the steps are folded with `combine`.
pub open spec fn elem_step(e: Element, target: State) -> (Element, TransitionResult)
    decreases dist(e.state, target),
{
    if e.state == target {
        (e, TransitionResult::Success)
    } else {
        let n = toward(e.state, target);
        if e.refuses == Some(n) {
            (e, TransitionResult::Failure)
        } else if n == State::Paused && e.live {
            let rest = elem_step(Element { state: State::Paused, ..e }, target);
            (rest.0, combine(TransitionResult::NoPreroll, rest.1))
        } else if n == State::Paused && e.state == State::Ready && e.prerolls_async {
            (Element { pending: Some(target), ..e }, TransitionResult::Async)
        } else {
            let rest = elem_step(Element { state: n, ..e }, target);
            (rest.0, combine(TransitionResult::Success, rest.1))
        }
    }
}

/// A new request discards (preempts) any pending asynchronous completion,
/// then steps toward the new target.
pub open spec fn elem_set_state(e: Element, target: State) -> (Element, TransitionResult) {
    elem_step(Element { pending: None, ..e }, target)
}

/// An asynchronous completion reporting `reported` as the finished target:
/// recorded exactly when it matches the pending target, discarded as stale
/// otherwise.
pub open spec fn elem_complete(e: Element, reported: State) -> (Element, bool) {
    if e.pending == Some(reported) {
        (Element { state: reported, pending: None, ..e }, true)
    } else {
        (e, false)
    }
}

/// Stepping never changes an element's identity or its static configuration.
pub proof fn lemma_elem_step_keeps_config(e: Element, target: State)
    ensures
        elem_step(e, target).0.name == e.name,
        elem_step(e, target).0.live == e.live,
        elem_step(e, target).0.prerolls_async == e.prerolls_async,
        elem_step(e, target).0.refuses == e.refuses,
        elem_step(e, target).0.provided_clock == e.provided_clock,
        elem_step(e, target).0.sink == e.sink,
    decreases dist(e.state, target),
{
    if e.state == target {
    } else {
        let n = toward(e.state, target);
        if e.refuses == Some(n) {
        } else if n == State::Paused && e.live {
            lemma_elem_step_keeps_config(Element { state: State::Paused, ..e }, target);
        } else if n == State::Paused && e.state == State::Ready && e.prerolls_async {
        } else {
            lemma_elem_step_keeps_config(Element { state: n, ..e }, target);
        }
    }
}

/// Exec mirror of `combine`.
pub(crate) fn combine_results(a: TransitionResult, b: TransitionResult) -> (r: TransitionResult)
    ensures
        r == combine(a, b),
{
    if a == TransitionResult::Failure || b == TransitionResult::Failure {
        TransitionResult::Failure
    } else if a == TransitionResult::Async || b == TransitionResult::Async {
        TransitionResult::Async
    } else if a == TransitionResult::NoPreroll || b == TransitionResult::NoPreroll {
        TransitionResult::NoPreroll
    } else {
        TransitionResult::Success
    }
}

/// Exec mirror of `toward`.
fn next_toward(from: State, to: State) -> (r: State)
    requires
        from != to,
    ensures
        r == toward(from, to),
{
    if ord_exec(from) < ord_exec(to) {
        match from {
            State::Null => State::Ready,
            State::Ready => State::Paused,
            _ => State::Playing,
        }
    } else {
        match from {
            State::Playing => State::Paused,
            State::Paused => State::Ready,
            _ => State::Null,
        }
    }
}

/// Exec mirror of `ord`.
pub(crate) fn ord_exec(s: State) -> (r: u8)
    ensures
        r as int == ord(s),
{
    match s {
        State::Null => 0,
        State::Ready => 1,
        State::Paused => 2,
        State::Playing => 3,
    }
}

impl Element {
    /// A fresh element: in NULL, with no pending transition and nothing
    /// refused.
    pub fn new(
        name: String,
        live: bool,
        prerolls_async: bool,
        sink: bool,
        provided_clock: Option<Clock>,
    ) -> (r: Element)
        ensures
            r.name == name,
            r.state == State::Null,
            r.pending is None,
            r.live == live,
            r.prerolls_async == prerolls_async,
            r.sink == sink,
            r.provided_clock == provided_clock,
            r.refuses is None,
    {
        Element {
            name,
            state: State::Null,
            pending: None,
            live,
            prerolls_async,
            refuses: None,
            provided_clock,
            sink,
        }
    }

    /// Configure the element to refuse every step into `s`.
    pub fn refuse_transitions_into(&mut self, s: State)
        ensures
            *final(self) == (Element { refuses: Some(s), ..*old(self) }),
    {
        self.refuses = Some(s);
    }

    fn step_toward(&mut self, target: State) -> (r: TransitionResult)
        ensures
            (*final(self), r) == elem_step(*old(self), target),
        decreases dist(self.state, target),
    {
        if self.state == target {
            TransitionResult::Success
        } else {
            let n = next_toward(self.state, target);
            let refused = match self.refuses {
                Some(s) => s == n,
                None => false,
            };
            if refused {
                TransitionResult::Failure
            } else if n == State::Paused && self.live {
                self.state = State::Paused;
                let rest = self.step_toward(target);
                combine_results(TransitionResult::NoPreroll, rest)
            } else if n == State::Paused && self.state == State::Ready && self.prerolls_async {
                self.pending = Some(target);
                TransitionResult::Async
            } else {
                self.state = n;
                let rest = self.step_toward(target);
                combine_results(TransitionResult::Success, rest)
            }
        }
    }

    /// Request a state change.  Any in-flight asynchronous transition is
    /// preempted: its completion, if it still arrives, reports a stale target
    /// and will be discarded.
    pub fn set_state(&mut self, target: State) -> (r: TransitionResult)
        ensures
            (*final(self), r) == elem_set_state(*old(self), target),
    {
        self.pending = None;
        self.step_toward(target)
    }

    /// An asynchronous completion arriving from the element's own context.
    /// Returns whether the completion was recorded; a completion for a target
    /// other than the pending one is stale and is discarded.
    pub fn complete_async(&mut self, reported: State) -> (r: bool)
        ensures
            (*final(self), r) == elem_complete(*old(self), reported),
    {
        match self.pending {
            Some(p) => {
                if p == reported {
                    self.state = reported;
                    self.pending = None;
                    true
                } else {
                    false
                }
            },
            None => false,
        }
    }
}

} // verus!
