use vstd::prelude::*;

use crate::bin::{opt_name_is, propagate, Bin};
use crate::bus::{is_error_from, is_state_changed_from, Bus, Message};
use crate::clock::{Clock, CLOCK_TIME_NONE, SYSTEM_CLOCK_ID};
use crate::element::{elem_complete, elem_set_state, ord, ord_exec, Element, State, TransitionResult};
use crate::error::Error;
use crate::parse::{parse_desc, parse_description, views_of, PARSE_ERROR_DOMAIN};
use vstd::string::StringExecFns;

verus! {

/// Numeric code of the error reported when a description names the same
/// element twice; never zero.
pub const DUPLICATE_NAME_CODE: u64 = 2;

/// Whether a request from `from` to `to` crosses the PAUSED→PLAYING edge
/// upward; that edge is where clock selection and base-time computation run.
pub open spec fn enters_playing(from: State, to: State) -> bool {
    ord(from) <= 2 && to == State::Playing
}

/// The accumulated running time the pipeline carries into the PAUSED→PLAYING
/// edge: a climb out of NULL passes through READY, which resets it.
pub open spec fn acc_at_play_edge(from: State, acc: int) -> int {
    if from == State::Null {
        0
    } else {
        acc
    }
}

/// The running time under a base time: the difference between the clock
/// sample and the base time, clamped at zero.  Inside the grace period the
/// delay opens — while the sample still lies before the base time — the
/// running time is zero; it is never negative.
pub open spec fn running_time_spec(base_time: int, now: int) -> int {
    if now >= base_time {
        now - base_time
    } else {
        0
    }
}

/// Accumulated running time after a request from `from` to `to` at clock
/// sample `now`: reaching or passing READY resets it to zero, stopping at
/// PAUSED out of PLAYING samples the running time, and anything else keeps
/// it.
pub open spec fn acc_after(from: State, to: State, base_time: int, acc: int, now: int) -> int {
    if ord(to) <= 1 {
        0
    } else if from == State::Null {
        0
    } else if from == State::Playing && to == State::Paused {
        running_time_spec(base_time, now)
    } else {
        acc
    }
}

/// Base time after the request: recomputed only at the PAUSED→PLAYING edge.
/// The delay is added to the base time, so every element gets a grace
/// period: the running time stays at zero and returns to the accumulated
/// value only after the delay has elapsed.
pub open spec fn base_after(
    from: State,
    to: State,
    base_time: int,
    acc: int,
    delay: int,
    now: int,
) -> int {
    if enters_playing(from, to) {
        now - acc_at_play_edge(from, acc) + delay
    } else {
        base_time
    }
}

/// Index of the most upstream element at or after `i` that is live and
/// provides a clock, or the length when there is none.
pub open spec fn live_clock_from(cs: Seq<Element>, i: int) -> int
    decreases cs.len() - i,
{
    if i < 0 || i >= cs.len() {
        cs.len() as int
    } else if cs[i].live && cs[i].provided_clock is Some {
        i
    } else {
        live_clock_from(cs, i + 1)
    }
}

/// Index of the most downstream sink strictly before `j` that provides a
/// clock, or -1 when there is none.
pub open spec fn sink_clock_below(cs: Seq<Element>, j: int) -> int
    decreases j,
{
    if j <= 0 || j > cs.len() {
        -1
    } else if cs[j - 1].sink && cs[j - 1].provided_clock is Some {
        j - 1
    } else {
        sink_clock_below(cs, j - 1)
    }
}

/// The clock automatic selection picks: the most upstream live provider's
/// clock if any element is live and provides one, else the most downstream
/// clock-providing sink's, else the default system clock.
pub open spec fn auto_selected_clock(cs: Seq<Element>) -> Clock {
    let li = live_clock_from(cs, 0);
    let si = sink_clock_below(cs, cs.len() as int);
    if li < cs.len() {
        cs[li].provided_clock.unwrap()
    } else if si >= 0 {
        cs[si].provided_clock.unwrap()
    } else {
        Clock { id: SYSTEM_CLOCK_ID }
    }
}

/// The governing clock after a request: reselected only at the
/// PAUSED→PLAYING edge, where a pinned clock always wins over automatic
/// selection.
pub open spec fn selected_after(
    from: State,
    to: State,
    pinned: Option<Clock>,
    selected: Clock,
    cs: Seq<Element>,
) -> Clock {
    if enters_playing(from, to) {
        match pinned {
            Some(c) => c,
            None => auto_selected_clock(cs),
        }
    } else {
        selected
    }
}

/// The bus contents after a successful request: reaching NULL with
/// auto-flush enabled drains the queue; everything else leaves it alone.
pub open spec fn bus_after(q: Seq<Message>, to: State, auto_flush: bool) -> Seq<Message> {
    if to == State::Null && auto_flush {
        Seq::<Message>::empty()
    } else {
        q
    }
}

/// No two of the names are the same.
pub open spec fn distinct_names(ns: Seq<Seq<char>>) -> bool {
    forall|i: int, j: int| 0 <= i < j < ns.len() ==> ns[i] != ns[j]
}

/// The top of the composition: a container that additionally owns the bus,
/// manages clock selection, and keeps the running-time bookkeeping for its
/// whole subgraph.
pub struct Pipeline {
    /// The container of the element graph, with the committed state.
    pub bin: Bin,
    /// The ordered event channel from the elements to the controlling
    /// context.
    pub bus: Bus,
    /// The explicitly pinned clock; `None` while automatic selection is
    /// enabled.
    pub pinned_clock: Option<Clock>,
    /// The clock governing playback; exactly one governs at any instant.
    pub selected_clock: Clock,
    /// Offset subtracted from clock samples to yield the running time.
    pub base_time: u64,
    /// Running time recorded at the last PLAYING→PAUSED transition, zero
    /// after READY or a flush.
    pub accumulated_running_time: u64,
    /// Extra offset added to the base time at the PAUSED→PLAYING edge, the
    /// grace period every element gets before the running time advances;
    /// never the unset sentinel.
    pub delay: u64,
    /// Whether the bus is drained automatically on the transition to NULL.
    pub auto_flush_bus: bool,
    /// The latest clock sample this pipeline has seen; samples are
    /// monotonic.
    pub last_sample: u64,
}

/// The bookkeeping fields two pipeline values share.
pub open spec fn same_bookkeeping(a: Pipeline, b: Pipeline) -> bool {
    &&& a.pinned_clock == b.pinned_clock
    &&& a.selected_clock == b.selected_clock
    &&& a.base_time == b.base_time
    &&& a.accumulated_running_time == b.accumulated_running_time
    &&& a.delay == b.delay
    &&& a.auto_flush_bus == b.auto_flush_bus
    &&& a.last_sample == b.last_sample
}

/// What a freshly created pipeline looks like.
pub open spec fn fresh_spec(p: Pipeline, name: Seq<char>) -> bool {
    &&& p.bin.name@ == name
    &&& p.bin.state == State::Null
    &&& p.bin.children@.len() == 0
    &&& p.bin.refusing_child is None
    &&& p.bus@.len() == 0
    &&& p.pinned_clock is None
    &&& p.selected_clock.id == SYSTEM_CLOCK_ID
    &&& p.base_time == 0
    &&& p.accumulated_running_time == 0
    &&& p.delay == 0
    &&& p.auto_flush_bus
    &&& p.last_sample == 0
    &&& p.wf()
}

/// The properties of `live_clock_from`: it finds the most upstream live
/// clock provider at or after `i`, or reports the length when none exists.
pub proof fn lemma_live_clock_from_props(cs: Seq<Element>, i: int)
    requires
        0 <= i <= cs.len(),
    ensures
        ({
            let li = live_clock_from(cs, i);
            &&& i <= li <= cs.len()
            &&& (li < cs.len() ==> cs[li].live && cs[li].provided_clock is Some)
            &&& forall|k: int| i <= k < li ==> !((#[trigger] cs[k]).live && cs[k].provided_clock is Some)
            &&& (li == cs.len() ==> forall|k: int|
                i <= k < cs.len() ==> !((#[trigger] cs[k]).live && cs[k].provided_clock is Some))
        }),
    decreases cs.len() - i,
{
    if i >= cs.len() {
    } else if cs[i].live && cs[i].provided_clock is Some {
    } else {
        lemma_live_clock_from_props(cs, i + 1);
    }
}

fn select_clock(cs: &Vec<Element>) -> (r: Clock)
    ensures
        r == auto_selected_clock(cs@),
{
    let n = cs.len();
    let mut i: usize = 0;
    while i < n
        invariant
            n == cs@.len(),
            i <= n,
            live_clock_from(cs@, 0) == live_clock_from(cs@, i as int),
        decreases n - i,
    {
        if cs[i].live {
            match cs[i].provided_clock {
                Some(c) => {
                    return c;
                },
                None => {},
            }
        }
        i += 1;
    }
    let mut j: usize = n;
    while j > 0
        invariant
            n == cs@.len(),
            j <= n,
            live_clock_from(cs@, 0) == n as int,
            sink_clock_below(cs@, n as int) == sink_clock_below(cs@, j as int),
        decreases j,
    {
        if cs[j - 1].sink {
            match cs[j - 1].provided_clock {
                Some(c) => {
                    return c;
                },
                None => {},
            }
        }
        j -= 1;
    }
    Clock::system()
}

impl Pipeline {
    /// Well-formed: the graph's children are unique by identity, the delay
    /// never holds the unset sentinel, and the accumulated running time is
    /// zero at or below READY and never runs ahead of the clock.
    pub open spec fn wf(&self) -> bool {
        &&& self.bin.wf()
        &&& self.delay < CLOCK_TIME_NONE
        &&& (ord(self.bin.state) <= 1 ==> self.accumulated_running_time == 0)
        &&& self.accumulated_running_time <= self.last_sample
    }

    /// Create a pipeline with the given name: empty, in NULL, with an empty
    /// bus, automatic clock selection, no delay, and auto-flush enabled.
    /// Nothing can fail to allocate in this model, so the pipeline is always
    /// handed back.
    pub fn new(name: &str) -> (r: Option<Pipeline>)
        ensures
            r is Some,
            fresh_spec(r.unwrap(), name@),
    {
        Some(
            Pipeline {
                bin: Bin::new(name.to_owned()),
                bus: Bus::new(),
                pinned_clock: None,
                selected_clock: Clock::system(),
                base_time: 0,
                accumulated_running_time: 0,
                delay: 0,
                auto_flush_bus: true,
                last_sample: 0,
            },
        )
    }

    /// Build a pipeline from a textual graph description: the named
    /// elements, upstream first, each starting in NULL with no special
    /// behaviour.  Element names are identities, so a well-formed
    /// description names distinct elements.  On a malformed description, or
    /// one with a repeated name, a parse error with a non-zero code comes
    /// back and nothing is left half-built.
    pub fn new_from_str(text: &str) -> (r: Result<Pipeline, Error>)
        ensures
            match r {
                Ok(p) => {
                    &&& parse_desc(text@) is Some
                    &&& distinct_names(parse_desc(text@).unwrap())
                    &&& p.wf()
                    &&& p.bin.state == State::Null
                    &&& p.bus@.len() == 0
                    &&& p.pinned_clock is None
                    &&& p.selected_clock.id == SYSTEM_CLOCK_ID
                    &&& p.base_time == 0
                    &&& p.accumulated_running_time == 0
                    &&& p.delay == 0
                    &&& p.auto_flush_bus
                    &&& p.last_sample == 0
                    &&& p.bin.children@.len() == parse_desc(text@).unwrap().len()
                    &&& forall|k: int|
                        0 <= k < p.bin.children@.len() ==> ({
                            let e = #[trigger] p.bin.children@[k];
                            &&& e.name@ == parse_desc(text@).unwrap()[k]
                            &&& e.state == State::Null
                            &&& e.pending is None
                            &&& !e.live
                            &&& !e.prerolls_async
                            &&& e.refuses is None
                            &&& e.provided_clock is None
                            &&& !e.sink
                        })
                },
                Err(e) => {
                    &&& (parse_desc(text@) is None || !distinct_names(parse_desc(text@).unwrap()))
                    &&& (e matches Error::Parse { code, .. } && code != 0)
                },
            },
    {
        let names = match parse_description(text) {
            Err(e) => {
                return Err(e);
            },
            Ok(names) => names,
        };
        let mut p = match Pipeline::new("pipeline") {
            Some(p) => p,
            None => {
                proof {
                    assert(false);
                }
                return Err(
                    Error::Parse {
                        domain: PARSE_ERROR_DOMAIN,
                        code: DUPLICATE_NAME_CODE,
                        message: String::new(),
                    },
                );
            },
        };
        let n = names.len();
        let mut i: usize = 0;
        while i < n
            invariant
                n == names@.len(),
                i <= n,
                parse_desc(text@) == Some(views_of(names@)),
                p.wf(),
                p.bin.state == State::Null,
                p.bin.refusing_child is None,
                p.bus@.len() == 0,
                p.pinned_clock is None,
                p.selected_clock.id == SYSTEM_CLOCK_ID,
                p.base_time == 0,
                p.accumulated_running_time == 0,
                p.delay == 0,
                p.auto_flush_bus,
                p.last_sample == 0,
                p.bin.children@.len() == i,
                forall|k: int|
                    0 <= k < i ==> ({
                        let e = #[trigger] p.bin.children@[k];
                        &&& e.name@ == views_of(names@)[k]
                        &&& e.state == State::Null
                        &&& e.pending is None
                        &&& !e.live
                        &&& !e.prerolls_async
                        &&& e.refuses is None
                        &&& e.provided_clock is None
                        &&& !e.sink
                    }),
            decreases n - i,
        {
            let e = Element::new(names[i].clone(), false, false, false, None);
            proof {
                assert(elem_set_state(e, State::Null).0 == e);
            }
            match p.bin.add(e) {
                Ok(_) => {},
                Err(e) => {
                    proof {
                        let k = choose|k: int|
                            0 <= k < p.bin.children@.len() && p.bin.children@[k].name@ == e.name@;
                        assert(views_of(names@)[k] == views_of(names@)[i as int]);
                        assert(!distinct_names(views_of(names@)));
                    }
                    return Err(
                        Error::Parse {
                            domain: PARSE_ERROR_DOMAIN,
                            code: DUPLICATE_NAME_CODE,
                            message: "description names the same element twice".to_owned(),
                        },
                    );
                },
            }
            i += 1;
        }
        proof {
            assert forall|a: int, b: int| 0 <= a < b < views_of(names@).len() implies views_of(
                names@,
            )[a] != views_of(names@)[b] by {
                assert(p.bin.children@[a].name@ == views_of(names@)[a]);
                assert(p.bin.children@[b].name@ == views_of(names@)[b]);
            }
        }
        Ok(p)
    }

    /// The bus of this pipeline, for inspection by the controlling context.
    pub fn bus(&self) -> (r: &Bus)
        ensures
            r@ == self.bus@,
    {
        &self.bus
    }

    /// Post a message on behalf of an element's execution context.
    pub fn post_message(&mut self, m: Message)
        ensures
            final(self).bus@ == old(self).bus@.push(m),
            final(self).bin == old(self).bin,
            same_bookkeeping(*final(self), *old(self)),
    {
        self.bus.post(m);
    }

    /// Read the oldest waiting message, if any, without blocking.
    pub fn pop_message(&mut self) -> (r: Option<Message>)
        ensures
            old(self).bus@.len() == 0 ==> r is None && final(self).bus@ == old(self).bus@,
            old(self).bus@.len() > 0 ==> r == Some(old(self).bus@.first()) && final(self).bus@
                == old(self).bus@.drop_first(),
            final(self).bin == old(self).bin,
            same_bookkeeping(*final(self), *old(self)),
    {
        self.bus.try_pop()
    }

    /// The configured delay.
    pub fn delay(&self) -> (r: u64)
        ensures
            r == self.delay,
    {
        self.delay
    }

    /// Set the expected delay the elements need for the PAUSED→PLAYING
    /// change; it is added to the base time at that edge, so the elements
    /// wait that much before the running time advances.  The unset sentinel
    /// is not a delay.
    pub fn set_delay(&mut self, delay: u64)
        requires
            delay != CLOCK_TIME_NONE,
        ensures
            *final(self) == (Pipeline { delay, ..*old(self) }),
    {
        self.delay = delay;
    }

    /// Pin an explicit clock: it governs from now on and automatic selection
    /// is disabled until `auto_clock` restores it.
    pub fn use_clock(&mut self, c: Clock)
        ensures
            *final(self) == (Pipeline { pinned_clock: Some(c), selected_clock: c, ..*old(self) }),
    {
        self.pinned_clock = Some(c);
        self.selected_clock = c;
    }

    /// Restore automatic clock selection, which runs again on the next
    /// PAUSED→PLAYING transition.
    pub fn auto_clock(&mut self)
        ensures
            *final(self) == (Pipeline { pinned_clock: None, ..*old(self) }),
    {
        self.pinned_clock = None;
    }

    /// Choose whether the bus is drained automatically on the transition to
    /// NULL.
    pub fn set_auto_flush_bus(&mut self, flush: bool)
        ensures
            *final(self) == (Pipeline { auto_flush_bus: flush, ..*old(self) }),
    {
        self.auto_flush_bus = flush;
    }

    /// Request a state change at clock sample `now` and propagate it to
    /// every child.  Unless a child refuses, the target becomes the
    /// committed state and the bookkeeping moves across the edges the
    /// request crosses: clock selection and base time at PAUSED→PLAYING,
    /// sampling the running time at PLAYING→PAUSED, the reset at READY, and
    /// the automatic bus flush at NULL.  When a child refuses, the pipeline
    /// keeps its state and bookkeeping and an error message naming the
    /// refusing child is posted.
    pub fn set_state(&mut self, target: State, now: u64) -> (r: TransitionResult)
        requires
            old(self).wf(),
            now >= old(self).last_sample,
            enters_playing(old(self).bin.state, target) ==> now - acc_at_play_edge(
                old(self).bin.state,
                old(self).accumulated_running_time as int,
            ) + old(self).delay <= u64::MAX,
        ensures
            final(self).wf(),
            ({
                let from = old(self).bin.state;
                let s = propagate(old(self).bin.children@, target);
                &&& r == s.1
                &&& final(self).bin.children@ == s.0
                &&& final(self).bin.name == old(self).bin.name
                &&& final(self).delay == old(self).delay
                &&& final(self).pinned_clock == old(self).pinned_clock
                &&& final(self).auto_flush_bus == old(self).auto_flush_bus
                &&& (r != TransitionResult::Failure ==> {
                    &&& final(self).bin.state == target
                    &&& final(self).accumulated_running_time == acc_after(
                        from,
                        target,
                        old(self).base_time as int,
                        old(self).accumulated_running_time as int,
                        now as int,
                    )
                    &&& final(self).base_time == base_after(
                        from,
                        target,
                        old(self).base_time as int,
                        old(self).accumulated_running_time as int,
                        old(self).delay as int,
                        now as int,
                    )
                    &&& final(self).selected_clock == selected_after(
                        from,
                        target,
                        old(self).pinned_clock,
                        old(self).selected_clock,
                        old(self).bin.children@,
                    )
                    &&& final(self).bus@ == bus_after(old(self).bus@, target, old(self).auto_flush_bus)
                    &&& final(self).last_sample == now
                })
                &&& (r == TransitionResult::Failure ==> {
                    &&& final(self).bin.state == from
                    &&& 0 <= s.2 < old(self).bin.children@.len()
                    &&& final(self).bus@ == old(self).bus@.push(final(self).bus@.last())
                    &&& is_error_from(final(self).bus@.last(), old(self).bin.children@[s.2].name@)
                    &&& final(self).base_time == old(self).base_time
                    &&& final(self).accumulated_running_time == old(self).accumulated_running_time
                    &&& final(self).selected_clock == old(self).selected_clock
                    &&& final(self).last_sample == old(self).last_sample
                })
            }),
    {
        let from = self.bin.state;
        let will_enter_playing = ord_exec(from) <= 2 && target == State::Playing;
        let chosen = if will_enter_playing {
            match self.pinned_clock {
                Some(c) => c,
                None => select_clock(&self.bin.children),
            }
        } else {
            self.selected_clock
        };
        let r = self.bin.set_state(target);
        if r == TransitionResult::Failure {
            let src = match &self.bin.refusing_child {
                Some(s) => s.clone(),
                None => {
                    proof {
                        assert(false);
                    }
                    String::new()
                },
            };
            self.bus.post(
                Message::ErrorReport { source: src, text: "state transition refused".to_owned() },
            );
            r
        } else {
            if will_enter_playing {
                self.selected_clock = chosen;
                let edge_acc = if from == State::Null {
                    0
                } else {
                    self.accumulated_running_time
                };
                self.base_time = now - edge_acc + self.delay;
            }
            if ord_exec(target) <= 1 {
                self.accumulated_running_time = 0;
            } else if from == State::Null {
                self.accumulated_running_time = 0;
            } else if from == State::Playing && target == State::Paused {
                self.accumulated_running_time = if now >= self.base_time {
                    now - self.base_time
                } else {
                    0
                };
            }
            if target == State::Null && self.auto_flush_bus {
                self.bus.flush();
            }
            self.last_sample = now;
            r
        }
    }

    /// The running time at clock sample `now`: advancing while PLAYING —
    /// zero inside the grace period a delay opens, never negative — and
    /// frozen at the accumulated value otherwise.
    pub fn running_time(&self, now: u64) -> (r: u64)
        requires
            self.wf(),
            now >= self.last_sample,
        ensures
            self.bin.state == State::Playing ==> r as int == running_time_spec(
                self.base_time as int,
                now as int,
            ),
            self.bin.state != State::Playing ==> r == self.accumulated_running_time,
    {
        if self.bin.state == State::Playing {
            if now >= self.base_time {
                now - self.base_time
            } else {
                0
            }
        } else {
            self.accumulated_running_time
        }
    }

    /// A flushing seek at clock sample `now`: the accumulated running time
    /// is reset to zero regardless of its prior value, and while PLAYING the
    /// base time is realigned to the sample so that the running time
    /// restarts from zero.
    pub fn flushing_seek(&mut self, now: u64)
        requires
            old(self).wf(),
            now >= old(self).last_sample,
        ensures
            final(self).wf(),
            final(self).accumulated_running_time == 0,
            final(self).base_time == if old(self).bin.state == State::Playing {
                now as int
            } else {
                old(self).base_time as int
            },
            final(self).last_sample == now,
            final(self).bin == old(self).bin,
            final(self).bus@ == old(self).bus@,
            final(self).pinned_clock == old(self).pinned_clock,
            final(self).selected_clock == old(self).selected_clock,
            final(self).delay == old(self).delay,
            final(self).auto_flush_bus == old(self).auto_flush_bus,
    {
        self.accumulated_running_time = 0;
        if self.bin.state == State::Playing {
            self.base_time = now;
        }
        self.last_sample = now;
    }

    /// Add an element to the graph; see the container's contract.
    pub fn add(&mut self, e: Element) -> (r: Result<TransitionResult, Element>)
        requires
            old(self).wf(),
        ensures
            final(self).wf(),
            final(self).bus@ == old(self).bus@,
            same_bookkeeping(*final(self), *old(self)),
            old(self).bin.has_child_named(e.name@) ==> r == Err::<TransitionResult, Element>(e)
                && final(self).bin == old(self).bin,
            !old(self).bin.has_child_named(e.name@) ==> ({
                let stepped = elem_set_state(e, old(self).bin.state);
                &&& r == Ok::<TransitionResult, Element>(stepped.1)
                &&& final(self).bin.children@ == old(self).bin.children@.push(stepped.0)
                &&& final(self).bin.state == old(self).bin.state
                &&& final(self).bin.name == old(self).bin.name
                &&& final(self).bin.refusing_child == old(self).bin.refusing_child
            }),
    {
        self.bin.add(e)
    }

    /// Remove the child with this name and hand it back; see the
    /// container's contract.
    pub fn remove(&mut self, n: &str) -> (r: Result<Element, Error>)
        requires
            old(self).wf(),
        ensures
            final(self).wf(),
            final(self).bus@ == old(self).bus@,
            same_bookkeeping(*final(self), *old(self)),
            !old(self).bin.has_child_named(n@) ==> (r is Err && r->Err_0 is Ownership
                && final(self).bin == old(self).bin),
            old(self).bin.has_child_named(n@) ==> exists|i: int|
                0 <= i < old(self).bin.children@.len() && old(self).bin.children@[i].name@ == n@
                    && r == Ok::<Element, Error>(old(self).bin.children@[i])
                    && final(self).bin.children@ == old(self).bin.children@.remove(i)
                    && final(self).bin.state == old(self).bin.state && final(self).bin.name == old(
                    self,
                ).bin.name && final(self).bin.refusing_child == old(self).bin.refusing_child,
    {
        self.bin.remove(n)
    }

    /// Record an asynchronous completion reported by the named child at its
    /// own pace, and post a state-changed message when it is recorded.  A
    /// stale completion — one reporting a target the child is no longer
    /// pending on — is discarded without a message, so a preempted
    /// transition yields exactly one recorded completion.
    pub fn complete_child(&mut self, n: &str, reported: State) -> (r: bool)
        requires
            old(self).wf(),
        ensures
            final(self).wf(),
            same_bookkeeping(*final(self), *old(self)),
            final(self).bin.state == old(self).bin.state,
            final(self).bin.name == old(self).bin.name,
            final(self).bin.refusing_child == old(self).bin.refusing_child,
            !old(self).bin.has_child_named(n@) ==> !r && final(self).bin.children@ == old(
                self,
            ).bin.children@,
            old(self).bin.has_child_named(n@) ==> exists|i: int|
                0 <= i < old(self).bin.children@.len() && old(self).bin.children@[i].name@ == n@
                    && final(self).bin.children@ == old(self).bin.children@.update(
                    i,
                    elem_complete(old(self).bin.children@[i], reported).0,
                ) && r == elem_complete(old(self).bin.children@[i], reported).1,
            r ==> final(self).bus@ == old(self).bus@.push(final(self).bus@.last())
                && is_state_changed_from(final(self).bus@.last(), n@, reported),
            !r ==> final(self).bus@ == old(self).bus@,
    {
        let recorded = self.bin.complete_child(n, reported);
        if recorded {
            self.bus.post(Message::StateChanged { source: n.to_owned(), new_state: reported });
        }
        recorded
    }

    /// Whether the most recent transition is fully settled: no child still
    /// owes an asynchronous completion.
    pub fn settled(&self) -> (r: bool)
        ensures
            r == self.bin.settled_spec(),
    {
        self.bin.settled()
    }
}

impl From<Pipeline> for Bin {
    /// A pipeline is a container: converting hands over its element graph.
    fn from(p: Pipeline) -> (r: Bin)
        ensures
            r == p.bin,
    {
        p.bin
    }
}

impl vstd::std_specs::convert::FromSpecImpl<Pipeline> for Bin {
    open spec fn obeys_from_spec() -> bool {
        true
    }

    open spec fn from_spec(p: Pipeline) -> Bin {
        p.bin
    }
}

/// A pipeline created with zero accumulated running time keeps it at zero
/// through every transition that does not reach PLAYING: before the first
/// PLAYING transition the accumulated running time is zero.
pub proof fn lemma_accumulated_zero_before_playing(
    from: State,
    to: State,
    base_time: int,
    now: int,
)
    requires
        from != State::Playing,
        to != State::Playing,
    ensures
        acc_after(from, to, base_time, 0, now) == 0,
{
}

/// Pausing records the running time and resuming never loses it: after a
/// PLAYING→PAUSED transition at sample `t1` and a PAUSED→PLAYING transition
/// at sample `t2`, once the grace period the delay opens has elapsed — and
/// immediately, when no delay is set — the running time is at least the
/// recorded value and exceeds it by `t - t2 - delay` alone, so the
/// wall-clock time spent paused, `t2 - t1`, is strictly excluded.
pub proof fn lemma_pause_resume_running_time(
    base_time: int,
    acc0: int,
    delay: int,
    t1: int,
    t2: int,
    t: int,
)
    requires
        0 <= base_time <= t1,
        t1 <= t2,
        t2 <= t,
        0 <= delay,
    ensures
        ({
            let recorded = acc_after(State::Playing, State::Paused, base_time, acc0, t1);
            let resumed_base = base_after(State::Paused, State::Playing, base_time, recorded, delay, t2);
            &&& t >= t2 + delay ==> running_time_spec(resumed_base, t) >= recorded
                && running_time_spec(resumed_base, t) - recorded == t - t2 - delay
            &&& delay == 0 ==> running_time_spec(resumed_base, t) == recorded + (t - t2)
        }),
{
}

/// Automatic selection prefers a live element's clock: whenever some live
/// element provides a clock, the clock picked is the most upstream live
/// provider's, whatever clocks any sinks provide.
pub proof fn lemma_live_clock_preferred(cs: Seq<Element>, w: int)
    requires
        0 <= w < cs.len(),
        cs[w].live,
        cs[w].provided_clock is Some,
    ensures
        ({
            let li = live_clock_from(cs, 0);
            &&& 0 <= li <= w
            &&& cs[li].live
            &&& cs[li].provided_clock is Some
            &&& auto_selected_clock(cs) == cs[li].provided_clock.unwrap()
            &&& forall|k: int|
                0 <= k < li ==> !((#[trigger] cs[k]).live && cs[k].provided_clock is Some)
        }),
{
    lemma_live_clock_from_props(cs, 0);
}

/// A pinned clock is never overridden: while a clock is pinned and selected,
/// any transition — in particular every PAUSED→PLAYING one — keeps it
/// selected, until `auto_clock` unpins it.
pub proof fn lemma_pinned_clock_kept(from: State, to: State, c: Clock, cs: Seq<Element>)
    ensures
        selected_after(from, to, Some(c), c, cs) == c,
{
}

/// A transition to READY, or below it, resets the accumulated running time
/// to zero regardless of its prior value.
pub proof fn lemma_ready_resets(from: State, base_time: int, acc: int, now: int)
    ensures
        acc_after(from, State::Ready, base_time, acc, now) == 0,
        acc_after(from, State::Null, base_time, acc, now) == 0,
{
}

/// With auto-flush disabled, the bus survives a transition to NULL
/// untouched and its messages remain readable; with it enabled, reaching
/// NULL discards them; transitions elsewhere never touch the bus.
pub proof fn lemma_auto_flush(q: Seq<Message>, to: State)
    ensures
        bus_after(q, to, false) == q,
        to == State::Null ==> bus_after(q, to, true) == Seq::<Message>::empty(),
        to != State::Null ==> bus_after(q, to, true) == q,
{
}

/// The delay is added to the base time exactly at the PAUSED→PLAYING edge,
/// opening a grace period: the running time is never negative, and out of a
/// fresh pause it stays at zero through the grace period and first advances
/// past zero only after the delay has elapsed.
pub proof fn lemma_delay_defers_running_time(old_base: int, acc: int, delay: int, t2: int, t: int)
    requires
        0 <= acc,
        0 <= delay,
        t2 <= t,
    ensures
        ({
            let resumed_base = base_after(State::Paused, State::Playing, old_base, acc, delay, t2);
            &&& resumed_base == t2 - acc + delay
            &&& running_time_spec(resumed_base, t) >= 0
            &&& acc == 0 ==> (running_time_spec(resumed_base, t) > 0 <==> t > t2 + delay)
        }),
{
}

} // verus!
