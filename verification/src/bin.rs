use vstd::prelude::*;

use crate::element::{
    combine, combine_results, elem_complete, elem_set_state, lemma_elem_step_keeps_config, Element,
    State, TransitionResult,
};
use crate::error::Error;

verus! {

/// Relies on str's `PartialEq`: two string slices are equal exactly when
/// their character sequences are.
#[verifier::external_body]
fn str_eq(a: &str, b: &str) -> (r: bool)
    ensures
        r == (a@ == b@),
{
    a == b
}

/// Mutable access to one child, in the style of an indexing borrow.
fn child_at_mut(v: &mut Vec<Element>, i: usize) -> (e: &mut Element)
    requires
        i < old(v).len(),
    ensures
        *e == old(v)@[i as int],
        final(v)@ == old(v)@.update(i as int, *final(e)),
{
    &mut v[i]
}

/// No two elements of the sequence share a name.
pub open spec fn unique_names(cs: Seq<Element>) -> bool {
    forall|i: int, j: int|
        0 <= i < cs.len() && 0 <= j < cs.len() && i != j ==> cs[i].name@ != cs[j].name@
}

/// Whether an option holds a string whose characters are `n`.
pub open spec fn opt_name_is(o: Option<String>, n: Seq<char>) -> bool {
    match o {
        Some(s) => s@ == n,
        None => false,
    }
}

/// Issue `target` to every child from index `i` on, in order, stopping after
/// the first refusal (the children after it are left untouched).  Returns the
/// updated children, the folded result, and the index of the refusing child
/// (`cs.len()` when none refused).
pub open spec fn propagate_from(cs: Seq<Element>, i: int, target: State) -> (Seq<
    Element,
>, TransitionResult, int)
    decreases cs.len() - i,
{
    if i < 0 || i >= cs.len() {
        (cs, TransitionResult::Success, cs.len() as int)
    } else {
        let stepped = elem_set_state(cs[i], target);
        let cs2 = cs.update(i, stepped.0);
        if stepped.1 == TransitionResult::Failure {
            (cs2, TransitionResult::Failure, i)
        } else {
            let rest = propagate_from(cs2, i + 1, target);
            (rest.0, combine(stepped.1, rest.1), rest.2)
        }
    }
}

/// What propagating a request does to the whole child sequence.
pub open spec fn propagate(cs: Seq<Element>, target: State) -> (Seq<Element>, TransitionResult, int) {
    propagate_from(cs, 0, target)
}

/// Propagation keeps the length, identity and static configuration of every
/// child, touches none before `i`, and refuses exactly when its reported
/// index lies short of the end.
pub proof fn lemma_propagate_keeps_config(cs: Seq<Element>, i: int, target: State)
    requires
        0 <= i <= cs.len(),
    ensures
        ({
            let r = propagate_from(cs, i, target);
            &&& r.0.len() == cs.len()
            &&& forall|k: int|
                0 <= k < cs.len() ==> (#[trigger] r.0[k]).name == cs[k].name && r.0[k].live
                    == cs[k].live && r.0[k].prerolls_async == cs[k].prerolls_async && r.0[k].refuses
                    == cs[k].refuses && r.0[k].provided_clock == cs[k].provided_clock && r.0[k].sink
                    == cs[k].sink
            &&& forall|k: int| 0 <= k < i ==> #[trigger] r.0[k] == cs[k]
            &&& i <= r.2 <= cs.len()
            &&& (r.1 == TransitionResult::Failure <==> r.2 < cs.len())
        }),
    decreases cs.len() - i,
{
    if i >= cs.len() {
    } else {
        let stepped = elem_set_state(cs[i], target);
        lemma_elem_step_keeps_config(Element { pending: None, ..cs[i] }, target);
        let cs2 = cs.update(i, stepped.0);
        if stepped.1 == TransitionResult::Failure {
        } else {
            lemma_propagate_keeps_config(cs2, i + 1, target);
        }
    }
}

fn propagate_children(v: &mut Vec<Element>, i: usize, target: State) -> (r: (
    TransitionResult,
    usize,
))
    requires
        i <= old(v).len(),
    ensures
        ({
            let s = propagate_from(old(v)@, i as int, target);
            final(v)@ == s.0 && r.0 == s.1 && r.1 as int == s.2
        }),
    decreases v.len() - i,
{
    if i >= v.len() {
        let n = v.len();
        (TransitionResult::Success, n)
    } else {
        let cr = child_at_mut(v, i).set_state(target);
        if cr == TransitionResult::Failure {
            (TransitionResult::Failure, i)
        } else {
            let rest = propagate_children(v, i + 1, target);
            (combine_results(cr, rest.0), rest.1)
        }
    }
}

/// A composite element: a container owning a set of child elements, unique
/// by identity, and aggregating their state-change outcomes.
pub struct Bin {
    /// Identity of the container itself.
    pub name: String,
    /// The most recently committed target state.  While a child's
    /// asynchronous transition toward it is still pending, the container's
    /// transition is not settled yet.
    pub state: State,
    /// The owned children, in graph order: lower indices are upstream
    /// (closer to the sources), higher indices downstream.
    pub children: Vec<Element>,
    /// Name of the child that refused the most recent request, if any.
    pub refusing_child: Option<String>,
}

impl Bin {
    /// Well-formed: children are unique by identity.
    pub open spec fn wf(&self) -> bool {
        unique_names(self.children@)
    }

    /// Whether a child with this name belongs to the container.
    pub open spec fn has_child_named(&self, n: Seq<char>) -> bool {
        exists|i: int| 0 <= i < self.children@.len() && self.children@[i].name@ == n
    }

    /// Every asynchronous child transition has completed.
    pub open spec fn settled_spec(&self) -> bool {
        forall|i: int| 0 <= i < self.children@.len() ==> self.children@[i].pending is None
    }

    /// An empty container in NULL.
    pub fn new(name: String) -> (r: Bin)
        ensures
            r.name == name,
            r.state == State::Null,
            r.children@ == Seq::<Element>::empty(),
            r.refusing_child is None,
            r.wf(),
    {
        Bin { name, state: State::Null, children: Vec::new(), refusing_child: None }
    }

    fn find_child(&self, n: &str) -> (r: Option<usize>)
        ensures
            match r {
                Some(i) => i < self.children@.len() && self.children@[i as int].name@ == n@,
                None => !self.has_child_named(n@),
            },
    {
        let mut i: usize = 0;
        while i < self.children.len()
            invariant
                i <= self.children@.len(),
                forall|k: int| 0 <= k < i ==> self.children@[k].name@ != n@,
            decreases self.children@.len() - i,
        {
            if str_eq(self.children[i].name.as_str(), n) {
                return Some(i);
            }
            i += 1;
        }
        None
    }

    /// Add an element to the container.  Fails, returning the element
    /// untouched, exactly when a child with the same identity already belongs
    /// to it; otherwise the new child is brought to the container's current
    /// state as part of the same operation, appended downstream, and the
    /// outcome of bringing it over is reported.
    pub fn add(&mut self, e: Element) -> (r: Result<TransitionResult, Element>)
        requires
            old(self).wf(),
        ensures
            final(self).wf(),
            old(self).has_child_named(e.name@) ==> r == Err::<TransitionResult, Element>(e)
                && *final(self) == *old(self),
            !old(self).has_child_named(e.name@) ==> ({
                let stepped = elem_set_state(e, old(self).state);
                &&& r == Ok::<TransitionResult, Element>(stepped.1)
                &&& final(self).children@ == old(self).children@.push(stepped.0)
                &&& final(self).state == old(self).state
                &&& final(self).name == old(self).name
                &&& final(self).refusing_child == old(self).refusing_child
            }),
    {
        match self.find_child(e.name.as_str()) {
            Some(_) => Err(e),
            None => {
                let mut incoming = e;
                let tr = incoming.set_state(self.state);
                proof {
                    lemma_elem_step_keeps_config(Element { pending: None, ..e }, self.state);
                }
                self.children.push(incoming);
                proof {
                    assert forall|i: int, j: int|
                        0 <= i < self.children@.len() && 0 <= j < self.children@.len() && i
                            != j implies self.children@[i].name@ != self.children@[j].name@ by {
                        if i < old(self).children@.len() && j < old(self).children@.len() {
                        } else {
                            assert(old(self).children@[if i < j {
                                i
                            } else {
                                j
                            }].name@ != e.name@);
                        }
                    }
                }
                Ok(tr)
            },
        }
    }

    /// Remove the child with this name and hand it back.  Fails exactly when
    /// no such child is owned by this container; nothing is mutated then.  A
    /// pending completion of the removed child leaves with it and no longer
    /// affects the container's aggregation.
    pub fn remove(&mut self, n: &str) -> (r: Result<Element, Error>)
        requires
            old(self).wf(),
        ensures
            final(self).wf(),
            !old(self).has_child_named(n@) ==> (r is Err && r->Err_0 is Ownership && *final(self)
                == *old(self)),
            old(self).has_child_named(n@) ==> exists|i: int|
                0 <= i < old(self).children@.len() && old(self).children@[i].name@ == n@ && r
                    == Ok::<Element, Error>(old(self).children@[i]) && final(self).children@ == old(
                    self,
                ).children@.remove(i) && final(self).state == old(self).state && final(self).name
                    == old(self).name && final(self).refusing_child == old(self).refusing_child,
    {
        match self.find_child(n) {
            None => Err(Error::Ownership { message: "no child with this name".to_owned() }),
            Some(i) => {
                let removed = self.children.remove(i);
                proof {
                    assert forall|a: int, b: int|
                        0 <= a < self.children@.len() && 0 <= b < self.children@.len() && a
                            != b implies self.children@[a].name@ != self.children@[b].name@ by {
                        let a0 = if a < i as int {
                            a
                        } else {
                            a + 1
                        };
                        let b0 = if b < i as int {
                            b
                        } else {
                            b + 1
                        };
                        assert(self.children@[a] == old(self).children@[a0]);
                        assert(self.children@[b] == old(self).children@[b0]);
                    }
                }
                Ok(removed)
            },
        }
    }

    /// Issue the requested transition to every child, upstream first, and
    /// combine the results: FAILURE dominates (the scan stops there and the
    /// refusing child is recorded), else ASYNC if any child is still
    /// pending, else NO_PREROLL if any child is live, else SUCCESS.  Unless
    /// a child refuses, the target becomes the committed state.
    pub fn set_state(&mut self, target: State) -> (r: TransitionResult)
        requires
            old(self).wf(),
        ensures
            final(self).wf(),
            ({
                let s = propagate(old(self).children@, target);
                &&& r == s.1
                &&& final(self).children@ == s.0
                &&& final(self).name == old(self).name
                &&& (r != TransitionResult::Failure ==> final(self).state == target
                    && final(self).refusing_child is None)
                &&& (r == TransitionResult::Failure ==> final(self).state == old(self).state && 0
                    <= s.2 < old(self).children@.len() && opt_name_is(
                    final(self).refusing_child,
                    old(self).children@[s.2].name@,
                ))
            }),
    {
        proof {
            lemma_propagate_keeps_config(self.children@, 0, target);
        }
        let res = propagate_children(&mut self.children, 0, target);
        if res.0 == TransitionResult::Failure {
            let nm = self.children[res.1].name.clone();
            self.refusing_child = Some(nm);
        } else {
            self.state = target;
            self.refusing_child = None;
        }
        res.0
    }

    /// Whether the most recent transition is fully settled: no child still
    /// owes an asynchronous completion.
    pub fn settled(&self) -> (r: bool)
        ensures
            r == self.settled_spec(),
    {
        let mut i: usize = 0;
        while i < self.children.len()
            invariant
                i <= self.children@.len(),
                forall|k: int| 0 <= k < i ==> self.children@[k].pending is None,
            decreases self.children@.len() - i,
        {
            if self.children[i].pending.is_some() {
                return false;
            }
            i += 1;
        }
        true
    }

    /// Forward an asynchronous completion from the child of this name.
    /// Returns whether the completion was recorded; a completion from an
    /// unknown child, or one reporting a stale target, is discarded.
    pub fn complete_child(&mut self, n: &str, reported: State) -> (r: bool)
        requires
            old(self).wf(),
        ensures
            final(self).wf(),
            !old(self).has_child_named(n@) ==> r == false && *final(self) == *old(self),
            old(self).has_child_named(n@) ==> exists|i: int|
                0 <= i < old(self).children@.len() && old(self).children@[i].name@ == n@
                    && final(self).children@ == old(self).children@.update(
                    i,
                    elem_complete(old(self).children@[i], reported).0,
                ) && r == elem_complete(old(self).children@[i], reported).1 && final(self).state
                    == old(self).state && final(self).name == old(self).name
                    && final(self).refusing_child == old(self).refusing_child,
    {
        match self.find_child(n) {
            None => false,
            Some(i) => {
                let r = child_at_mut(&mut self.children, i).complete_async(reported);
                proof {
                    assert forall|a: int, b: int|
                        0 <= a < self.children@.len() && 0 <= b < self.children@.len() && a
                            != b implies self.children@[a].name@ != self.children@[b].name@ by {
                        assert(self.children@[a].name == old(self).children@[a].name);
                        assert(self.children@[b].name == old(self).children@[b].name);
                    }
                }
                r
            },
        }
    }
}

} // verus!
