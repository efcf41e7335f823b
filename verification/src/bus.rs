use vstd::prelude::*;

use crate::clock::Clock;
use crate::element::State;

verus! {

/// An event posted by an element to the controlling context, tagged with the
/// identity of the element it originates from.
pub enum Message {
    /// An element committed a state change.
    StateChanged { source: String, new_state: State },
    /// An element reported an irrecoverable error.
    ErrorReport { source: String, text: String },
    /// An element reached the end of its stream.
    Eos { source: String },
    /// The clock an element provided became unusable while in use.
    ClockLost { source: String, clock: Clock },
}

/// Whether a message reports a committed state change of the named element.
pub open spec fn is_state_changed_from(m: Message, n: Seq<char>, to: State) -> bool {
    match m {
        Message::StateChanged { source, new_state } => source@ == n && new_state == to,
        _ => false,
    }
}

/// Whether a message reports an error of the named element.
pub open spec fn is_error_from(m: Message, n: Seq<char>) -> bool {
    match m {
        Message::ErrorReport { source, .. } => source@ == n,
        _ => false,
    }
}

/// The ordered event channel from elements to the controlling context.
///
/// Consumption order equals post order, whichever element posted: the queue
/// is first-in, first-out.  Producers and the consumer must hand the bus
/// around under the single-writer discipline of the pipeline; the bus itself
/// adds no interleaving of its own.
pub struct Bus {
    queue: Vec<Message>,
}

impl View for Bus {
    type V = Seq<Message>;

    closed spec fn view(&self) -> Seq<Message> {
        self.queue@
    }
}

impl Bus {
    /// An empty bus.
    pub fn new() -> (r: Bus)
        ensures
            r@ == Seq::<Message>::empty(),
    {
        Bus { queue: Vec::new() }
    }

    /// Number of messages waiting to be read.
    pub fn len(&self) -> (r: usize)
        ensures
            r == self@.len(),
    {
        self.queue.len()
    }

    /// Whether no message is waiting.
    pub fn is_empty(&self) -> (r: bool)
        ensures
            r == (self@.len() == 0),
    {
        self.queue.len() == 0
    }

    /// Post a message at the back of the queue.
    pub fn post(&mut self, m: Message)
        ensures
            final(self)@ == old(self)@.push(m),
    {
        self.queue.push(m);
    }

    /// Read the oldest waiting message, if any, without blocking.
    pub fn try_pop(&mut self) -> (r: Option<Message>)
        ensures
            old(self)@.len() == 0 ==> r is None && final(self)@ == old(self)@,
            old(self)@.len() > 0 ==> r == Some(old(self)@.first()) && final(self)@ == old(
                self,
            )@.drop_first(),
    {
        if self.queue.len() == 0 {
            None
        } else {
            let ghost q0 = self.queue@;
            let m = self.queue.remove(0);
            proof {
                assert(self.queue@ =~= q0.drop_first());
            }
            Some(m)
        }
    }

    /// Discard every waiting message.
    pub fn flush(&mut self)
        ensures
            final(self)@ == Seq::<Message>::empty(),
    {
        self.queue.clear();
    }
}

/// The first `k` messages that `try_pop` hands out from a bus holding `q`.
pub open spec fn drained(q: Seq<Message>, k: int) -> Seq<Message>
    decreases k,
{
    if k <= 0 || q.len() == 0 {
        Seq::empty()
    } else {
        seq![q.first()] + drained(q.drop_first(), k - 1)
    }
}

/// Consumption order equals post order: draining a bus yields exactly the
/// messages it holds, oldest first, whichever producer posted each of them —
/// the queue never reorders.
pub proof fn lemma_bus_fifo(q: Seq<Message>)
    ensures
        drained(q, q.len() as int) == q,
    decreases q.len(),
{
    if q.len() == 0 {
        assert(drained(q, 0) =~= q);
    } else {
        lemma_bus_fifo(q.drop_first());
        assert(seq![q.first()] + q.drop_first() =~= q);
    }
}

} // verus!
