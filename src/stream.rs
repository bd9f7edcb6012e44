//! The stream of what a child process writes, handed on in the order written.
//!
//! The host pushes each record as it arrives from the child and closes the
//! stream when the child exits; a consumer receives the records one at a time.
//! Every record pushed is received exactly once, in the order of pushing.
use std::collections::VecDeque;
use vstd::prelude::*;

verus! {

/// The output stream of the child that a record came from.
#[derive(Clone, Copy, Debug, PartialEq, Eq, Structural)]
pub enum Source {
    Stdout,
    Stderr,
}

/// One record written by the child: a line or a message, opaque to the
/// stream.
#[derive(Clone, Debug)]
pub struct Message {
    pub source: Source,
    pub data: Vec<u8>,
}

/// What a consumer gets when it asks for the next record.
#[derive(Debug)]
pub enum Received {
    /// The next record, in the order written.
    Message { message: Message },
    /// Nothing yet, and the child has not exited.
    Pending,
    /// Every record was received and the child exited with `code`
    /// (`None` where it was ended by a signal).
    Closed { code: Option<i32> },
}

/// The records of one child, from its spawn to its exit.
pub struct EventStream {
    pending: VecDeque<Message>,
    emitted: Ghost<Seq<Message>>,
    delivered: Ghost<Seq<Message>>,
    closed: bool,
    exit_code: Option<i32>,
}

impl EventStream {
    /// Every record pushed so far, in the order pushed.
    pub closed spec fn emitted(&self) -> Seq<Message> {
        self.emitted@
    }

    /// Every record received so far, in the order received.
    pub closed spec fn delivered(&self) -> Seq<Message> {
        self.delivered@
    }

    /// The records pushed and not yet received, oldest first.
    pub closed spec fn pending(&self) -> Seq<Message> {
        self.pending@
    }

    /// Whether the child's exit was reported.
    pub closed spec fn is_closed(&self) -> bool {
        self.closed
    }

    /// The exit code reported with the close, if any.
    pub closed spec fn code(&self) -> Option<i32> {
        self.exit_code
    }

    /// Nothing is lost, doubled or reordered: what was received, followed by
    /// what waits, is exactly what was pushed.
    pub closed spec fn wf(&self) -> bool {
        self.delivered@ + self.pending@ == self.emitted@
    }

    /// An open stream with no records.
    pub fn new() -> (r: EventStream)
        ensures
            r.wf(),
            r.emitted() == Seq::<Message>::empty(),
            r.delivered() == Seq::<Message>::empty(),
            r.pending() == Seq::<Message>::empty(),
            !r.is_closed(),
            r.code() is None,
    {
        EventStream {
            pending: VecDeque::new(),
            emitted: Ghost(Seq::empty()),
            delivered: Ghost(Seq::empty()),
            closed: false,
            exit_code: None,
        }
    }

    /// Appends a record written by the child. A closed stream takes no more
    /// records: it returns `false` and stays as it was.
    pub fn push(&mut self, message: Message) -> (accepted: bool)
        requires
            old(self).wf(),
        ensures
            final(self).wf(),
            accepted == !old(self).is_closed(),
            accepted ==> final(self).emitted() == old(self).emitted().push(message),
            accepted ==> final(self).pending() == old(self).pending().push(message),
            !accepted ==> final(self).emitted() == old(self).emitted(),
            !accepted ==> final(self).pending() == old(self).pending(),
            final(self).delivered() == old(self).delivered(),
            final(self).is_closed() == old(self).is_closed(),
            final(self).code() == old(self).code(),
    {
        if self.closed {
            return false;
        }
        proof {
            assert(self.delivered@ + self.pending@.push(message) == (self.delivered@
                + self.pending@).push(message));
        }
        self.emitted = Ghost(self.emitted@.push(message));
        self.pending.push_back(message);
        true
    }

    /// Reports the child's exit with `code`. Only the first report counts.
    pub fn close(&mut self, code: Option<i32>)
        requires
            old(self).wf(),
        ensures
            final(self).wf(),
            final(self).is_closed(),
            final(self).code() == if old(self).is_closed() {
                old(self).code()
            } else {
                code
            },
            final(self).emitted() == old(self).emitted(),
            final(self).delivered() == old(self).delivered(),
            final(self).pending() == old(self).pending(),
    {
        if !self.closed {
            self.closed = true;
            self.exit_code = code;
        }
    }

    /// Whether the child's exit was reported.
    pub fn closed(&self) -> (r: bool)
        ensures
            r == self.is_closed(),
    {
        self.closed
    }

    /// The number of records that wait to be received.
    pub fn pending_len(&self) -> (r: usize)
        ensures
            r == self.pending().len(),
    {
        self.pending.len()
    }

    /// The oldest record not yet received; else `Closed` once the child has
    /// exited, or `Pending` while it may still write.
    pub fn receive(&mut self) -> (r: Received)
        requires
            old(self).wf(),
        ensures
            final(self).wf(),
            final(self).emitted() == old(self).emitted(),
            final(self).is_closed() == old(self).is_closed(),
            final(self).code() == old(self).code(),
            old(self).pending().len() > 0 ==> {
                &&& r == (Received::Message { message: old(self).pending()[0] })
                &&& final(self).delivered() == old(self).delivered().push(old(self).pending()[0])
                &&& final(self).pending() == old(self).pending().drop_first()
            },
            old(self).pending().len() == 0 ==> {
                &&& r == if old(self).is_closed() {
                    Received::Closed { code: old(self).code() }
                } else {
                    Received::Pending
                }
                &&& final(self).delivered() == old(self).delivered()
                &&& final(self).pending() == old(self).pending()
            },
    {
        match self.pending.pop_front() {
            Some(message) => {
                proof {
                    let d = self.delivered@;
                    let q = old(self).pending@;
                    assert(d.push(q[0]) + q.drop_first() == d + q);
                }
                self.delivered = Ghost(self.delivered@.push(message));
                Received::Message { message }
            },
            None => {
                if self.closed {
                    Received::Closed { code: self.exit_code }
                } else {
                    Received::Pending
                }
            },
        }
    }

    /// Receives every record that waits, oldest first.
    pub fn drain(&mut self) -> (r: Vec<Message>)
        requires
            old(self).wf(),
        ensures
            final(self).wf(),
            r@ == old(self).pending(),
            final(self).pending() == Seq::<Message>::empty(),
            final(self).delivered() == old(self).delivered() + old(self).pending(),
            final(self).emitted() == old(self).emitted(),
            final(self).is_closed() == old(self).is_closed(),
            final(self).code() == old(self).code(),
    {
        let mut out: Vec<Message> = Vec::new();
        while self.pending.len() > 0
            invariant
                self.wf(),
                out@ + self.pending@ == old(self).pending@,
                self.delivered@ == old(self).delivered@ + out@,
                self.emitted@ == old(self).emitted@,
                self.closed == old(self).closed,
                self.exit_code == old(self).exit_code,
            decreases self.pending@.len(),
        {
            let ghost q = self.pending@;
            let ghost o = out@;
            match self.pending.pop_front() {
                Some(message) => {
                    proof {
                        let d = self.delivered@;
                        assert(d.push(q[0]) + q.drop_first() == d + q);
                        assert(o.push(q[0]) + q.drop_first() == o + q);
                        assert(old(self).delivered@ + o.push(q[0]) == (old(self).delivered@
                            + o).push(q[0]));
                    }
                    self.delivered = Ghost(self.delivered@.push(message));
                    out.push(message);
                },
                None => {},
            }
        }
        proof {
            assert(out@ + self.pending@ == out@);
        }
        out
    }
}

/// Every record is received at most once and in the order pushed: what was
/// received is always the start of what was pushed, and the rest waits.
pub proof fn lemma_delivered_is_prefix(s: &EventStream)
    requires
        s.wf(),
    ensures
        s.delivered().len() <= s.emitted().len(),
        s.delivered() == s.emitted().take(s.delivered().len() as int),
        s.pending() == s.emitted().skip(s.delivered().len() as int),
{
    assert(s.delivered() =~= (s.delivered() + s.pending()).take(s.delivered().len() as int));
    assert(s.pending() =~= (s.delivered() + s.pending()).skip(s.delivered().len() as int));
}

/// Once the child has exited and nothing waits, every record it wrote was
/// received exactly once, in the order written.
pub proof fn lemma_closed_and_empty_delivered_all(s: &EventStream)
    requires
        s.wf(),
        s.is_closed(),
        s.pending().len() == 0,
    ensures
        s.delivered() == s.emitted(),
{
    assert(s.delivered() + s.pending() =~= s.delivered());
}

/// The order within one output stream of the child is kept as well: the
/// records received from `src` are the start of those pushed from `src`.
pub proof fn lemma_order_kept_per_source(s: &EventStream, src: Source)
    requires
        s.wf(),
    ensures
        s.emitted().filter(|m: Message| m.source == src) == s.delivered().filter(
            |m: Message| m.source == src,
        ) + s.pending().filter(|m: Message| m.source == src),
{
    Seq::filter_distributes_over_add(
        s.delivered(),
        s.pending(),
        |m: Message| m.source == src,
    );
}

} // verus!
