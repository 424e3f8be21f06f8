//! The bridge: the single consumer of the request queue and of the reply
//! channel. It keeps at most one request in flight, so that the view applies
//! requests in queue order and each reply belongs to the request in flight.

use vstd::prelude::*;
use tokio::sync::mpsc::{UnboundedReceiver, UnboundedSender};
use crate::channel::{fire, try_receive, unbounded, Received};
use crate::document::Document;
use crate::request::{script_of, Message, Operation, Request};

verus! {

/// Why a poll step failed.
#[derive(Clone, Copy, Debug, PartialEq, Eq, Structural)]
pub enum PollError {
    /// A reply came whose kind does not acknowledge the request in flight.
    /// The request stays in flight and unresolved.
    ProtocolViolation { expected: Message, received: Message },
    /// A channel's other end is gone: the session is over.
    SessionClosed,
}

/// The bridge's history, as a model: what it took from the queue, what it
/// handed out as script, which replies resolved which request, and how often
/// each request's completion signal fired.
pub struct BridgeState {
    /// The request that awaits its reply, if any.
    pub in_flight: Option<Operation>,
    /// Every request taken from the queue, in the order taken.
    pub admitted: Seq<Operation>,
    /// For each admitted request, whether it carried a completion signal.
    pub signals: Seq<bool>,
    /// The replies that resolved requests, in order.
    pub observed: Seq<Message>,
    /// For each admitted request, how many times its signal fired.
    pub fired: Seq<nat>,
    /// The scripts handed out for submission to the view, in order.
    pub submitted: Seq<Seq<char>>,
}

/// A bridge that has not taken any request yet.
pub open spec fn initial_state() -> BridgeState {
    BridgeState {
        in_flight: None,
        admitted: Seq::empty(),
        signals: Seq::empty(),
        observed: Seq::empty(),
        fired: Seq::empty(),
        submitted: Seq::empty(),
    }
}

/// `s` after taking `op` from the queue and handing out its script.
pub open spec fn admit_step(s: BridgeState, op: Operation, signal: bool) -> BridgeState {
    BridgeState {
        in_flight: Some(op),
        admitted: s.admitted.push(op),
        signals: s.signals.push(signal),
        observed: s.observed,
        fired: s.fired.push(0),
        submitted: s.submitted.push(script_of(op)),
    }
}

/// `s` after the matching reply to its request in flight: the slot is
/// cleared and that request's signal, if it has one, fires once.
pub open spec fn resolve_step(s: BridgeState) -> BridgeState {
    let k = s.admitted.len() - 1;
    BridgeState {
        in_flight: None,
        admitted: s.admitted,
        signals: s.signals,
        observed: s.observed.push(s.in_flight->0.reply()),
        fired: if s.signals[k] {
            s.fired.update(k, s.fired[k] + 1)
        } else {
            s.fired
        },
        submitted: s.submitted,
    }
}

/// The history holds together: one request in flight at most, the last one
/// taken; replies match the requests they resolved position by position; one
/// script per request taken; each signal fired once after its reply.
pub open spec fn consistent(s: BridgeState) -> bool {
    &&& s.signals.len() == s.admitted.len()
    &&& s.fired.len() == s.admitted.len()
    &&& s.submitted.len() == s.admitted.len()
    &&& s.observed.len() + (if s.in_flight is Some { 1int } else { 0int }) == s.admitted.len()
    &&& s.in_flight is Some ==> s.in_flight->0 == s.admitted.last()
    &&& forall|i: int| 0 <= i < s.observed.len() ==> s.observed[i] == #[trigger] s.admitted[i].reply()
    &&& forall|i: int| 0 <= i < s.admitted.len() ==> s.submitted[i] == script_of(#[trigger] s.admitted[i])
    &&& forall|i: int|
        0 <= i < s.admitted.len() ==> #[trigger] s.fired[i] == (if i < s.observed.len()
            && s.signals[i] {
            1nat
        } else {
            0nat
        })
}

/// Correlates the request queue with the view's replies.
pub struct Bridge {
    replies: UnboundedReceiver<Message>,
    requests: UnboundedReceiver<Request>,
    pending: Option<Request>,
    document: Document,
    admitted: Ghost<Seq<Operation>>,
    signals: Ghost<Seq<bool>>,
    observed: Ghost<Seq<Message>>,
    fired: Ghost<Seq<nat>>,
    submitted: Ghost<Seq<Seq<char>>>,
}

impl View for Bridge {
    type V = BridgeState;

    closed spec fn view(&self) -> BridgeState {
        BridgeState {
            in_flight: match self.pending {
                Some(r) => Some(r@),
                None => None,
            },
            admitted: self.admitted@,
            signals: self.signals@,
            observed: self.observed@,
            fired: self.fired@,
            submitted: self.submitted@,
        }
    }
}

impl Bridge {
    /// The history is consistent and the request in flight carries a signal
    /// exactly when the history says so.
    pub closed spec fn wf(&self) -> bool {
        &&& consistent(self@)
        &&& self.pending is Some ==> self.pending->0.has_signal() == self@.signals.last()
    }

    /// A bridge with empty channels and nothing in flight, and the sending end
    /// of its reply channel, for the view's message handler.
    pub fn new() -> (r: (Bridge, UnboundedSender<Message>))
        ensures
            r.0.wf(),
            r.0@ == initial_state(),
    {
        let (reply_tx, replies) = unbounded();
        let (request_tx, requests) = unbounded();
        let bridge = Bridge {
            replies,
            requests,
            pending: None,
            document: Document::new(request_tx, Ghost(arbitrary())),
            admitted: Ghost(Seq::empty()),
            signals: Ghost(Seq::empty()),
            observed: Ghost(Seq::empty()),
            fired: Ghost(Seq::empty()),
            submitted: Ghost(Seq::empty()),
        };
        (bridge, reply_tx)
    }

    /// The document whose requests this bridge consumes.
    pub closed spec fn doc_id(&self) -> int {
        self.document.doc()
    }

    /// A handle on the document whose requests this bridge consumes.
    pub fn document(&self) -> (r: Document)
        ensures
            r.doc() == self.doc_id(),
    {
        self.document.clone()
    }

    /// Whether a request is in flight, awaiting its reply.
    pub fn awaiting_reply(&self) -> (r: bool)
        ensures
            r == (self@.in_flight is Some),
    {
        self.pending.is_some()
    }

    /// The script of the request in flight, to submit it again when the view
    /// could not schedule it: the slot is not cleared on that failure.
    pub fn in_flight_script(&self) -> (r: Option<String>)
        ensures
            r is Some <==> self@.in_flight is Some,
            r is Some ==> r->Some_0@ == script_of(self@.in_flight->0),
    {
        match &self.pending {
            Some(req) => Some(req.script()),
            None => None,
        }
    }

    /// Handles what a receive on the reply channel found while a request is
    /// in flight. A reply of the matching kind resolves it: its signal fires
    /// and the slot is cleared. Any other kind is a protocol violation and
    /// changes nothing.
    pub fn on_reply(&mut self, reply: Received<Message>) -> (r: Result<(), PollError>)
        requires
            old(self).wf(),
            old(self)@.in_flight is Some,
        ensures
            final(self).wf(),
            reply is Empty ==> r == Ok::<(), PollError>(()) && final(self)@ == old(self)@,
            reply is Closed ==> r == Err::<(), PollError>(PollError::SessionClosed)
                && final(self)@ == old(self)@,
            reply is Value && reply->Value_0 == old(self)@.in_flight->0.reply()
                ==> r == Ok::<(), PollError>(()) && final(self)@ == resolve_step(old(self)@),
            reply is Value && reply->Value_0 != old(self)@.in_flight->0.reply() ==> r == Err::<(), PollError>(
                (PollError::ProtocolViolation {
                    expected: old(self)@.in_flight->0.reply(),
                    received: reply->Value_0,
                }),
            ) && final(self)@ == old(self)@,
    {
        match reply {
            Received::Empty => Ok(()),
            Received::Closed => Err(PollError::SessionClosed),
            Received::Value(m) => {
                let expected = self.pending.as_ref().unwrap().expected_reply();
                if m != expected {
                    return Err(PollError::ProtocolViolation { expected, received: m });
                }
                let ghost pre = self@;
                let ghost k = self.admitted@.len() - 1;
                let taken = self.pending.take();
                if let Some(req) = taken {
                    if let Some(tx) = req.into_signal() {
                        let _ = fire(tx);
                        self.fired = Ghost(self.fired@.update(k, self.fired@[k] + 1));
                    }
                }
                self.observed = Ghost(self.observed@.push(m));
                assert(self@ =~= resolve_step(pre));
                Ok(())
            },
        }
    }

    /// Handles what a receive on the request queue found while nothing is in
    /// flight. A request is admitted: it goes in flight and its script is
    /// returned for submission to the view.
    pub fn on_request(&mut self, request: Received<Request>) -> (r: Result<
        Option<String>,
        PollError,
    >)
        requires
            old(self).wf(),
            old(self)@.in_flight is None,
        ensures
            final(self).wf(),
            request is Empty ==> r is Ok && r->Ok_0 is None && final(self)@ == old(self)@,
            request is Closed ==> r == Err::<Option<String>, PollError>(PollError::SessionClosed)
                && final(self)@ == old(self)@,
            request is Value ==> r is Ok && r->Ok_0 is Some
                && r->Ok_0->Some_0@ == script_of(request->Value_0@)
                && final(self)@ == admit_step(old(self)@, request->Value_0@, request->Value_0.has_signal()),
    {
        match request {
            Received::Empty => Ok(None),
            Received::Closed => Err(PollError::SessionClosed),
            Received::Value(req) => {
                let ghost pre = self@;
                let script = req.script();
                self.admitted = Ghost(self.admitted@.push(req@));
                self.signals = Ghost(self.signals@.push(req.has_signal()));
                self.fired = Ghost(self.fired@.push(0));
                self.submitted = Ghost(self.submitted@.push(script@));
                self.pending = Some(req);
                assert(self@ =~= admit_step(pre, self@.in_flight->0, self@.signals.last()));
                Ok(Some(script))
            },
        }
    }

    /// One cooperative step. With a request in flight it looks for a reply
    /// and returns if none came; with none in flight (then or now) it looks
    /// for the next request and admits it, returning its script, which the
    /// caller submits to the view. It does not wait for a reply or a request
    /// to arrive; a receive only pauses while a concurrent send completes.
    pub fn poll(&mut self) -> (r: Result<Option<String>, PollError>)
        requires
            old(self).wf(),
        ensures
            final(self).wf(),
            r matches Err(PollError::ProtocolViolation { .. }) ==> final(self)@ == old(self)@
                && old(self)@.in_flight is Some,
            r == Err::<Option<String>, PollError>(PollError::SessionClosed) ==> final(self)@ == old(self)@
                || (old(self)@.in_flight is Some && final(self)@ == resolve_step(old(self)@)),
            r matches Ok(None) ==> final(self)@ == old(self)@ || (old(self)@.in_flight is Some
                && final(self)@ == resolve_step(old(self)@)),
            r matches Ok(Some(s)) ==> ({
                let post = final(self)@;
                let mid = if old(self)@.in_flight is Some {
                    resolve_step(old(self)@)
                } else {
                    old(self)@
                };
                &&& post.in_flight is Some
                &&& s@ == script_of(post.in_flight->0)
                &&& post == admit_step(mid, post.in_flight->0, post.signals.last())
            }),
    {
        if self.pending.is_some() {
            let reply = try_receive(&mut self.replies);
            let resolved = self.on_reply(reply);
            if resolved.is_err() {
                return Err(resolved.unwrap_err());
            }
            if self.pending.is_some() {
                return Ok(None);
            }
        }
        let request = try_receive(&mut self.requests);
        self.on_request(request)
    }
}

/// Requests reach the view in the order in which the bridge took them from
/// the queue: the i-th script handed out for submission is the script of the
/// i-th request taken, and never are two of them awaiting a reply at once.
pub proof fn lemma_submission_follows_queue_order(b: &Bridge)
    requires
        b.wf(),
    ensures
        b@.submitted.len() == b@.admitted.len(),
        forall|i: int|
            0 <= i < b@.admitted.len() ==> #[trigger] b@.submitted[i] == script_of(b@.admitted[i]),
        b@.admitted.len() - b@.observed.len() <= 1,
        b@.admitted.len() - b@.observed.len() == 1 <==> b@.in_flight is Some,
{
}

/// A well-formed bridge's history is consistent.
pub proof fn lemma_history_consistent(b: &Bridge)
    requires
        b.wf(),
    ensures
        consistent(b@),
{
}

/// Every request taken from the queue has its completion signal fired at
/// most once; exactly once when it carries one and has been resolved, and
/// then only after a reply of the kind that acknowledges it.
pub proof fn lemma_completion_fires_exactly_once(b: &Bridge)
    requires
        b.wf(),
    ensures
        forall|i: int|
            0 <= i < b@.admitted.len() ==> {
                &&& #[trigger] b@.fired[i] <= 1
                &&& (b@.fired[i] == 1 <==> (i < b@.observed.len() && b@.signals[i]))
                &&& (b@.fired[i] == 1 ==> b@.observed[i] == b@.admitted[i].reply())
            },
{
    assert forall|i: int| 0 <= i < b@.admitted.len() implies {
        &&& #[trigger] b@.fired[i] <= 1
        &&& (b@.fired[i] == 1 <==> (i < b@.observed.len() && b@.signals[i]))
        &&& (b@.fired[i] == 1 ==> b@.observed[i] == b@.admitted[i].reply())
    } by {
        if i < b@.observed.len() {
            assert(b@.observed[i] == b@.admitted[i].reply());
        }
    }
}

} // verus!
