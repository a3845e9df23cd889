//! The per-connection session loop over a scripted transport: what the loop
//! reads, writes and flushes, in which order, for a given sequence of
//! incoming requests and handler outcomes. The wire-level laws of the loop
//! (correlation, strict request-then-response ordering, termination) are
//! stated and proved over this trace.

use crate::protocol::{HandlerResult, Message, Op};
use vstd::prelude::*;

verus! {

/// The per-connection session state: created when a protocol connection is
/// accepted, destroyed when its loop exits, never shared across connections.
/// The bound identity starts as the caller's initial identity and is updated
/// by successful bind operations (whose semantics are the handler's, an
/// external collaborator; the outcome is recorded here).
pub struct Session {
    /// The configured base entry identifier scoping all operations.
    pub base_dn: String,
    /// The authenticated identity, if any.
    pub bound_identity: Option<String>,
}

impl Session {
    /// A fresh session over the configured base entry, holding the initial
    /// bound identity the connection starts with.
    pub fn new(base_dn: String, initial_identity: Option<String>) -> (session: Session)
        ensures
            session.base_dn == base_dn,
            session.bound_identity == initial_identity,
    {
        Session { base_dn, bound_identity: initial_identity }
    }

    /// Record a successful bind: the session's bound identity becomes the
    /// newly authenticated user; the base entry never changes.
    pub fn record_bind(&mut self, user: String)
        ensures
            final(self).bound_identity == Some(user),
            final(self).base_dn == old(self).base_dn,
    {
        self.bound_identity = Some(user);
    }
}

/// One observable transport action of the session loop.
#[derive(Clone, Copy, Debug, PartialEq, Eq, Structural)]
pub enum WireEvent {
    /// A framed request was decoded from the read side.
    ReadFrame { msgid: i32, op: Op },
    /// A response message was written to the write side.
    WriteFrame { msgid: i32, op: Op },
    /// The write side was flushed.
    Flushed,
}

pub open spec fn is_read(e: WireEvent) -> bool {
    e is ReadFrame
}

pub open spec fn is_write(e: WireEvent) -> bool {
    e is WriteFrame
}

/// The correlation identifier an event carries; flushes carry none.
pub open spec fn event_msgid(e: WireEvent) -> int {
    match e {
        WireEvent::ReadFrame { msgid, .. } => msgid as int,
        WireEvent::WriteFrame { msgid, .. } => msgid as int,
        WireEvent::Flushed => -1,
    }
}

/// The read event for one decoded request.
pub open spec fn read_of(m: Message) -> WireEvent {
    WireEvent::ReadFrame { msgid: m.msgid, op: m.op }
}

/// The write events for one request's response operations: one per
/// operation, in order, all under the request's correlation identifier.
pub open spec fn writes_for(msgid: i32, ops: Seq<Op>) -> Seq<WireEvent> {
    Seq::new(ops.len(), |i: int| WireEvent::WriteFrame { msgid, op: ops[i] })
}

/// The transport trace of one session: the loop reads a request, and either
/// stops (the handler asked to terminate) or writes one correlated response
/// per response operation, flushes, and only then reads the next request.
/// The trace ends when the requests end (the peer closed the stream).
pub open spec fn session_trace(
    requests: Seq<Message>,
    outcomes: Seq<HandlerResult>,
) -> Seq<WireEvent>
    decreases requests.len(),
{
    if requests.len() == 0 || outcomes.len() == 0 {
        Seq::empty()
    } else {
        match outcomes[0] {
            HandlerResult::Terminate => seq![read_of(requests[0])],
            HandlerResult::Respond(ops) => seq![read_of(requests[0])] + writes_for(
                requests[0].msgid,
                ops@,
            ) + seq![WireEvent::Flushed] + session_trace(requests.skip(1), outcomes.skip(1)),
        }
    }
}

/// Run the session loop over a scripted connection: `requests` are the frames
/// the peer sends until it closes the stream, `outcomes` what the handler
/// produces for each. The returned trace is exactly the session trace of the
/// script.
pub fn run_session(requests: &Vec<Message>, outcomes: &Vec<HandlerResult>) -> (trace: Vec<
    WireEvent,
>)
    requires
        requests@.len() == outcomes@.len(),
    ensures
        trace@ == session_trace(requests@, outcomes@),
        correlated_trace(trace@),
        flush_separated(trace@),
{
    proof {
        lemma_response_correlation(requests@, outcomes@);
        lemma_flush_before_next_read(requests@, outcomes@);
    }
    let mut trace: Vec<WireEvent> = Vec::new();
    let n = requests.len();
    let mut i: usize = 0;
    proof {
        assert(requests@.skip(0) =~= requests@);
        assert(outcomes@.skip(0) =~= outcomes@);
        assert(trace@ + session_trace(requests@, outcomes@) =~= session_trace(
            requests@,
            outcomes@,
        ));
    }
    while i < n
        invariant
            requests@.len() == outcomes@.len(),
            n == requests@.len(),
            i <= n,
            session_trace(requests@, outcomes@) == trace@ + session_trace(
                requests@.skip(i as int),
                outcomes@.skip(i as int),
            ),
        decreases n - i,
    {
        proof {
            assert(requests@.skip(i as int)[0] == requests@[i as int]);
            assert(outcomes@.skip(i as int)[0] == outcomes@[i as int]);
            assert(requests@.skip(i as int).skip(1) =~= requests@.skip(i as int + 1));
            assert(outcomes@.skip(i as int).skip(1) =~= outcomes@.skip(i as int + 1));
        }
        let msgid = requests[i].msgid;
        let op = requests[i].op;
        let ghost entry_trace = trace@;
        trace.push(WireEvent::ReadFrame { msgid, op });
        match &outcomes[i] {
            HandlerResult::Terminate => {
                proof {
                    assert(session_trace(requests@.skip(i as int), outcomes@.skip(i as int))
                        =~= seq![read_of(requests@[i as int])]);
                    assert(trace@ =~= entry_trace + seq![read_of(requests@[i as int])]);
                    lemma_response_correlation(requests@, outcomes@);
                    lemma_flush_before_next_read(requests@, outcomes@);
                }
                return trace;
            },
            HandlerResult::Respond(ops) => {
                let ghost read_trace = trace@;
                let mut j: usize = 0;
                while j < ops.len()
                    invariant
                        j <= ops@.len(),
                        trace@ == read_trace + writes_for(msgid, ops@).take(j as int),
                    decreases ops@.len() - j,
                {
                    proof {
                        assert(writes_for(msgid, ops@).take(j as int + 1) =~= writes_for(
                            msgid,
                            ops@,
                        ).take(j as int).push(WireEvent::WriteFrame { msgid, op: ops@[j as int] }));
                    }
                    trace.push(WireEvent::WriteFrame { msgid, op: ops[j] });
                    j = j + 1;
                }
                proof {
                    assert(writes_for(msgid, ops@).take(ops@.len() as int) =~= writes_for(
                        msgid,
                        ops@,
                    ));
                }
                trace.push(WireEvent::Flushed);
                proof {
                    assert(trace@ =~= entry_trace + (seq![read_of(requests@[i as int])]
                        + writes_for(requests@[i as int].msgid, ops@) + seq![WireEvent::Flushed]));
                    assert(session_trace(requests@.skip(i as int), outcomes@.skip(i as int))
                        =~= seq![read_of(requests@[i as int])] + writes_for(
                        requests@[i as int].msgid,
                        ops@,
                    ) + seq![WireEvent::Flushed] + session_trace(
                        requests@.skip(i as int + 1),
                        outcomes@.skip(i as int + 1),
                    ));
                    assert(session_trace(requests@, outcomes@) == trace@ + session_trace(
                        requests@.skip(i as int + 1),
                        outcomes@.skip(i as int + 1),
                    ));
                }
            },
        }
        i = i + 1;
    }
    proof {
        assert(session_trace(requests@.skip(n as int), outcomes@.skip(n as int))
            =~= Seq::<WireEvent>::empty());
        assert(trace@ =~= trace@ + Seq::<WireEvent>::empty());
    }
    trace
}

/// The write at position `j` of `t` answers the most recent read before it:
/// some earlier read carries the same correlation identifier, and no other
/// read stands between the two.
pub open spec fn write_answers_last_read(t: Seq<WireEvent>, j: int) -> bool {
    exists|i: int|
        0 <= i < j && is_read(#[trigger] t[i]) && event_msgid(t[i]) == event_msgid(t[j]) && (
        forall|k: int| i < k < j ==> !is_read(#[trigger] t[k]))
}

/// Every write in the trace carries the correlation identifier of the
/// request whose handling produced it (the most recent preceding read).
pub open spec fn correlated_trace(t: Seq<WireEvent>) -> bool {
    forall|j: int| 0 <= j < t.len() && is_write(#[trigger] t[j]) ==> write_answers_last_read(t, j)
}

/// Law: on every connection, every response message's correlation identifier
/// equals its triggering request's correlation identifier — each write in the
/// session trace answers the most recent preceding read.
pub proof fn lemma_response_correlation(requests: Seq<Message>, outcomes: Seq<HandlerResult>)
    ensures
        correlated_trace(session_trace(requests, outcomes)),
    decreases requests.len(),
{
    let t = session_trace(requests, outcomes);
    if requests.len() == 0 || outcomes.len() == 0 {
        assert(t.len() == 0);
    } else {
        match outcomes[0] {
            HandlerResult::Terminate => {
                assert(t =~= seq![read_of(requests[0])]);
                assert forall|j: int| 0 <= j < t.len() && is_write(t[j]) implies
                    write_answers_last_read(t, j) by {
                    assert(t[j] == read_of(requests[0]));
                }
            },
            HandlerResult::Respond(ops) => {
                lemma_response_correlation(requests.skip(1), outcomes.skip(1));
                let rest = session_trace(requests.skip(1), outcomes.skip(1));
                let aw = seq![read_of(requests[0])] + writes_for(requests[0].msgid, ops@);
                let awf = aw + seq![WireEvent::Flushed];
                let plen = awf.len();
                assert(t == awf + rest);
                assert(plen == ops@.len() + 2);
                assert(forall|k: int|
                    1 <= k < plen - 1 ==> #[trigger] awf[k] == writes_for(
                        requests[0].msgid,
                        ops@,
                    )[k - 1]);
                assert forall|j: int| 0 <= j < t.len() && is_write(t[j]) implies
                    write_answers_last_read(t, j) by {
                    if j < plen {
                        assert(t[j] == awf[j]);
                        assert(awf[0] == read_of(requests[0]));
                        assert(awf[plen - 1] == WireEvent::Flushed);
                        assert(1 <= j < plen - 1);
                        assert(event_msgid(t[j]) == requests[0].msgid as int);
                        assert(event_msgid(t[0]) == requests[0].msgid as int);
                        assert forall|k: int| 0 < k < j implies !is_read(#[trigger] t[k]) by {
                            assert(t[k] == awf[k]);
                        }
                        assert(0 <= 0 < j && is_read(t[0]) && event_msgid(t[0]) == event_msgid(
                            t[j],
                        ));
                        assert(write_answers_last_read(t, j));
                    } else {
                        assert(t[j] == rest[j - plen]);
                        assert(is_write(rest[j - plen]));
                        assert(write_answers_last_read(rest, j - plen));
                        let i0 = choose|i: int|
                            0 <= i < j - plen && is_read(#[trigger] rest[i]) && event_msgid(
                                rest[i],
                            ) == event_msgid(rest[j - plen]) && (forall|k: int|
                                i < k < j - plen ==> !is_read(#[trigger] rest[k]));
                        assert(t[i0 + plen] == rest[i0]);
                        assert(is_read(t[i0 + plen]));
                        assert(event_msgid(t[i0 + plen]) == event_msgid(t[j]));
                        assert forall|k: int| i0 + plen < k < j implies !is_read(
                            #[trigger] t[k],
                        ) by {
                            assert(t[k] == rest[k - plen]);
                        }
                        assert(0 <= i0 + plen < j && is_read(t[i0 + plen]));
                        assert(write_answers_last_read(t, j));
                    }
                }
            },
        }
    }
}

/// Between any two reads of the trace stands a flush: the responses of one
/// request are flushed before the next request is read.
pub open spec fn flush_separated(t: Seq<WireEvent>) -> bool {
    forall|i: int, j: int|
        0 <= i < j < t.len() && is_read(#[trigger] t[i]) && is_read(#[trigger] t[j]) ==> (
        exists|k: int| i < k < j && (#[trigger] t[k]) is Flushed)
}

/// Law: within one connection the responses for one request are fully
/// written and flushed before the next request is read — no pipelining, no
/// interleaving: a flush stands between any two reads of the session trace.
pub proof fn lemma_flush_before_next_read(requests: Seq<Message>, outcomes: Seq<HandlerResult>)
    ensures
        flush_separated(session_trace(requests, outcomes)),
    decreases requests.len(),
{
    let t = session_trace(requests, outcomes);
    if requests.len() == 0 || outcomes.len() == 0 {
        assert(t.len() == 0);
    } else {
        match outcomes[0] {
            HandlerResult::Terminate => {
                assert(t =~= seq![read_of(requests[0])]);
            },
            HandlerResult::Respond(ops) => {
                lemma_flush_before_next_read(requests.skip(1), outcomes.skip(1));
                let rest = session_trace(requests.skip(1), outcomes.skip(1));
                let aw = seq![read_of(requests[0])] + writes_for(requests[0].msgid, ops@);
                let awf = aw + seq![WireEvent::Flushed];
                let plen = awf.len();
                assert(t == awf + rest);
                assert(plen == ops@.len() + 2);
                assert forall|k: int| 1 <= k < plen implies !is_read(#[trigger] awf[k]) by {
                    if k < plen - 1 {
                        assert(awf[k] == writes_for(requests[0].msgid, ops@)[k - 1]);
                    } else {
                        assert(awf[k] == WireEvent::Flushed);
                    }
                }
                assert forall|i: int, j: int|
                    0 <= i < j < t.len() && is_read(t[i]) && is_read(t[j]) implies (exists|k: int|
                    i < k < j && (#[trigger] t[k]) is Flushed) by {
                    if j < plen {
                        assert(t[i] == awf[i] && t[j] == awf[j]);
                        assert(false);
                    } else if i < plen {
                        assert(t[i] == awf[i]);
                        assert(i == 0);
                        assert(t[plen - 1] == awf[plen - 1]);
                        assert(i < plen - 1 < j && t[plen - 1] is Flushed);
                    } else {
                        assert(t[i] == rest[i - plen] && t[j] == rest[j - plen]);
                        let k0 = choose|k: int|
                            i - plen < k < j - plen && (#[trigger] rest[k]) is Flushed;
                        assert(t[k0 + plen] == rest[k0]);
                        assert(i < k0 + plen < j && t[k0 + plen] is Flushed);
                    }
                }
            },
        }
    }
}

/// Law: if the handler produces no result for the request at position `p`
/// (after producing responses for every earlier request), the session loop
/// terminates there: the trace ends at that request's read, with no response
/// written for it and nothing after it.
pub proof fn lemma_terminate_ends_session(
    requests: Seq<Message>,
    outcomes: Seq<HandlerResult>,
    p: int,
)
    requires
        0 <= p < requests.len(),
        p < outcomes.len(),
        outcomes[p] is Terminate,
        forall|q: int| 0 <= q < p ==> (#[trigger] outcomes[q]) is Respond,
    ensures
        session_trace(requests, outcomes) == session_trace(requests.take(p), outcomes.take(p))
            + seq![read_of(requests[p])],
    decreases p,
{
    if p == 0 {
        assert(session_trace(requests, outcomes) =~= seq![read_of(requests[0])]);
        assert(requests.take(0) =~= Seq::<Message>::empty());
        assert(session_trace(requests.take(0), outcomes.take(0)) + seq![read_of(requests[0])]
            =~= seq![read_of(requests[0])]);
    } else {
        assert(outcomes[0] is Respond);
        match outcomes[0] {
            HandlerResult::Respond(ops) => {
                assert(requests.skip(1)[p - 1] == requests[p]);
                assert(outcomes.skip(1)[p - 1] == outcomes[p]);
                assert forall|q: int| 0 <= q < p - 1 implies (#[trigger] outcomes.skip(1)[q])
                    is Respond by {
                    assert(outcomes.skip(1)[q] == outcomes[q + 1]);
                }
                lemma_terminate_ends_session(requests.skip(1), outcomes.skip(1), p - 1);
                let awf = seq![read_of(requests[0])] + writes_for(requests[0].msgid, ops@)
                    + seq![WireEvent::Flushed];
                // the head request also opens the truncated script's trace
                assert(requests.take(p)[0] == requests[0]);
                assert(outcomes.take(p)[0] == outcomes[0]);
                assert(requests.take(p).skip(1) =~= requests.skip(1).take(p - 1));
                assert(outcomes.take(p).skip(1) =~= outcomes.skip(1).take(p - 1));
                match outcomes.take(p)[0] {
                    HandlerResult::Respond(ops2) => {
                        assert(ops2 == ops);
                        assert(session_trace(requests.take(p), outcomes.take(p)) == awf
                            + session_trace(
                            requests.skip(1).take(p - 1),
                            outcomes.skip(1).take(p - 1),
                        ));
                    },
                    HandlerResult::Terminate => {
                        assert(false);
                    },
                }
                assert(requests.skip(1)[p - 1] == requests[p]);
                assert(session_trace(requests, outcomes) == awf + (session_trace(
                    requests.skip(1).take(p - 1),
                    outcomes.skip(1).take(p - 1),
                ) + seq![read_of(requests[p])]));
                assert(awf + (session_trace(
                    requests.skip(1).take(p - 1),
                    outcomes.skip(1).take(p - 1),
                ) + seq![read_of(requests[p])]) =~= (awf + session_trace(
                    requests.skip(1).take(p - 1),
                    outcomes.skip(1).take(p - 1),
                )) + seq![read_of(requests[p])]);
            },
            HandlerResult::Terminate => {
                assert(false);
            },
        }
    }
}

/// Law: a handler that returns an empty response list does not end the
/// session and writes no message — the trace records the read and the flush,
/// and continues with the rest of the script.
pub proof fn lemma_empty_reply_continues(requests: Seq<Message>, outcomes: Seq<HandlerResult>)
    requires
        requests.len() > 0,
        outcomes.len() > 0,
        outcomes[0] matches HandlerResult::Respond(ops) && ops@.len() == 0,
    ensures
        session_trace(requests, outcomes) == seq![read_of(requests[0]), WireEvent::Flushed]
            + session_trace(requests.skip(1), outcomes.skip(1)),
{
    match outcomes[0] {
        HandlerResult::Respond(ops) => {
            assert(writes_for(requests[0].msgid, ops@) =~= Seq::<WireEvent>::empty());
            assert(seq![read_of(requests[0])] + writes_for(requests[0].msgid, ops@)
                + seq![WireEvent::Flushed] + session_trace(requests.skip(1), outcomes.skip(1))
                =~= seq![read_of(requests[0]), WireEvent::Flushed] + session_trace(
                requests.skip(1),
                outcomes.skip(1),
            ));
        },
        HandlerResult::Terminate => {
            assert(false);
        },
    }
}

} // verus!
