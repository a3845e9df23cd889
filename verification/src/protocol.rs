//! The directory-protocol message model: framed messages with a correlation
//! identifier, the outcomes a message handler can produce, and the response
//! construction that copies the request's correlation identifier.

use vstd::prelude::*;

verus! {

/// The tag of one protocol operation. The operation payloads themselves are
/// an external concern (the wire codec decodes and encodes them); the session
/// loop only carries operations through, so the model keeps the tags.
#[derive(Clone, Copy, Debug, PartialEq, Eq, Structural)]
pub enum Op {
    BindRequest,
    BindResponse,
    SearchRequest,
    SearchResultEntry,
    SearchResultDone,
    SearchResultReference,
    ModifyRequest,
    ModifyResponse,
    AddRequest,
    AddResponse,
    DelRequest,
    DelResponse,
    ModifyDnRequest,
    ModifyDnResponse,
    CompareRequest,
    CompareResponse,
    AbandonRequest,
    UnbindRequest,
    ExtendedRequest,
    ExtendedResponse,
    IntermediateResponse,
}

/// One protocol control attached to a message. Controls are opaque to the
/// session loop; responses always carry an empty control list.
#[derive(Clone, Copy, Debug, PartialEq, Eq, Structural)]
pub struct Control {
    pub tag: u64,
}

/// One framed protocol message: a numeric correlation identifier, an
/// operation, and a list of controls.
#[derive(Clone, Debug, PartialEq, Eq)]
pub struct Message {
    pub msgid: i32,
    pub op: Op,
    pub ctrl: Vec<Control>,
}

/// What the handler produced for one request: either the wish to end the
/// connection, or a (possibly empty) list of response operations.
#[derive(Clone, Debug, PartialEq, Eq)]
pub enum HandlerResult {
    Terminate,
    Respond(Vec<Op>),
}

/// `response` is the message the session loop sends for `op`, produced while
/// answering `request`: it reuses the request's correlation identifier,
/// carries `op`, and has an empty control list.
pub open spec fn correlated_response(request: Message, op: Op, response: Message) -> bool {
    &&& response.msgid == request.msgid
    &&& response.op == op
    &&& response.ctrl@.len() == 0
}

/// Build the response messages for one request: one message per response
/// operation, each reusing the request's correlation identifier and carrying
/// an empty control list, in the order the handler produced them.
pub fn responses_for(request: &Message, ops: &Vec<Op>) -> (responses: Vec<Message>)
    ensures
        responses@.len() == ops@.len(),
        forall|i: int|
            0 <= i < responses@.len() ==> correlated_response(
                *request,
                ops@[i],
                #[trigger] responses@[i],
            ),
{
    let mut responses: Vec<Message> = Vec::new();
    let mut j: usize = 0;
    while j < ops.len()
        invariant
            j <= ops@.len(),
            responses@.len() == j as int,
            forall|i: int|
                0 <= i < j as int ==> correlated_response(
                    *request,
                    ops@[i],
                    #[trigger] responses@[i],
                ),
        decreases ops@.len() - j,
    {
        responses.push(Message { msgid: request.msgid, op: ops[j], ctrl: Vec::new() });
        j = j + 1;
    }
    responses
}

/// What the session loop does after one request has been handled.
#[derive(Clone, Debug, PartialEq, Eq)]
pub enum StepOutcome {
    /// The handler asked for the connection to end: close without writing.
    Close,
    /// Keep the connection open and write these messages (none, when the
    /// handler returned an empty response list).
    Continue(Vec<Message>),
}

/// Decide the session loop's step for one request: a handler that produced no
/// result closes the connection; otherwise the loop continues with one
/// correlated response message per response operation.
pub fn process_message(request: &Message, outcome: &HandlerResult) -> (step: StepOutcome)
    ensures
        outcome is Terminate <==> step is Close,
        outcome matches HandlerResult::Respond(ops) ==> step matches StepOutcome::Continue(msgs)
            && msgs@.len() == ops@.len() && (forall|i: int|
            0 <= i < msgs@.len() ==> correlated_response(*request, ops@[i], #[trigger] msgs@[i])),
{
    match outcome {
        HandlerResult::Terminate => StepOutcome::Close,
        HandlerResult::Respond(ops) => StepOutcome::Continue(responses_for(request, ops)),
    }
}

/// The transport failures that are fatal to one connection, with the context
/// the loop reports for each.
#[derive(Clone, Copy, Debug, PartialEq, Eq, Structural)]
pub enum SessionError {
    Receive,
    Send,
    Flush,
}

impl SessionError {
    /// The context text reported for this failure.
    pub open spec fn spec_context(self) -> Seq<char> {
        match self {
            SessionError::Receive => "while receiving protocol message"@,
            SessionError::Send => "while sending a response"@,
            SessionError::Flush => "while flushing responses"@,
        }
    }

    /// The context under which this failure is reported, naming the operation
    /// that was in progress.
    pub fn context(&self) -> (text: &'static str)
        ensures
            text@ == self.spec_context(),
    {
        match self {
            SessionError::Receive => "while receiving protocol message",
            SessionError::Send => "while sending a response",
            SessionError::Flush => "while flushing responses",
        }
    }
}

} // verus!
