//! What a transport does with what it receives.
//!
//! A transport reads, asks the functions of this file what to do, and does
//! it: it owns the connection and the loop, and nothing else. Both kinds of
//! transport handle one message at a time, in the order of arrival.
//!
//! The line stream reads one JSON document per line. The end of the input
//! ends the run in good order; a line that is no request ends it with a
//! failure. The message bus reads one request per message. A message that
//! is no request is skipped, and the response to a message without a reply
//! subject is computed and then discarded.

use crate::bridge::{json_text, parsed_json};
use crate::error::{undecodable, unwritable, McpError, McpErrorView};
use crate::json::Json;
use crate::server::Server;
use crate::tools::Tool;
use crate::types::{
    request_of_json, response_json, JsonRpcRequest, JsonRpcRequestView, JsonRpcResponse,
    JsonRpcResponseView,
};
use vstd::prelude::*;
use vstd::string::StringExecFns;
use vstd::string::StringSliceAdditionalSpecFns;

verus! {

/// The request that the bytes of a message spell, where they spell one.
pub open spec fn decoded(bytes: Seq<u8>) -> Option<JsonRpcRequestView> {
    match parsed_json(bytes) {
        Some(json) => request_of_json(json),
        None => None,
    }
}

/// The JSON text of a response, where it can be written.
pub open spec fn encoded(response: JsonRpcResponseView) -> Option<Seq<char>> {
    json_text(response_json(response))
}

/// Reads a request from the bytes of a message. `None` where the bytes are
/// not a JSON document or the document is not a request.
pub fn decode_request(bytes: &[u8]) -> (request: Option<JsonRpcRequest>)
    ensures
        match request {
            Some(read) => decoded(bytes@) == Some(read@),
            None => decoded(bytes@) is None,
        },
{
    match Json::parse_bytes(bytes) {
        Some(json) => JsonRpcRequest::from_json(&json),
        None => None,
    }
}

/// Writes a response as JSON text.
pub fn encode_response(response: &JsonRpcResponse) -> (text: Option<String>)
    ensures
        match text {
            Some(written) => encoded(response@) == Some(written@),
            None => encoded(response@) is None,
        },
{
    response.to_json().to_text()
}

/// What the line stream does after it has read a line.
#[derive(Debug)]
pub enum LineAction {
    /// The input has ended: stop, without a failure.
    Shutdown,
    /// Stop, and report the failure.
    Fail(McpError),
    /// Write this text, which ends in a line break, flush, and read on.
    Reply(String),
}

/// The model of a [`LineAction`].
pub enum LineActionView {
    Shutdown,
    Fail(McpErrorView),
    Reply(Seq<char>),
}

impl View for LineAction {
    type V = LineActionView;

    open spec fn view(&self) -> LineActionView {
        match self {
            LineAction::Shutdown => LineActionView::Shutdown,
            LineAction::Fail(error) => LineActionView::Fail(error@),
            LineAction::Reply(text) => LineActionView::Reply(text@),
        }
    }
}

/// What the line stream does with a response: it writes the response's text
/// and a line break, or fails where the response cannot be written.
pub open spec fn line_reply(response: JsonRpcResponseView) -> LineActionView {
    match encoded(response) {
        Some(text) => LineActionView::Reply(text + "\n"@),
        None => LineActionView::Fail(unwritable()),
    }
}

/// What the line stream does with a response.
pub fn reply_line(response: &JsonRpcResponse) -> (action: LineAction)
    ensures
        action@ == line_reply(response@),
{
    match encode_response(response) {
        Some(text) => LineAction::Reply(text.concat("\n")),
        None => LineAction::Fail(McpError::unwritable()),
    }
}

/// One step of the line stream: what to do after `line` was read.
///
/// A line without any character, not even a line break, is the end of the
/// input. Any other line has to spell a request: the server answers it, and
/// the answer is what is written.
pub fn line_step<X, T: Tool>(server: &Server<X, T>, line: &str) -> (action: LineAction)
    ensures
        line@.len() == 0 ==> action@ == LineActionView::Shutdown,
        line@.len() > 0 ==> match decoded(line.spec_bytes()) {
            None => action@ == LineActionView::Fail(undecodable()),
            Some(request) => exists|response: JsonRpcResponseView|
                #![trigger line_reply(response)]
                server@.answers(request, response) && response.id == request.id
                    && response.well_formed() && action@ == line_reply(response),
        },
{
    if line.is_empty() {
        return LineAction::Shutdown;
    }
    match decode_request(line.as_bytes()) {
        None => LineAction::Fail(McpError::undecodable()),
        Some(request) => {
            let ghost asked = request@;
            let response = server.handle_request(request);
            let action = reply_line(&response);
            assert(server@.answers(asked, response@) && action@ == line_reply(response@));
            action
        },
    }
}

/// What the message bus does after it has received a message.
#[derive(Debug)]
pub enum BusAction {
    /// The message is no request: report the failure and go on.
    Skip(McpError),
    /// The request was answered, and nobody waits for the answer: go on.
    Discard,
    /// Publish this payload to this subject, and go on.
    Publish { subject: String, payload: String },
    /// Stop, and report the failure.
    Fail(McpError),
}

/// The model of a [`BusAction`].
pub enum BusActionView {
    Skip(McpErrorView),
    Discard,
    Publish { subject: Seq<char>, payload: Seq<char> },
    Fail(McpErrorView),
}

impl View for BusAction {
    type V = BusActionView;

    open spec fn view(&self) -> BusActionView {
        match self {
            BusAction::Skip(error) => BusActionView::Skip(error@),
            BusAction::Discard => BusActionView::Discard,
            BusAction::Publish { subject, payload } => BusActionView::Publish {
                subject: subject@,
                payload: payload@,
            },
            BusAction::Fail(error) => BusActionView::Fail(error@),
        }
    }
}

/// What the message bus does with a response: it publishes the response's
/// text to the reply subject where the message had one, and discards it
/// where the message had none. It fails where the response cannot be
/// written.
pub open spec fn bus_reply(reply: Option<Seq<char>>, response: JsonRpcResponseView) -> BusActionView {
    match encoded(response) {
        None => BusActionView::Fail(unwritable()),
        Some(payload) => match reply {
            Some(subject) => BusActionView::Publish { subject, payload },
            None => BusActionView::Discard,
        },
    }
}

/// What the message bus does with a response to a message that named
/// `reply` as its reply subject.
pub fn reply_message(reply: Option<String>, response: &JsonRpcResponse) -> (action: BusAction)
    ensures
        action@ == bus_reply(reply.deep_view(), response@),
{
    match encode_response(response) {
        None => BusAction::Fail(McpError::unwritable()),
        Some(payload) => match reply {
            Some(subject) => BusAction::Publish { subject, payload },
            None => BusAction::Discard,
        },
    }
}

/// One step of the message bus: what to do after a message with `payload`
/// was received, which named `reply` as its reply subject.
///
/// The server answers every message that spells a request, also where
/// nobody waits for the answer.
pub fn message_step<X, T: Tool>(
    server: &Server<X, T>,
    payload: &[u8],
    reply: Option<String>,
) -> (action: BusAction)
    ensures
        match decoded(payload@) {
            None => action@ == BusActionView::Skip(undecodable()),
            Some(request) => exists|response: JsonRpcResponseView|
                #![trigger bus_reply(reply.deep_view(), response)]
                server@.answers(request, response) && response.id == request.id
                    && response.well_formed() && action@ == bus_reply(
                    reply.deep_view(),
                    response,
                ),
        },
{
    match decode_request(payload) {
        None => BusAction::Skip(McpError::undecodable()),
        Some(request) => {
            let ghost asked = request@;
            let ghost subject = reply.deep_view();
            let response = server.handle_request(request);
            let action = reply_message(reply, &response);
            assert(server@.answers(asked, response@) && action@ == bus_reply(subject, response@));
            action
        },
    }
}

} // verus!
