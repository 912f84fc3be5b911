use vstd::prelude::*;

use crate::command::Command;
use crate::error::ServiceError;
use crate::message::Message;
use crate::model::create_request_cmds;
use crate::model::Cmd;
use crate::text::is_blank;
use crate::text::is_blank_text;

verus! {

pub const STATUS_OK: u16 = 200;

pub const STATUS_BAD_REQUEST: u16 = 400;

pub const STATUS_NOT_FOUND: u16 = 404;

pub const STATUS_METHOD_NOT_ALLOWED: u16 = 405;

pub const STATUS_INTERNAL_SERVER_ERROR: u16 = 500;

/// The commands a create plan submits to the pipeline: none when the
/// request was turned away, the one planned command otherwise.
pub open spec fn planned_cmds(r: Option<Command>) -> Seq<Cmd> {
    match r {
        Option::None => Seq::<Cmd>::empty(),
        Option::Some(c) => seq![c@],
    }
}

/// The create path's validation step: a message whose content is blank
/// (empty or all whitespace) is turned away with no command built, so the
/// actor never sees it; any other message becomes one create command
/// carrying the content verbatim — untrimmed, exactly as posted.
pub fn plan_create(msg: Message) -> (r: Option<Command>)
    ensures
        r is None <==> is_blank(msg@),
        r matches Some(c) ==> c@ == Cmd::Create(msg@),
        planned_cmds(r) == create_request_cmds(msg@),
{
    if is_blank_text(msg.content()) {
        None
    } else {
        Some(Command::Create { payload: msg.into_content() })
    }
}

/// How a create request ends, as the handler sees it.
#[derive(Debug, PartialEq, Eq)]
pub enum CreateOutcome {
    /// Validation turned the request away; no command was submitted.
    Rejected,
    /// The actor answered through the reply slot.
    Answered(Result<(), ServiceError>),
    /// The command could not be placed on the channel.
    NotDispatched,
    /// The reply slot was dropped before an answer arrived.
    ReplyLost,
}

/// The status owed for each way a create request can end: a rejected
/// request is the client's fault, a successful append is plain success,
/// and everything else is the server's fault.
pub open spec fn create_status_spec(outcome: CreateOutcome) -> u16 {
    match outcome {
        CreateOutcome::Rejected => STATUS_BAD_REQUEST,
        CreateOutcome::Answered(r) => if r is Ok {
            STATUS_OK
        } else {
            STATUS_INTERNAL_SERVER_ERROR
        },
        CreateOutcome::NotDispatched => STATUS_INTERNAL_SERVER_ERROR,
        CreateOutcome::ReplyLost => STATUS_INTERNAL_SERVER_ERROR,
    }
}

/// Maps a create outcome to the HTTP status of the response; the response
/// body is empty in every case.
pub fn create_status(outcome: &CreateOutcome) -> (s: u16)
    ensures
        s == create_status_spec(*outcome),
{
    match outcome {
        CreateOutcome::Rejected => STATUS_BAD_REQUEST,
        CreateOutcome::Answered(r) => match r {
            Ok(_) => STATUS_OK,
            Err(_) => STATUS_INTERNAL_SERVER_ERROR,
        },
        CreateOutcome::NotDispatched => STATUS_INTERNAL_SERVER_ERROR,
        CreateOutcome::ReplyLost => STATUS_INTERNAL_SERVER_ERROR,
    }
}

/// How a list request ends, as the handler sees it.
#[derive(Debug, PartialEq, Eq)]
pub enum ListOutcome {
    /// The actor answered through the reply slot.
    Answered(Result<Vec<String>, ServiceError>),
    /// The command could not be placed on the channel.
    NotDispatched,
    /// The reply slot was dropped before an answer arrived.
    ReplyLost,
}

/// Maps a list outcome to the response: a successful snapshot is reported
/// as-is with plain success, and any failure as the server's fault with an
/// empty list for a body.
pub fn list_response(outcome: ListOutcome) -> (r: (u16, Vec<String>))
    ensures
        outcome matches ListOutcome::Answered(Ok(v)) ==> r.0 == STATUS_OK && r.1 == v,
        !(outcome matches ListOutcome::Answered(Ok(_))) ==> r.0 == STATUS_INTERNAL_SERVER_ERROR
            && r.1@ == Seq::<String>::empty(),
{
    match outcome {
        ListOutcome::Answered(Ok(v)) => (STATUS_OK, v),
        ListOutcome::Answered(Err(_)) => (STATUS_INTERNAL_SERVER_ERROR, Vec::new()),
        ListOutcome::NotDispatched => (STATUS_INTERNAL_SERVER_ERROR, Vec::new()),
        ListOutcome::ReplyLost => (STATUS_INTERNAL_SERVER_ERROR, Vec::new()),
    }
}

} // verus!
