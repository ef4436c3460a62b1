//! The words in which a failed run is reported: the stage, then the cause.

use vstd::prelude::*;
use vstd::string::StringExecFns;
use crate::engine::Stage;
use crate::model::{ProtocolError, ProtocolErrorView};
use crate::text::{decimal, push_decimal};

verus! {

/// The name of a stage in reports.
pub open spec fn stage_name(stage: Stage) -> Seq<char> {
    match stage {
        Stage::Login => "login"@,
        Stage::Verification => "site listing"@,
        Stage::GuestAuthorization => "guest authorization"@,
    }
}

/// The words that lead up to a refused status, by the call that met it.
pub open spec fn refusal_lead(stage: Stage) -> Seq<char> {
    match stage {
        Stage::Login => "Authentication failed with status "@,
        Stage::Verification => "Sites API responded with status "@,
        Stage::GuestAuthorization => "Guest auth API responded with status "@,
    }
}

/// The cause of a failure in words. A refused status is told by the call
/// that met it, with the status in decimal; a transport failure and an API
/// message are given as they came.
pub open spec fn cause_text(stage: Stage, error: ProtocolErrorView) -> Seq<char> {
    match error {
        ProtocolErrorView::TransportError { message } => message,
        ProtocolErrorView::AuthRejected { status } => refusal_lead(Stage::Login) + decimal(
            status as nat,
        ),
        ProtocolErrorView::MissingSession => "No cookies received from server"@,
        ProtocolErrorView::HttpRejected { status } => refusal_lead(stage) + decimal(status as nat),
        ProtocolErrorView::ApiError { message } => "UniFi API error: "@ + message,
        ProtocolErrorView::DecodeError => "Response body is not the expected JSON envelope"@,
    }
}

/// The line that reports a failure: `{stage}: {cause}`.
pub open spec fn failure_text(stage: Stage, error: ProtocolErrorView) -> Seq<char> {
    stage_name(stage) + ": "@ + cause_text(stage, error)
}

impl Stage {
    /// The name of this stage in reports.
    pub fn name(&self) -> (r: &'static str)
        ensures
            r@ == stage_name(*self),
    {
        match self {
            Stage::Login => "login",
            Stage::Verification => "site listing",
            Stage::GuestAuthorization => "guest authorization",
        }
    }
}

fn refusal_lead_text(stage: Stage) -> (r: &'static str)
    ensures
        r@ == refusal_lead(stage),
{
    match stage {
        Stage::Login => "Authentication failed with status ",
        Stage::Verification => "Sites API responded with status ",
        Stage::GuestAuthorization => "Guest auth API responded with status ",
    }
}

/// Appends the cause of a failure to `out`; see [`cause_text`].
fn push_cause(out: &mut String, stage: Stage, error: &ProtocolError)
    ensures
        final(out)@ == old(out)@ + cause_text(stage, error@),
{
    match error {
        ProtocolError::TransportError { message } => {
            out.append(message.as_str());
        },
        ProtocolError::AuthRejected { status } => {
            out.append(refusal_lead_text(Stage::Login));
            push_decimal(out, *status as u32);
        },
        ProtocolError::MissingSession => {
            out.append("No cookies received from server");
        },
        ProtocolError::HttpRejected { status } => {
            out.append(refusal_lead_text(stage));
            push_decimal(out, *status as u32);
        },
        ProtocolError::ApiError { message } => {
            out.append("UniFi API error: ");
            out.append(message.as_str());
        },
        ProtocolError::DecodeError => {
            out.append("Response body is not the expected JSON envelope");
        },
    }
}

/// The line that reports the failure of `stage` with `error`.
pub fn failure_message(stage: Stage, error: &ProtocolError) -> (r: String)
    ensures
        r@ == failure_text(stage, error@),
{
    let mut out = String::from_str(stage.name());
    out.append(": ");
    push_cause(&mut out, stage, error);
    out
}

} // verus!
