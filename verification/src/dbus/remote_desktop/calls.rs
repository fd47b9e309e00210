//! Calls from the D-Bus side into the compositor, and how they end.

use vstd::prelude::*;
use vstd::string::*;

verus! {

/// The error that a D-Bus call is answered with.
#[derive(Debug)]
pub enum FdoError {
    Failed(String),
    AccessDenied(String),
    NotSupported(String),
    InvalidArgs(String),
}

/// What an `FdoError` says.
pub enum ErrorView {
    Failed(Seq<char>),
    AccessDenied(Seq<char>),
    NotSupported(Seq<char>),
    InvalidArgs(Seq<char>),
}

impl View for FdoError {
    type V = ErrorView;

    open spec fn view(&self) -> ErrorView {
        match *self {
            FdoError::Failed(text) => ErrorView::Failed(text@),
            FdoError::AccessDenied(text) => ErrorView::AccessDenied(text@),
            FdoError::NotSupported(text) => ErrorView::NotSupported(text@),
            FdoError::InvalidArgs(text) => ErrorView::InvalidArgs(text@),
        }
    }
}

/// What came of sending a request to the compositor and waiting for its reply.
#[derive(Debug)]
pub enum CallOutcome<T> {
    /// The compositor does not listen anymore.
    NotSent,
    /// The compositor let go of the call.
    Dropped,
    Answered(Result<T, String>),
}

/// What a call into the compositor gives back.
pub fn call_niri<T>(outcome: CallOutcome<T>) -> (result: Result<T, FdoError>)
    ensures
        match outcome {
            CallOutcome::Answered(Ok(value)) => result == Ok::<T, FdoError>(value),
            CallOutcome::Answered(Err(error)) => result matches Err(e) && e@ == ErrorView::Failed(
                error@,
            ),
            _ => result matches Err(e) && e@ == ErrorView::Failed("internal error"@),
        },
{
    match outcome {
        CallOutcome::Answered(Ok(value)) => Ok(value),
        CallOutcome::Answered(Err(error)) => Err(FdoError::Failed(error)),
        CallOutcome::NotSent | CallOutcome::Dropped => Err(
            FdoError::Failed("internal error".to_owned()),
        ),
    }
}

/// The error for a peer that did not create the session.
pub open spec fn not_the_owner() -> ErrorView {
    ErrorView::AccessDenied("only the peer that created this session may use it"@)
}

/// Whether a message was sent by the peer with the given unique name.
pub open spec fn sent_by(sender: Option<String>, owner: Seq<char>) -> bool {
    sender matches Some(sender) && sender@ == owner
}

/// Methods and signals are only for the peer that created the session.
pub fn check_sender(sender: &Option<String>, owner: &String) -> (result: Result<(), FdoError>)
    ensures
        match result {
            Ok(_) => sent_by(*sender, owner@),
            Err(error) => !sent_by(*sender, owner@) && error@ == not_the_owner(),
        },
{
    if let Some(sender) = sender {
        if *sender == *owner {
            return Ok(());
        }
    }
    Err(
        FdoError::AccessDenied(
            "only the peer that created this session may use it".to_owned(),
        ),
    )
}

} // verus!
