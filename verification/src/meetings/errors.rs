//! The errors of the meeting service.
use vstd::prelude::*;
use crate::errors::GeneralError;

verus! {

/// Why a meeting operation was refused.
#[derive(Debug, PartialEq)]
pub enum MeetingError {
    MeetingNotFound(i32),
    MeetingExists(i32),
    YouDontHavePermissions,
    PasswordIncorrect,
    UnexpectedError(String),
    General(GeneralError),
}

/// Why a chat operation on a meeting was refused.
#[derive(Debug, PartialEq)]
pub enum ChatError {
    MessageNotFound(i32),
    MessageExists(i32),
    ConversationNotFound(i32),
    MemberNotFound(i32),
    Forbidden(String),
    UnexpectedError(String),
    General(GeneralError),
}

/// Why an operation on a CCU failed.
#[derive(Debug, PartialEq)]
pub enum CcuError {
    NotFoundCcu,
    FailedToCreateCcu,
    FailedToUpdateCcu,
    FailedToDeleteCcu(String),
    General(GeneralError),
}

pub open spec fn is_meeting_unexpected(e: MeetingError, msg: Seq<char>) -> bool {
    e matches MeetingError::UnexpectedError(m) && m@ == msg
}

pub open spec fn is_chat_unexpected(e: ChatError, msg: Seq<char>) -> bool {
    e matches ChatError::UnexpectedError(m) && m@ == msg
}

pub open spec fn is_chat_forbidden(e: ChatError, msg: Seq<char>) -> bool {
    e matches ChatError::Forbidden(m) && m@ == msg
}

/// A meeting error with a message.
pub fn meeting_unexpected(msg: &str) -> (e: MeetingError)
    ensures
        is_meeting_unexpected(e, msg@),
{
    MeetingError::UnexpectedError(msg.to_string())
}

/// A chat error with a message.
pub fn chat_unexpected(msg: &str) -> (e: ChatError)
    ensures
        is_chat_unexpected(e, msg@),
{
    ChatError::UnexpectedError(msg.to_string())
}

/// A refusal of a chat operation, with its reason.
pub fn chat_forbidden(msg: &str) -> (e: ChatError)
    ensures
        is_chat_forbidden(e, msg@),
{
    ChatError::Forbidden(msg.to_string())
}

} // verus!
