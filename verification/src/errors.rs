//! The errors the signalling services answer with.
use vstd::prelude::*;

verus! {

/// A failure below the services: the database could not be reached.
#[derive(Debug, PartialEq, Clone, Copy)]
pub enum GeneralError {
    DbConnectionError,
}

/// Why a room operation was refused.
#[derive(Debug, PartialEq)]
pub enum RoomError {
    RoomNotFound(i32),
    RoomCodeNotFound(String),
    YouDontHavePermissions,
    PasswordIncorrect,
    RoomIsFull,
    UnexpectedError(String),
    General(GeneralError),
}

/// Why a chat operation was refused.
#[derive(Debug, PartialEq)]
pub enum ChatError {
    ConversationNotFound(i32),
    MessageNotFound(i32),
    MemberNotFound(i32),
    Forbidden(String),
    UnexpectedError(String),
    General(GeneralError),
}

/// Why a user operation was refused.
#[derive(Debug, PartialEq)]
pub enum UserError {
    UserNotFound(i32),
    UserNameNotFound(String),
    UnexpectedError(String),
    General(GeneralError),
}

/// Why an authentication was refused.
#[derive(Debug, PartialEq)]
pub enum AuthError {
    UserNotFound(i32),
    InvalidAPIKey,
    UnexpectedError(String),
    General(GeneralError),
}

pub open spec fn is_room_unexpected(e: RoomError, msg: Seq<char>) -> bool {
    e matches RoomError::UnexpectedError(m) && m@ == msg
}

pub open spec fn is_chat_unexpected(e: ChatError, msg: Seq<char>) -> bool {
    e matches ChatError::UnexpectedError(m) && m@ == msg
}

pub open spec fn is_chat_forbidden(e: ChatError, msg: Seq<char>) -> bool {
    e matches ChatError::Forbidden(m) && m@ == msg
}

pub open spec fn is_auth_unexpected(e: AuthError, msg: Seq<char>) -> bool {
    e matches AuthError::UnexpectedError(m) && m@ == msg
}

/// A room error with a message.
pub fn room_unexpected(msg: &str) -> (e: RoomError)
    ensures
        is_room_unexpected(e, msg@),
{
    RoomError::UnexpectedError(msg.to_string())
}

/// A chat error with a message.
pub fn chat_unexpected(msg: &str) -> (e: ChatError)
    ensures
        is_chat_unexpected(e, msg@),
{
    ChatError::UnexpectedError(msg.to_string())
}

/// A refusal of a chat operation, with its reason.
pub fn chat_forbidden(msg: &str) -> (e: ChatError)
    ensures
        is_chat_forbidden(e, msg@),
{
    ChatError::Forbidden(msg.to_string())
}

/// An authentication error with a message.
pub fn auth_unexpected(msg: &str) -> (e: AuthError)
    ensures
        is_auth_unexpected(e, msg@),
{
    AuthError::UnexpectedError(msg.to_string())
}

} // verus!
