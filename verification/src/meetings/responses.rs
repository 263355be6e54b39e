//! What the meeting services hand back: rows together with the rows they refer to.
use vstd::prelude::*;
use crate::meetings::models::{Meeting, Member, Message, Participant, User};

verus! {

/// A membership with its user.
#[derive(Debug, PartialEq)]
pub struct MemberResponse {
    pub member: Member,
    pub user: Option<User>,
}

impl Clone for MemberResponse {
    fn clone(&self) -> (r: Self)
        ensures
            r == *self,
    {
        MemberResponse { member: self.member, user: self.user.clone() }
    }
}

/// A participant with its user.
#[derive(Debug, PartialEq)]
pub struct ParticipantResponse {
    pub participant: Participant,
    pub user: Option<User>,
}

impl Clone for ParticipantResponse {
    fn clone(&self) -> (r: Self)
        ensures
            r == *self,
    {
        ParticipantResponse { participant: self.participant, user: self.user.clone() }
    }
}

/// A message with its author and its meeting.
#[derive(Debug, PartialEq)]
pub struct MessageResponse {
    pub message: Message,
    pub created_by: Option<User>,
    pub meeting: Option<Meeting>,
}

impl Clone for MessageResponse {
    fn clone(&self) -> (r: Self)
        ensures
            r == *self,
    {
        MessageResponse {
            message: self.message.clone(),
            created_by: self.created_by.clone(),
            meeting: self.meeting.clone(),
        }
    }
}

/// A meeting with its members, its participants and its latest message.
#[derive(Debug, PartialEq)]
pub struct MeetingResponse {
    pub meeting: Meeting,
    pub members: Vec<MemberResponse>,
    pub participants: Vec<ParticipantResponse>,
    pub latest_message: Option<MessageResponse>,
}

} // verus!
