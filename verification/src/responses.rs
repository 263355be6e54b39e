//! What the signalling services hand back: rows together with the rows they refer to.
use vstd::prelude::*;
use crate::entities::{Member, Message, Participant, Room, User};

verus! {

/// A membership with its user.
#[derive(Debug, PartialEq)]
pub struct MemberResponse {
    pub member: Member,
    pub user: Option<User>,
}

impl Clone for MemberResponse {
    fn clone(&self) -> (r: Self)
        ensures
            r == *self,
    {
        MemberResponse { member: self.member.clone(), user: self.user.clone() }
    }
}

/// A participant with its user.
#[derive(Debug, PartialEq)]
pub struct ParticipantResponse {
    pub participant: Participant,
    pub user: Option<User>,
}

impl Clone for ParticipantResponse {
    fn clone(&self) -> (r: Self)
        ensures
            r == *self,
    {
        ParticipantResponse { participant: self.participant.clone(), user: self.user.clone() }
    }
}

/// A message with its author and its room.
#[derive(Debug, PartialEq)]
pub struct MessageResponse {
    pub message: Message,
    pub created_by: Option<User>,
    pub room: Option<Room>,
}

impl Clone for MessageResponse {
    fn clone(&self) -> (r: Self)
        ensures
            r == *self,
    {
        MessageResponse {
            message: self.message.clone(),
            created_by: self.created_by.clone(),
            room: self.room.clone(),
        }
    }
}

/// A room with its members, its participants and its latest message.
#[derive(Debug, PartialEq)]
pub struct RoomResponse {
    pub room: Room,
    pub members: Vec<MemberResponse>,
    pub participants: Vec<ParticipantResponse>,
    pub latest_message: Option<MessageResponse>,
    pub is_protected: Option<bool>,
}

impl Clone for RoomResponse {
    fn clone(&self) -> (r: Self)
        ensures
            r.room == self.room,
            r.members@ == self.members@,
            r.participants@ == self.participants@,
            r.latest_message == self.latest_message,
            r.is_protected == self.is_protected,
    {
        let members = self.members.clone();
        let participants = self.participants.clone();
        assert(members@ =~= self.members@);
        assert(participants@ =~= self.participants@);
        RoomResponse {
            room: self.room.clone(),
            members,
            participants,
            latest_message: self.latest_message.clone(),
            is_protected: self.is_protected,
        }
    }
}

/// The tokens issued to a user, and the user when it was looked up.
#[derive(Debug, PartialEq)]
pub struct AuthResponse {
    pub token: String,
    pub refresh_token: String,
    pub user: Option<User>,
}

} // verus!
