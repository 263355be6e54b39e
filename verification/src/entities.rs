//! The rows the signalling service stores: users, rooms, their members,
//! participants and messages, with the small enumerations coded in them.
//! Every instant is a count of microseconds since the Unix epoch.
use vstd::prelude::*;

verus! {

/// Whether a room is in use. Stored as 0 (active) or 1 (inactive).
#[derive(Clone, Copy, PartialEq, Eq, Structural, Debug)]
pub enum RoomStatusEnum {
    Active,
    Inactive,
}

impl RoomStatusEnum {
    pub open spec fn code(self) -> i16 {
        match self {
            RoomStatusEnum::Active => 0,
            RoomStatusEnum::Inactive => 1,
        }
    }

    /// The stored code of a status.
    pub fn to_i16(self) -> (r: i16)
        ensures
            r == self.code(),
    {
        match self {
            RoomStatusEnum::Active => 0,
            RoomStatusEnum::Inactive => 1,
        }
    }

    pub open spec fn decode(v: i16) -> RoomStatusEnum {
        if v == 1 { RoomStatusEnum::Inactive } else { RoomStatusEnum::Active }
    }

    /// The status a stored code stands for; an unknown code reads as `Active`.
    pub fn from_i16(v: i16) -> (r: RoomStatusEnum)
        ensures
            r == Self::decode(v),
    {
        if v == 1 { RoomStatusEnum::Inactive } else { RoomStatusEnum::Active }
    }

    /// The status a requested number names, if it names one.
    pub fn try_from(v: i32) -> (r: Result<RoomStatusEnum, ()>)
        ensures
            v == 0 <==> r == Ok::<RoomStatusEnum, ()>(RoomStatusEnum::Active),
            v == 1 <==> r == Ok::<RoomStatusEnum, ()>(RoomStatusEnum::Inactive),
            (v != 0 && v != 1) <==> r is Err,
    {
        if v == 0 {
            Ok(RoomStatusEnum::Active)
        } else if v == 1 {
            Ok(RoomStatusEnum::Inactive)
        } else {
            Err(())
        }
    }
}

/// The role of a member in a room. Stored as 0 (owner) or 1 (attendee).
#[derive(Clone, Copy, PartialEq, Eq, Structural, Debug)]
pub enum MembersRoleEnum {
    Owner,
    Attendee,
}

impl MembersRoleEnum {
    pub open spec fn code(self) -> i16 {
        match self {
            MembersRoleEnum::Owner => 0,
            MembersRoleEnum::Attendee => 1,
        }
    }

    /// The stored code of a role.
    pub fn to_i16(self) -> (r: i16)
        ensures
            r == self.code(),
    {
        match self {
            MembersRoleEnum::Owner => 0,
            MembersRoleEnum::Attendee => 1,
        }
    }

    pub open spec fn decode(v: i16) -> MembersRoleEnum {
        if v == 1 { MembersRoleEnum::Attendee } else { MembersRoleEnum::Owner }
    }

    /// The role a stored code stands for; an unknown code reads as `Owner`.
    pub fn from_i16(v: i16) -> (r: MembersRoleEnum)
        ensures
            r == Self::decode(v),
    {
        if v == 1 { MembersRoleEnum::Attendee } else { MembersRoleEnum::Owner }
    }
}

/// Whether a participant is connected. Stored as 0 (active) or 1 (inactive).
#[derive(Clone, Copy, PartialEq, Eq, Structural, Debug)]
pub enum ParticipantsStatusEnum {
    Active,
    Inactive,
}

impl ParticipantsStatusEnum {
    pub open spec fn code(self) -> i16 {
        match self {
            ParticipantsStatusEnum::Active => 0,
            ParticipantsStatusEnum::Inactive => 1,
        }
    }

    /// The stored code of a participant status.
    pub fn to_i16(self) -> (r: i16)
        ensures
            r == self.code(),
    {
        match self {
            ParticipantsStatusEnum::Active => 0,
            ParticipantsStatusEnum::Inactive => 1,
        }
    }

    pub open spec fn decode(v: i16) -> ParticipantsStatusEnum {
        if v == 1 { ParticipantsStatusEnum::Inactive } else { ParticipantsStatusEnum::Active }
    }

    /// The participant status a stored code stands for; an unknown code reads as `Active`.
    pub fn from_i16(v: i16) -> (r: ParticipantsStatusEnum)
        ensures
            r == Self::decode(v),
    {
        if v == 1 { ParticipantsStatusEnum::Inactive } else { ParticipantsStatusEnum::Active }
    }
}

/// Whether a message is visible. Stored as 0 (active) or 1 (inactive, deleted).
#[derive(Clone, Copy, PartialEq, Eq, Structural, Debug)]
pub enum MessagesStatusEnum {
    Active,
    Inactive,
}

impl MessagesStatusEnum {
    pub open spec fn code(self) -> i16 {
        match self {
            MessagesStatusEnum::Active => 0,
            MessagesStatusEnum::Inactive => 1,
        }
    }

    /// The stored code of a message status.
    pub fn to_i16(self) -> (r: i16)
        ensures
            r == self.code(),
    {
        match self {
            MessagesStatusEnum::Active => 0,
            MessagesStatusEnum::Inactive => 1,
        }
    }

    pub open spec fn decode(v: i16) -> MessagesStatusEnum {
        if v == 1 { MessagesStatusEnum::Inactive } else { MessagesStatusEnum::Active }
    }

    /// The message status a stored code stands for; an unknown code reads as `Active`.
    pub fn from_i16(v: i16) -> (r: MessagesStatusEnum)
        ensures
            r == Self::decode(v),
    {
        if v == 1 { MessagesStatusEnum::Inactive } else { MessagesStatusEnum::Active }
    }
}

/// The kind of a message. Stored as 0 (written by a user) or 1 (system notice).
#[derive(Clone, Copy, PartialEq, Eq, Structural, Debug)]
pub enum MessagesTypeEnum {
    Default,
    System,
}

impl MessagesTypeEnum {
    pub open spec fn code(self) -> i16 {
        match self {
            MessagesTypeEnum::Default => 0,
            MessagesTypeEnum::System => 1,
        }
    }

    /// The stored code of a message kind.
    pub fn to_i16(self) -> (r: i16)
        ensures
            r == self.code(),
    {
        match self {
            MessagesTypeEnum::Default => 0,
            MessagesTypeEnum::System => 1,
        }
    }

    pub open spec fn decode(v: i16) -> MessagesTypeEnum {
        if v == 1 { MessagesTypeEnum::System } else { MessagesTypeEnum::Default }
    }

    /// The message kind a stored code stands for; an unknown code reads as `Default`.
    pub fn from_i16(v: i16) -> (r: MessagesTypeEnum)
        ensures
            r == Self::decode(v),
    {
        if v == 1 { MessagesTypeEnum::System } else { MessagesTypeEnum::Default }
    }
}

/// What a room is for. Stored as 0 (conferencing) or 1 (live streaming).
#[derive(Clone, Copy, PartialEq, Eq, Structural, Debug)]
pub enum RoomType {
    Conferencing,
    LiveStreaming,
}

impl RoomType {
    pub open spec fn code(self) -> i16 {
        match self {
            RoomType::Conferencing => 0,
            RoomType::LiveStreaming => 1,
        }
    }

    /// The stored code of a room type.
    pub fn to_i16(self) -> (r: i16)
        ensures
            r == self.code(),
    {
        match self {
            RoomType::Conferencing => 0,
            RoomType::LiveStreaming => 1,
        }
    }

    pub open spec fn decode(v: i16) -> RoomType {
        if v == 1 { RoomType::LiveStreaming } else { RoomType::Conferencing }
    }

    /// The room type a stored code stands for; an unknown code reads as `Conferencing`.
    pub fn from_i16(v: i16) -> (r: RoomType)
        ensures
            r == Self::decode(v),
    {
        if v == 1 { RoomType::LiveStreaming } else { RoomType::Conferencing }
    }
}

/// How media of a room travels. Stored as 0 (selective forwarding) or 1 (HLS).
#[derive(Clone, Copy, PartialEq, Eq, Structural, Debug)]
pub enum StreamingProtocol {
    SFU,
    HLS,
}

impl StreamingProtocol {
    pub open spec fn code(self) -> i16 {
        match self {
            StreamingProtocol::SFU => 0,
            StreamingProtocol::HLS => 1,
        }
    }

    /// The stored code of a streaming protocol.
    pub fn to_i16(self) -> (r: i16)
        ensures
            r == self.code(),
    {
        match self {
            StreamingProtocol::SFU => 0,
            StreamingProtocol::HLS => 1,
        }
    }

    pub open spec fn decode(v: i16) -> StreamingProtocol {
        if v == 1 { StreamingProtocol::HLS } else { StreamingProtocol::SFU }
    }

    /// The protocol a stored code stands for; an unknown code reads as `SFU`.
    pub fn from_i16(v: i16) -> (r: StreamingProtocol)
        ensures
            r == Self::decode(v),
    {
        if v == 1 { StreamingProtocol::HLS } else { StreamingProtocol::SFU }
    }
}

/// A registered user.
#[derive(Debug, PartialEq)]
pub struct User {
    pub id: i32,
    pub full_name: Option<String>,
    pub user_name: String,
    pub bio: Option<String>,
    pub external_id: String,
    pub avatar: Option<String>,
    pub created_at: i64,
    pub updated_at: i64,
    pub deleted_at: Option<i64>,
    pub last_seen_at: Option<i64>,
}

impl Clone for User {
    fn clone(&self) -> (r: Self)
        ensures
            r == *self,
    {
        User {
            id: self.id,
            full_name: self.full_name.clone(),
            user_name: self.user_name.clone(),
            bio: self.bio.clone(),
            external_id: self.external_id.clone(),
            avatar: self.avatar.clone(),
            created_at: self.created_at,
            updated_at: self.updated_at,
            deleted_at: self.deleted_at,
            last_seen_at: self.last_seen_at,
        }
    }
}

/// A room: a conversation that may hold a call.
#[derive(Debug, PartialEq)]
pub struct Room {
    pub id: i32,
    pub title: String,
    /// The bcrypt hash of the room's password, if it has one.
    pub password: Option<String>,
    pub avatar: Option<String>,
    pub status: i16,
    pub latest_message_created_at: Option<i64>,
    pub code: String,
    pub created_at: i64,
    pub updated_at: i64,
    pub deleted_at: Option<i64>,
    pub latest_message_id: Option<i32>,
    pub type_: i16,
    pub capacity: Option<i32>,
    pub streaming_protocol: Option<i16>,
}

impl Clone for Room {
    fn clone(&self) -> (r: Self)
        ensures
            r == *self,
    {
        Room {
            id: self.id,
            title: self.title.clone(),
            password: self.password.clone(),
            avatar: self.avatar.clone(),
            status: self.status,
            latest_message_created_at: self.latest_message_created_at,
            code: self.code.clone(),
            created_at: self.created_at,
            updated_at: self.updated_at,
            deleted_at: self.deleted_at,
            latest_message_id: self.latest_message_id,
            type_: self.type_,
            capacity: self.capacity,
            streaming_protocol: self.streaming_protocol,
        }
    }
}

/// The membership of a user in a room.
#[derive(Debug, PartialEq)]
pub struct Member {
    pub id: i32,
    pub role: i16,
    pub created_at: i64,
    pub deleted_at: Option<i64>,
    /// When the member last cleared the conversation; older messages stay hidden from them.
    pub soft_deleted_at: Option<i64>,
    pub user_id: i32,
    pub room_id: i32,
}

impl Clone for Member {
    fn clone(&self) -> (r: Self)
        ensures
            r == *self,
    {
        Member {
            id: self.id,
            role: self.role,
            created_at: self.created_at,
            deleted_at: self.deleted_at,
            soft_deleted_at: self.soft_deleted_at,
            user_id: self.user_id,
            room_id: self.room_id,
        }
    }
}

/// A user taking part in the call of a room, served by a media node.
#[derive(Debug, PartialEq)]
pub struct Participant {
    pub id: i32,
    pub created_at: i64,
    pub deleted_at: Option<i64>,
    pub user_id: i32,
    pub room_id: i32,
    pub status: i16,
    pub node_id: Option<String>,
}

impl Clone for Participant {
    fn clone(&self) -> (r: Self)
        ensures
            r == *self,
    {
        Participant {
            id: self.id,
            created_at: self.created_at,
            deleted_at: self.deleted_at,
            user_id: self.user_id,
            room_id: self.room_id,
            status: self.status,
            node_id: self.node_id.clone(),
        }
    }
}

/// A chat message of a room.
#[derive(Debug, PartialEq)]
pub struct Message {
    pub id: i32,
    pub data: String,
    pub created_at: i64,
    pub updated_at: i64,
    pub deleted_at: Option<i64>,
    pub created_by_id: i32,
    pub room_id: i32,
    pub type_: i16,
    pub status: i16,
}

impl Clone for Message {
    fn clone(&self) -> (r: Self)
        ensures
            r == *self,
    {
        Message {
            id: self.id,
            data: self.data.clone(),
            created_at: self.created_at,
            updated_at: self.updated_at,
            deleted_at: self.deleted_at,
            created_by_id: self.created_by_id,
            room_id: self.room_id,
            type_: self.type_,
            status: self.status,
        }
    }
}

/// The fields of a user about to be inserted.
#[derive(Debug, PartialEq)]
pub struct NewUser {
    pub full_name: Option<String>,
    pub external_id: String,
    pub user_name: String,
    pub created_at: i64,
    pub updated_at: i64,
    pub bio: Option<String>,
    pub avatar: Option<String>,
}

/// The fields of a message about to be inserted.
#[derive(Debug, PartialEq)]
pub struct NewMessage {
    pub data: String,
    pub created_by_id: Option<i32>,
    pub room_id: Option<i32>,
    pub status: i16,
    pub type_: i16,
    pub created_at: i64,
    pub updated_at: i64,
}

/// The fields of a room about to be inserted.
#[derive(Debug, PartialEq)]
pub struct NewRoom {
    pub title: String,
    pub password: Option<String>,
    pub code: String,
    pub status: i16,
    pub created_at: i64,
    pub updated_at: i64,
    pub latest_message_created_at: i64,
    pub type_: i16,
    pub capacity: Option<i32>,
    pub streaming_protocol: Option<i16>,
}

/// The fields of a membership about to be inserted.
#[derive(Debug, PartialEq)]
pub struct NewMember {
    pub room_id: i32,
    pub user_id: Option<i32>,
    pub role: i16,
    pub created_at: i64,
}

/// The fields of a participant about to be inserted.
#[derive(Debug, PartialEq)]
pub struct NewParticipant {
    pub user_id: Option<i32>,
    pub room_id: i32,
    pub status: i16,
    pub created_at: i64,
}

/// Decoding a stored code gives back the status it was stored from.
pub proof fn lemma_room_status_round_trip(s: RoomStatusEnum)
    ensures
        RoomStatusEnum::decode(s.code()) == s,
{
}

/// Decoding a stored code gives back the role it was stored from.
pub proof fn lemma_member_role_round_trip(r: MembersRoleEnum)
    ensures
        MembersRoleEnum::decode(r.code()) == r,
{
}

/// Decoding a stored code gives back the message status it was stored from.
pub proof fn lemma_message_status_round_trip(s: MessagesStatusEnum)
    ensures
        MessagesStatusEnum::decode(s.code()) == s,
{
}

/// Decoding a stored code gives back the participant status it was stored from.
pub proof fn lemma_participant_status_round_trip(s: ParticipantsStatusEnum)
    ensures
        ParticipantsStatusEnum::decode(s.code()) == s,
{
}

/// Decoding a stored code gives back the message kind, room type and protocol it was stored from.
pub proof fn lemma_kind_codes_round_trip(t: MessagesTypeEnum, k: RoomType, p: StreamingProtocol)
    ensures
        MessagesTypeEnum::decode(t.code()) == t,
        RoomType::decode(k.code()) == k,
        StreamingProtocol::decode(p.code()) == p,
{
}

} // verus!
