//! The rows of the meeting service, with the enumerations coded in them as `i32`.
//! Every instant is a count of microseconds since the Unix epoch.
use vstd::prelude::*;

verus! {

/// Whether a meeting is in use: 0 active, 1 archived.
#[derive(Clone, Copy, PartialEq, Eq, Structural, Debug)]
pub enum MeetingsStatusEnum {
    Active,
    Archived,
}

impl MeetingsStatusEnum {
    pub open spec fn code(self) -> i32 {
        match self {
            MeetingsStatusEnum::Active => 0,
            MeetingsStatusEnum::Archived => 1,
        }
    }

    /// The stored code of a status.
    pub fn to_i32(self) -> (r: i32)
        ensures
            r == self.code(),
    {
        match self {
            MeetingsStatusEnum::Active => 0,
            MeetingsStatusEnum::Archived => 1,
        }
    }

    /// The status a stored code names; any other code is refused.
    pub fn try_from(value: i32) -> (r: Result<MeetingsStatusEnum, ()>)
        ensures
            value == 0 <==> r == Ok::<MeetingsStatusEnum, ()>(MeetingsStatusEnum::Active),
            value == 1 <==> r == Ok::<MeetingsStatusEnum, ()>(MeetingsStatusEnum::Archived),
            (value != 0 && value != 1) <==> r is Err,
    {
        if value == 0 {
            Ok(MeetingsStatusEnum::Active)
        } else if value == 1 {
            Ok(MeetingsStatusEnum::Archived)
        } else {
            Err(())
        }
    }
}

/// The role of a member: 0 host, 1 attendee.
#[derive(Clone, Copy, PartialEq, Eq, Structural, Debug)]
pub enum MembersRoleEnum {
    Host,
    Attendee,
}

impl MembersRoleEnum {
    pub open spec fn code(self) -> i32 {
        match self {
            MembersRoleEnum::Host => 0,
            MembersRoleEnum::Attendee => 1,
        }
    }

    /// The stored code of a role.
    pub fn to_i32(self) -> (r: i32)
        ensures
            r == self.code(),
    {
        match self {
            MembersRoleEnum::Host => 0,
            MembersRoleEnum::Attendee => 1,
        }
    }
}

/// Where a member stands: 0 invited, 1 hidden the conversation, 2 joined.
#[derive(Clone, Copy, PartialEq, Eq, Structural, Debug)]
pub enum MembersStatusEnum {
    Inviting,
    Invisible,
    Joined,
}

impl MembersStatusEnum {
    pub open spec fn code(self) -> i32 {
        match self {
            MembersStatusEnum::Inviting => 0,
            MembersStatusEnum::Invisible => 1,
            MembersStatusEnum::Joined => 2,
        }
    }

    /// The stored code of a member status.
    pub fn to_i32(self) -> (r: i32)
        ensures
            r == self.code(),
    {
        match self {
            MembersStatusEnum::Inviting => 0,
            MembersStatusEnum::Invisible => 1,
            MembersStatusEnum::Joined => 2,
        }
    }

    /// The member status a stored code names; any other code is refused.
    pub fn try_from(value: i32) -> (r: Result<MembersStatusEnum, ()>)
        ensures
            value == 0 <==> r == Ok::<MembersStatusEnum, ()>(MembersStatusEnum::Inviting),
            value == 1 <==> r == Ok::<MembersStatusEnum, ()>(MembersStatusEnum::Invisible),
            value == 2 <==> r == Ok::<MembersStatusEnum, ()>(MembersStatusEnum::Joined),
            (value < 0 || value > 2) <==> r is Err,
    {
        if value == 0 {
            Ok(MembersStatusEnum::Inviting)
        } else if value == 1 {
            Ok(MembersStatusEnum::Invisible)
        } else if value == 2 {
            Ok(MembersStatusEnum::Joined)
        } else {
            Err(())
        }
    }
}

/// The kind of a message: 0 written by a member, 1 a system notice.
#[derive(Clone, Copy, PartialEq, Eq, Structural, Debug)]
pub enum MessagesTypeEnum {
    Default,
    System,
}

impl MessagesTypeEnum {
    pub open spec fn code(self) -> i32 {
        match self {
            MessagesTypeEnum::Default => 0,
            MessagesTypeEnum::System => 1,
        }
    }

    /// The stored code of a message kind.
    pub fn to_i32(self) -> (r: i32)
        ensures
            r == self.code(),
    {
        match self {
            MessagesTypeEnum::Default => 0,
            MessagesTypeEnum::System => 1,
        }
    }
}

/// Whether a message is visible: 0 active, 1 deleted.
#[derive(Clone, Copy, PartialEq, Eq, Structural, Debug)]
pub enum MessagesStatusEnum {
    Active,
    Inactive,
}

impl MessagesStatusEnum {
    pub open spec fn code(self) -> i32 {
        match self {
            MessagesStatusEnum::Active => 0,
            MessagesStatusEnum::Inactive => 1,
        }
    }

    /// The stored code of a message status.
    pub fn to_i32(self) -> (r: i32)
        ensures
            r == self.code(),
    {
        match self {
            MessagesStatusEnum::Active => 0,
            MessagesStatusEnum::Inactive => 1,
        }
    }
}

/// Where a recording stands: 0 recording, 1 processing, 2 finished.
#[derive(Clone, Copy, PartialEq, Eq, Structural, Debug)]
pub enum RecordsStatusEnum {
    Recording,
    Processing,
    Finish,
}

/// Whether a participant is connected: 0 active, 1 inactive.
#[derive(Clone, Copy, PartialEq, Eq, Structural, Debug)]
pub enum ParticipantsStatusEnum {
    Active,
    Inactive,
}

impl ParticipantsStatusEnum {
    pub open spec fn code(self) -> i32 {
        match self {
            ParticipantsStatusEnum::Active => 0,
            ParticipantsStatusEnum::Inactive => 1,
        }
    }

    /// The stored code of a participant status.
    pub fn to_i32(self) -> (r: i32)
        ensures
            r == self.code(),
    {
        match self {
            ParticipantsStatusEnum::Active => 0,
            ParticipantsStatusEnum::Inactive => 1,
        }
    }
}

/// A socket connected to a media pod: one concurrent user session.
#[derive(Debug, PartialEq)]
pub struct Ccu {
    pub id: i32,
    pub socket_id: String,
    pub pod_name: String,
    pub created_at: i64,
    pub user_id: Option<i32>,
}

impl Clone for Ccu {
    fn clone(&self) -> (r: Self)
        ensures
            r == *self,
    {
        Ccu {
            id: self.id,
            socket_id: self.socket_id.clone(),
            pod_name: self.pod_name.clone(),
            created_at: self.created_at,
            user_id: self.user_id,
        }
    }
}

/// A meeting, found by its numeric code.
#[derive(Debug, PartialEq)]
pub struct Meeting {
    pub id: i32,
    pub title: String,
    /// The bcrypt hash of the meeting's password.
    pub password: String,
    pub avatar: Option<String>,
    pub status: i32,
    pub latest_message_created_at: Option<i64>,
    pub code: i32,
    pub created_at: i64,
    pub updated_at: i64,
    pub deleted_at: Option<i64>,
    pub latest_message_id: Option<i32>,
}

impl Clone for Meeting {
    fn clone(&self) -> (r: Self)
        ensures
            r == *self,
    {
        Meeting {
            id: self.id,
            title: self.title.clone(),
            password: self.password.clone(),
            avatar: self.avatar.clone(),
            status: self.status,
            latest_message_created_at: self.latest_message_created_at,
            code: self.code,
            created_at: self.created_at,
            updated_at: self.updated_at,
            deleted_at: self.deleted_at,
            latest_message_id: self.latest_message_id,
        }
    }
}

/// The membership of a user in a meeting.
#[derive(Debug, PartialEq, Clone, Copy)]
pub struct Member {
    pub id: i32,
    pub role: i32,
    pub status: i32,
    pub created_at: i64,
    pub deleted_at: Option<i64>,
    /// When the member last cleared the conversation.
    pub soft_deleted_at: Option<i64>,
    pub user_id: Option<i32>,
    pub meeting_id: Option<i32>,
}

/// A chat message of a meeting.
#[derive(Debug, PartialEq)]
pub struct Message {
    pub id: i32,
    pub data: String,
    pub type_: i32,
    pub status: i32,
    pub created_at: i64,
    pub updated_at: i64,
    pub deleted_at: Option<i64>,
    pub created_by_id: Option<i32>,
    pub meeting_id: Option<i32>,
}

impl Clone for Message {
    fn clone(&self) -> (r: Self)
        ensures
            r == *self,
    {
        Message {
            id: self.id,
            data: self.data.clone(),
            type_: self.type_,
            status: self.status,
            created_at: self.created_at,
            updated_at: self.updated_at,
            deleted_at: self.deleted_at,
            created_by_id: self.created_by_id,
            meeting_id: self.meeting_id,
        }
    }
}

/// A user in the call of a meeting, attached to a CCU once its socket publishes.
#[derive(Debug, PartialEq, Clone, Copy)]
pub struct Participant {
    pub id: i32,
    pub status: i32,
    pub created_at: i64,
    pub deleted_at: Option<i64>,
    pub user_id: Option<i32>,
    pub meeting_id: Option<i32>,
    pub ccu_id: Option<i32>,
}

/// One recorded track of a recording.
#[derive(Debug, PartialEq)]
pub struct RecordTrack {
    pub id: i32,
    pub url_to_video: String,
    pub start_time: String,
    pub end_time: String,
    pub created_at: i64,
    pub deleted_at: Option<i64>,
    pub record_id: Option<i32>,
    pub user_id: Option<i32>,
}

/// A recording of a meeting.
#[derive(Debug, PartialEq)]
pub struct Record {
    pub id: i32,
    pub url_to_video: Option<String>,
    pub thumbnail: Option<String>,
    pub duration: i32,
    pub status: i32,
    pub created_at: i64,
    pub deleted_at: Option<i64>,
    pub meeting_id: Option<i32>,
    pub created_by_id: Option<i32>,
}

/// A login session of a user.
#[derive(Debug, PartialEq, Clone, Copy)]
pub struct Session {
    pub id: i32,
    pub created_at: i64,
    pub deleted_at: Option<i64>,
    pub user_id: Option<i32>,
}

/// A user of the meeting service.
#[derive(Debug, PartialEq)]
pub struct User {
    pub id: i32,
    pub full_name: Option<String>,
    pub user_name: String,
    pub bio: Option<String>,
    pub google_id: Option<String>,
    pub custom_id: Option<String>,
    pub avatar: Option<String>,
    pub created_at: i64,
    pub updated_at: i64,
    pub deleted_at: Option<i64>,
    pub last_seen_at: Option<i64>,
}

impl Clone for User {
    fn clone(&self) -> (r: Self)
        ensures
            r == *self,
    {
        User {
            id: self.id,
            full_name: self.full_name.clone(),
            user_name: self.user_name.clone(),
            bio: self.bio.clone(),
            google_id: self.google_id.clone(),
            custom_id: self.custom_id.clone(),
            avatar: self.avatar.clone(),
            created_at: self.created_at,
            updated_at: self.updated_at,
            deleted_at: self.deleted_at,
            last_seen_at: self.last_seen_at,
        }
    }
}

/// The drawing of a meeting's whiteboard, as stored text.
#[derive(Debug, PartialEq)]
pub struct WhiteBoard {
    pub id: i32,
    pub paints: String,
    pub created_at: i64,
    pub deleted_at: Option<i64>,
    pub meeting_id: Option<i32>,
}

/// The fields of a user about to be inserted.
#[derive(Debug, PartialEq)]
pub struct NewUser {
    pub full_name: Option<String>,
    pub user_name: String,
    pub bio: Option<String>,
    pub google_id: Option<String>,
    pub custom_id: Option<String>,
    pub avatar: Option<String>,
    pub created_at: i64,
    pub updated_at: i64,
}

/// The fields of a message about to be inserted.
#[derive(Debug, PartialEq)]
pub struct NewMessage {
    pub data: String,
    pub created_by_id: Option<i32>,
    pub meeting_id: Option<i32>,
    pub status: i32,
    pub type_: i32,
    pub created_at: i64,
    pub updated_at: i64,
}

/// The fields of a meeting about to be inserted.
#[derive(Debug, PartialEq)]
pub struct NewMeeting {
    pub title: String,
    pub password: String,
    pub code: i32,
    pub created_at: i64,
    pub updated_at: i64,
    pub latest_message_created_at: i64,
    pub status: i32,
}

/// The fields of a membership about to be inserted.
#[derive(Debug, PartialEq, Clone, Copy)]
pub struct NewMember {
    pub meeting_id: i32,
    pub created_at: i64,
    pub user_id: Option<i32>,
    pub status: i32,
    pub role: i32,
}

/// The fields of a participant about to be inserted.
#[derive(Debug, PartialEq, Clone, Copy)]
pub struct NewParticipant {
    pub meeting_id: i32,
    pub user_id: Option<i32>,
    pub created_at: i64,
    pub status: i32,
    pub ccu_id: Option<i32>,
}

/// The fields of a CCU about to be inserted.
#[derive(Debug, PartialEq)]
pub struct NewCcu {
    pub socket_id: String,
    pub pod_name: String,
    pub created_at: i64,
    pub user_id: Option<i32>,
}

} // verus!
