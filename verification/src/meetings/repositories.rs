//! The storage the meeting services read and write. Each trait is implemented over the
//! database by the server and by test doubles in tests. Nothing is promised of what an
//! implementation returns: each method's answer is named by a spec function that allows any
//! answer unless an implementation narrows it, so the services are verified for every answer
//! and their contracts say which answers they pass on. Services reach a store only through a
//! wrapper that records each call with its answer, so their contracts also say which calls
//! they make, in which order, and which they do not make.
use vstd::prelude::*;
use crate::errors::GeneralError;
use crate::meetings::errors::{CcuError, ChatError, MeetingError};
use crate::meetings::models::{Ccu, Meeting, MeetingsStatusEnum, Member, MembersStatusEnum, Message, NewCcu, NewMeeting, NewMember, NewMessage, NewParticipant, Participant, User};
use crate::meetings::responses::{MeetingResponse, MemberResponse, MessageResponse, ParticipantResponse};

verus! {

/// Meetings, their members and their participants.
pub trait MeetingRepository {
    /// Whether `r` is an answer this store may give to `find_all(user_id, member_status, meeting_status, skip, limit)`; any answer,
    /// unless an implementation says which.
    open spec fn answers_find_all(&self, user_id: i32, member_status: MembersStatusEnum, meeting_status: MeetingsStatusEnum, skip: i64, limit: i64, r: Result<Vec<MeetingResponse>, MeetingError>) -> bool {
        true
    }

    fn find_all(&self, user_id: i32, member_status: MembersStatusEnum, meeting_status: MeetingsStatusEnum, skip: i64, limit: i64) -> (r: Result<Vec<MeetingResponse>, MeetingError>)
        ensures
            self.answers_find_all(user_id, member_status, meeting_status, skip, limit, r);

    /// Whether `r` is an answer this store may give to `get_meeting_by_id(meeting_id)`; any answer,
    /// unless an implementation says which.
    open spec fn answers_get_meeting_by_id(&self, meeting_id: i32, r: Result<MeetingResponse, MeetingError>) -> bool {
        true
    }

    fn get_meeting_by_id(&self, meeting_id: i32) -> (r: Result<MeetingResponse, MeetingError>)
        ensures
            self.answers_get_meeting_by_id(meeting_id, r);

    /// Whether `r` is an answer this store may give to `get_meeting_by_code(meeting_code)`; any answer,
    /// unless an implementation says which.
    open spec fn answers_get_meeting_by_code(&self, meeting_code: i32, r: Result<MeetingResponse, MeetingError>) -> bool {
        true
    }

    fn get_meeting_by_code(&self, meeting_code: i32) -> (r: Result<MeetingResponse, MeetingError>)
        ensures
            self.answers_get_meeting_by_code(meeting_code, r);

    /// Whether `r` is an answer this store may give to `create_meeting(meeting)`; any answer,
    /// unless an implementation says which.
    open spec fn answers_create_meeting(&self, meeting: NewMeeting, r: Result<MeetingResponse, MeetingError>) -> bool {
        true
    }

    fn create_meeting(&self, meeting: NewMeeting) -> (r: Result<MeetingResponse, MeetingError>)
        ensures
            self.answers_create_meeting(meeting, r);

    /// Whether `r` is an answer this store may give to `update_meeting(meeting)`; any answer,
    /// unless an implementation says which.
    open spec fn answers_update_meeting(&self, meeting: Meeting, r: Result<MeetingResponse, MeetingError>) -> bool {
        true
    }

    fn update_meeting(&self, meeting: Meeting) -> (r: Result<MeetingResponse, MeetingError>)
        ensures
            self.answers_update_meeting(meeting, r);

    /// Whether `r` is an answer this store may give to `get_member_by_id(member_id)`; any answer,
    /// unless an implementation says which.
    open spec fn answers_get_member_by_id(&self, member_id: i32, r: Result<MemberResponse, MeetingError>) -> bool {
        true
    }

    fn get_member_by_id(&self, member_id: i32) -> (r: Result<MemberResponse, MeetingError>)
        ensures
            self.answers_get_member_by_id(member_id, r);

    /// Whether `r` is an answer this store may give to `create_member(member)`; any answer,
    /// unless an implementation says which.
    open spec fn answers_create_member(&self, member: NewMember, r: Result<MemberResponse, MeetingError>) -> bool {
        true
    }

    fn create_member(&self, member: NewMember) -> (r: Result<MemberResponse, MeetingError>)
        ensures
            self.answers_create_member(member, r);

    /// Whether `r` is an answer this store may give to `update_member(member)`; any answer,
    /// unless an implementation says which.
    open spec fn answers_update_member(&self, member: Member, r: Result<MemberResponse, MeetingError>) -> bool {
        true
    }

    fn update_member(&self, member: Member) -> (r: Result<MemberResponse, MeetingError>)
        ensures
            self.answers_update_member(member, r);

    /// Whether `r` is an answer this store may give to `delete_member_by_id(member_id)`; any answer,
    /// unless an implementation says which.
    open spec fn answers_delete_member_by_id(&self, member_id: i32, r: Result<(), MeetingError>) -> bool {
        true
    }

    fn delete_member_by_id(&self, member_id: i32) -> (r: Result<(), MeetingError>)
        ensures
            self.answers_delete_member_by_id(member_id, r);

    /// Whether `r` is an answer this store may give to `get_participant_by_id(participant_id)`; any answer,
    /// unless an implementation says which.
    open spec fn answers_get_participant_by_id(&self, participant_id: i32, r: Result<ParticipantResponse, MeetingError>) -> bool {
        true
    }

    fn get_participant_by_id(&self, participant_id: i32) -> (r: Result<ParticipantResponse, MeetingError>)
        ensures
            self.answers_get_participant_by_id(participant_id, r);

    /// Whether `r` is an answer this store may give to `create_participant(participant)`; any answer,
    /// unless an implementation says which.
    open spec fn answers_create_participant(&self, participant: NewParticipant, r: Result<ParticipantResponse, MeetingError>) -> bool {
        true
    }

    fn create_participant(&self, participant: NewParticipant) -> (r: Result<ParticipantResponse, MeetingError>)
        ensures
            self.answers_create_participant(participant, r);

    /// Whether `r` is an answer this store may give to `update_participant(participant)`; any answer,
    /// unless an implementation says which.
    open spec fn answers_update_participant(&self, participant: Participant, r: Result<ParticipantResponse, MeetingError>) -> bool {
        true
    }

    fn update_participant(&self, participant: Participant) -> (r: Result<ParticipantResponse, MeetingError>)
        ensures
            self.answers_update_participant(participant, r);

    /// Whether `r` is an answer this store may give to `delete_participant_by_id(participant_id)`; any answer,
    /// unless an implementation says which.
    open spec fn answers_delete_participant_by_id(&self, participant_id: i32, r: Result<(), MeetingError>) -> bool {
        true
    }

    fn delete_participant_by_id(&self, participant_id: i32) -> (r: Result<(), MeetingError>)
        ensures
            self.answers_delete_participant_by_id(participant_id, r);

}

/// Users, as the meeting services look them up.
pub trait UserRepository {
    /// Whether `r` is an answer this store may give to `get_user_by_id(user_id)`; any answer,
    /// unless an implementation says which.
    open spec fn answers_get_user_by_id(&self, user_id: i32, r: Result<User, GeneralError>) -> bool {
        true
    }

    fn get_user_by_id(&self, user_id: i32) -> (r: Result<User, GeneralError>)
        ensures
            self.answers_get_user_by_id(user_id, r);

}

/// Messages of meetings.
pub trait ChatRepository {
    /// Whether `r` is an answer this store may give to `get_messages_by_meeting(meeting_id, deleted_at, skip, limit)`; any answer,
    /// unless an implementation says which.
    open spec fn answers_get_messages_by_meeting(&self, meeting_id: i32, deleted_at: i64, skip: i64, limit: i64, r: Result<Vec<MessageResponse>, ChatError>) -> bool {
        true
    }

    fn get_messages_by_meeting(&self, meeting_id: i32, deleted_at: i64, skip: i64, limit: i64) -> (r: Result<Vec<MessageResponse>, ChatError>)
        ensures
            self.answers_get_messages_by_meeting(meeting_id, deleted_at, skip, limit, r);

    /// Whether `r` is an answer this store may give to `get_message_by_id(message_id)`; any answer,
    /// unless an implementation says which.
    open spec fn answers_get_message_by_id(&self, message_id: i32, r: Result<MessageResponse, ChatError>) -> bool {
        true
    }

    fn get_message_by_id(&self, message_id: i32) -> (r: Result<MessageResponse, ChatError>)
        ensures
            self.answers_get_message_by_id(message_id, r);

    /// Whether `r` is an answer this store may give to `create_message(message)`; any answer,
    /// unless an implementation says which.
    open spec fn answers_create_message(&self, message: NewMessage, r: Result<Message, ChatError>) -> bool {
        true
    }

    fn create_message(&self, message: NewMessage) -> (r: Result<Message, ChatError>)
        ensures
            self.answers_create_message(message, r);

    /// Whether `r` is an answer this store may give to `update_message(message)`; any answer,
    /// unless an implementation says which.
    open spec fn answers_update_message(&self, message: Message, r: Result<Message, ChatError>) -> bool {
        true
    }

    fn update_message(&self, message: Message) -> (r: Result<Message, ChatError>)
        ensures
            self.answers_update_message(message, r);

    /// Whether `r` is an answer this store may give to `delete_message_by_id(message_id)`; any answer,
    /// unless an implementation says which.
    open spec fn answers_delete_message_by_id(&self, message_id: i32, r: Result<Message, ChatError>) -> bool {
        true
    }

    fn delete_message_by_id(&self, message_id: i32) -> (r: Result<Message, ChatError>)
        ensures
            self.answers_delete_message_by_id(message_id, r);

}

/// The sessions (CCUs) of connected sockets.
pub trait CcuRepository {
    /// Whether `r` is an answer this store may give to `create_ccu(ccu)`; any answer,
    /// unless an implementation says which.
    open spec fn answers_create_ccu(&self, ccu: NewCcu, r: Result<Ccu, CcuError>) -> bool {
        true
    }

    fn create_ccu(&self, ccu: NewCcu) -> (r: Result<Ccu, CcuError>)
        ensures
            self.answers_create_ccu(ccu, r);

    /// Whether `r` is an answer this store may give to `get_ccu_by_id(ccu_id)`; any answer,
    /// unless an implementation says which.
    open spec fn answers_get_ccu_by_id(&self, ccu_id: i32, r: Result<Ccu, CcuError>) -> bool {
        true
    }

    fn get_ccu_by_id(&self, ccu_id: i32) -> (r: Result<Ccu, CcuError>)
        ensures
            self.answers_get_ccu_by_id(ccu_id, r);

    /// Whether `r` is an answer this store may give to `get_ccu_by_socket_id(socket_id)`; any answer,
    /// unless an implementation says which.
    open spec fn answers_get_ccu_by_socket_id(&self, socket_id: Seq<char>, r: Result<Ccu, CcuError>) -> bool {
        true
    }

    fn get_ccu_by_socket_id(&self, socket_id: &str) -> (r: Result<Ccu, CcuError>)
        ensures
            self.answers_get_ccu_by_socket_id(socket_id@, r);

    /// Whether `r` is an answer this store may give to `delete_ccu_by_socket_id(socket_id)`; any answer,
    /// unless an implementation says which.
    open spec fn answers_delete_ccu_by_socket_id(&self, socket_id: Seq<char>, r: Result<(), CcuError>) -> bool {
        true
    }

    fn delete_ccu_by_socket_id(&self, socket_id: &str) -> (r: Result<(), CcuError>)
        ensures
            self.answers_delete_ccu_by_socket_id(socket_id@, r);

}

/// A call made to a store of meetings, with the answer it got.
pub enum MeetingCall {
    FindAll(i32, MembersStatusEnum, MeetingsStatusEnum, i64, i64, Result<Vec<MeetingResponse>, MeetingError>),
    GetMeetingById(i32, Result<MeetingResponse, MeetingError>),
    GetMeetingByCode(i32, Result<MeetingResponse, MeetingError>),
    CreateMeeting(NewMeeting, Result<MeetingResponse, MeetingError>),
    UpdateMeeting(Meeting, Result<MeetingResponse, MeetingError>),
    GetMemberById(i32, Result<MemberResponse, MeetingError>),
    CreateMember(NewMember, Result<MemberResponse, MeetingError>),
    UpdateMember(Member, Result<MemberResponse, MeetingError>),
    DeleteMemberById(i32, Result<(), MeetingError>),
    GetParticipantById(i32, Result<ParticipantResponse, MeetingError>),
    CreateParticipant(NewParticipant, Result<ParticipantResponse, MeetingError>),
    UpdateParticipant(Participant, Result<ParticipantResponse, MeetingError>),
    DeleteParticipantById(i32, Result<(), MeetingError>),
}

/// A store of meetings together with the record of every call made to it, in order, with its
/// answer. Services reach their stores only through this record.
pub struct MeetingStore<R: MeetingRepository> {
    repository: R,
    log: Ghost<Seq<MeetingCall>>,
}

impl<R: MeetingRepository> MeetingStore<R> {
    /// The store itself.
    pub closed spec fn repository(&self) -> R {
        self.repository
    }

    /// The calls made so far, oldest first, each with its answer.
    pub closed spec fn calls(&self) -> Seq<MeetingCall> {
        self.log@
    }

    /// Whether this is `earlier` after exactly the calls `calls`, in that order.
    pub open spec fn made(&self, earlier: Self, calls: Seq<MeetingCall>) -> bool {
        &&& self.repository() == earlier.repository()
        &&& self.calls() == earlier.calls() + calls
    }

    /// A store with no call made yet.
    pub fn new(repository: R) -> (r: Self)
        ensures
            r.repository() == repository,
            r.calls() == Seq::<MeetingCall>::empty(),
    {
        MeetingStore { repository, log: Ghost(Seq::empty()) }
    }

    /// Asks the store `find_all` and records the call with its answer.
    pub fn find_all(&mut self, user_id: i32, member_status: MembersStatusEnum, meeting_status: MeetingsStatusEnum, skip: i64, limit: i64) -> (r: Result<Vec<MeetingResponse>, MeetingError>)
        ensures
            final(self).repository() == old(self).repository(),
            old(self).repository().answers_find_all(user_id, member_status, meeting_status, skip, limit, r),
            final(self).calls() == old(self).calls().push(MeetingCall::FindAll(user_id, member_status, meeting_status, skip, limit, r)),
    {
        let ghost member_status_ = member_status;
        let ghost meeting_status_ = meeting_status;
        let r = self.repository.find_all(user_id, member_status, meeting_status, skip, limit);
        self.log = Ghost(self.log@.push(MeetingCall::FindAll(user_id, member_status_, meeting_status_, skip, limit, r)));
        r
    }

    /// Asks the store `get_meeting_by_id` and records the call with its answer.
    pub fn get_meeting_by_id(&mut self, meeting_id: i32) -> (r: Result<MeetingResponse, MeetingError>)
        ensures
            final(self).repository() == old(self).repository(),
            old(self).repository().answers_get_meeting_by_id(meeting_id, r),
            final(self).calls() == old(self).calls().push(MeetingCall::GetMeetingById(meeting_id, r)),
    {
        let r = self.repository.get_meeting_by_id(meeting_id);
        self.log = Ghost(self.log@.push(MeetingCall::GetMeetingById(meeting_id, r)));
        r
    }

    /// Asks the store `get_meeting_by_code` and records the call with its answer.
    pub fn get_meeting_by_code(&mut self, meeting_code: i32) -> (r: Result<MeetingResponse, MeetingError>)
        ensures
            final(self).repository() == old(self).repository(),
            old(self).repository().answers_get_meeting_by_code(meeting_code, r),
            final(self).calls() == old(self).calls().push(MeetingCall::GetMeetingByCode(meeting_code, r)),
    {
        let r = self.repository.get_meeting_by_code(meeting_code);
        self.log = Ghost(self.log@.push(MeetingCall::GetMeetingByCode(meeting_code, r)));
        r
    }

    /// Asks the store `create_meeting` and records the call with its answer.
    pub fn create_meeting(&mut self, meeting: NewMeeting) -> (r: Result<MeetingResponse, MeetingError>)
        ensures
            final(self).repository() == old(self).repository(),
            old(self).repository().answers_create_meeting(meeting, r),
            final(self).calls() == old(self).calls().push(MeetingCall::CreateMeeting(meeting, r)),
    {
        let ghost meeting_ = meeting;
        let r = self.repository.create_meeting(meeting);
        self.log = Ghost(self.log@.push(MeetingCall::CreateMeeting(meeting_, r)));
        r
    }

    /// Asks the store `update_meeting` and records the call with its answer.
    pub fn update_meeting(&mut self, meeting: Meeting) -> (r: Result<MeetingResponse, MeetingError>)
        ensures
            final(self).repository() == old(self).repository(),
            old(self).repository().answers_update_meeting(meeting, r),
            final(self).calls() == old(self).calls().push(MeetingCall::UpdateMeeting(meeting, r)),
    {
        let ghost meeting_ = meeting;
        let r = self.repository.update_meeting(meeting);
        self.log = Ghost(self.log@.push(MeetingCall::UpdateMeeting(meeting_, r)));
        r
    }

    /// Asks the store `get_member_by_id` and records the call with its answer.
    pub fn get_member_by_id(&mut self, member_id: i32) -> (r: Result<MemberResponse, MeetingError>)
        ensures
            final(self).repository() == old(self).repository(),
            old(self).repository().answers_get_member_by_id(member_id, r),
            final(self).calls() == old(self).calls().push(MeetingCall::GetMemberById(member_id, r)),
    {
        let r = self.repository.get_member_by_id(member_id);
        self.log = Ghost(self.log@.push(MeetingCall::GetMemberById(member_id, r)));
        r
    }

    /// Asks the store `create_member` and records the call with its answer.
    pub fn create_member(&mut self, member: NewMember) -> (r: Result<MemberResponse, MeetingError>)
        ensures
            final(self).repository() == old(self).repository(),
            old(self).repository().answers_create_member(member, r),
            final(self).calls() == old(self).calls().push(MeetingCall::CreateMember(member, r)),
    {
        let ghost member_ = member;
        let r = self.repository.create_member(member);
        self.log = Ghost(self.log@.push(MeetingCall::CreateMember(member_, r)));
        r
    }

    /// Asks the store `update_member` and records the call with its answer.
    pub fn update_member(&mut self, member: Member) -> (r: Result<MemberResponse, MeetingError>)
        ensures
            final(self).repository() == old(self).repository(),
            old(self).repository().answers_update_member(member, r),
            final(self).calls() == old(self).calls().push(MeetingCall::UpdateMember(member, r)),
    {
        let ghost member_ = member;
        let r = self.repository.update_member(member);
        self.log = Ghost(self.log@.push(MeetingCall::UpdateMember(member_, r)));
        r
    }

    /// Asks the store `delete_member_by_id` and records the call with its answer.
    pub fn delete_member_by_id(&mut self, member_id: i32) -> (r: Result<(), MeetingError>)
        ensures
            final(self).repository() == old(self).repository(),
            old(self).repository().answers_delete_member_by_id(member_id, r),
            final(self).calls() == old(self).calls().push(MeetingCall::DeleteMemberById(member_id, r)),
    {
        let r = self.repository.delete_member_by_id(member_id);
        self.log = Ghost(self.log@.push(MeetingCall::DeleteMemberById(member_id, r)));
        r
    }

    /// Asks the store `get_participant_by_id` and records the call with its answer.
    pub fn get_participant_by_id(&mut self, participant_id: i32) -> (r: Result<ParticipantResponse, MeetingError>)
        ensures
            final(self).repository() == old(self).repository(),
            old(self).repository().answers_get_participant_by_id(participant_id, r),
            final(self).calls() == old(self).calls().push(MeetingCall::GetParticipantById(participant_id, r)),
    {
        let r = self.repository.get_participant_by_id(participant_id);
        self.log = Ghost(self.log@.push(MeetingCall::GetParticipantById(participant_id, r)));
        r
    }

    /// Asks the store `create_participant` and records the call with its answer.
    pub fn create_participant(&mut self, participant: NewParticipant) -> (r: Result<ParticipantResponse, MeetingError>)
        ensures
            final(self).repository() == old(self).repository(),
            old(self).repository().answers_create_participant(participant, r),
            final(self).calls() == old(self).calls().push(MeetingCall::CreateParticipant(participant, r)),
    {
        let ghost participant_ = participant;
        let r = self.repository.create_participant(participant);
        self.log = Ghost(self.log@.push(MeetingCall::CreateParticipant(participant_, r)));
        r
    }

    /// Asks the store `update_participant` and records the call with its answer.
    pub fn update_participant(&mut self, participant: Participant) -> (r: Result<ParticipantResponse, MeetingError>)
        ensures
            final(self).repository() == old(self).repository(),
            old(self).repository().answers_update_participant(participant, r),
            final(self).calls() == old(self).calls().push(MeetingCall::UpdateParticipant(participant, r)),
    {
        let ghost participant_ = participant;
        let r = self.repository.update_participant(participant);
        self.log = Ghost(self.log@.push(MeetingCall::UpdateParticipant(participant_, r)));
        r
    }

    /// Asks the store `delete_participant_by_id` and records the call with its answer.
    pub fn delete_participant_by_id(&mut self, participant_id: i32) -> (r: Result<(), MeetingError>)
        ensures
            final(self).repository() == old(self).repository(),
            old(self).repository().answers_delete_participant_by_id(participant_id, r),
            final(self).calls() == old(self).calls().push(MeetingCall::DeleteParticipantById(participant_id, r)),
    {
        let r = self.repository.delete_participant_by_id(participant_id);
        self.log = Ghost(self.log@.push(MeetingCall::DeleteParticipantById(participant_id, r)));
        r
    }
}

/// A call made to a store of users, with the answer it got.
pub enum UserCall {
    GetUserById(i32, Result<User, GeneralError>),
}

/// A store of users together with the record of every call made to it, in order, with its
/// answer. Services reach their stores only through this record.
pub struct UserStore<R: UserRepository> {
    repository: R,
    log: Ghost<Seq<UserCall>>,
}

impl<R: UserRepository> UserStore<R> {
    /// The store itself.
    pub closed spec fn repository(&self) -> R {
        self.repository
    }

    /// The calls made so far, oldest first, each with its answer.
    pub closed spec fn calls(&self) -> Seq<UserCall> {
        self.log@
    }

    /// Whether this is `earlier` after exactly the calls `calls`, in that order.
    pub open spec fn made(&self, earlier: Self, calls: Seq<UserCall>) -> bool {
        &&& self.repository() == earlier.repository()
        &&& self.calls() == earlier.calls() + calls
    }

    /// A store with no call made yet.
    pub fn new(repository: R) -> (r: Self)
        ensures
            r.repository() == repository,
            r.calls() == Seq::<UserCall>::empty(),
    {
        UserStore { repository, log: Ghost(Seq::empty()) }
    }

    /// Asks the store `get_user_by_id` and records the call with its answer.
    pub fn get_user_by_id(&mut self, user_id: i32) -> (r: Result<User, GeneralError>)
        ensures
            final(self).repository() == old(self).repository(),
            old(self).repository().answers_get_user_by_id(user_id, r),
            final(self).calls() == old(self).calls().push(UserCall::GetUserById(user_id, r)),
    {
        let r = self.repository.get_user_by_id(user_id);
        self.log = Ghost(self.log@.push(UserCall::GetUserById(user_id, r)));
        r
    }
}

/// A call made to a store of meeting messages, with the answer it got.
pub enum ChatCall {
    GetMessagesByMeeting(i32, i64, i64, i64, Result<Vec<MessageResponse>, ChatError>),
    GetMessageById(i32, Result<MessageResponse, ChatError>),
    CreateMessage(NewMessage, Result<Message, ChatError>),
    UpdateMessage(Message, Result<Message, ChatError>),
    DeleteMessageById(i32, Result<Message, ChatError>),
}

/// A store of meeting messages together with the record of every call made to it, in order, with its
/// answer. Services reach their stores only through this record.
pub struct ChatStore<R: ChatRepository> {
    repository: R,
    log: Ghost<Seq<ChatCall>>,
}

impl<R: ChatRepository> ChatStore<R> {
    /// The store itself.
    pub closed spec fn repository(&self) -> R {
        self.repository
    }

    /// The calls made so far, oldest first, each with its answer.
    pub closed spec fn calls(&self) -> Seq<ChatCall> {
        self.log@
    }

    /// Whether this is `earlier` after exactly the calls `calls`, in that order.
    pub open spec fn made(&self, earlier: Self, calls: Seq<ChatCall>) -> bool {
        &&& self.repository() == earlier.repository()
        &&& self.calls() == earlier.calls() + calls
    }

    /// A store with no call made yet.
    pub fn new(repository: R) -> (r: Self)
        ensures
            r.repository() == repository,
            r.calls() == Seq::<ChatCall>::empty(),
    {
        ChatStore { repository, log: Ghost(Seq::empty()) }
    }

    /// Asks the store `get_messages_by_meeting` and records the call with its answer.
    pub fn get_messages_by_meeting(&mut self, meeting_id: i32, deleted_at: i64, skip: i64, limit: i64) -> (r: Result<Vec<MessageResponse>, ChatError>)
        ensures
            final(self).repository() == old(self).repository(),
            old(self).repository().answers_get_messages_by_meeting(meeting_id, deleted_at, skip, limit, r),
            final(self).calls() == old(self).calls().push(ChatCall::GetMessagesByMeeting(meeting_id, deleted_at, skip, limit, r)),
    {
        let r = self.repository.get_messages_by_meeting(meeting_id, deleted_at, skip, limit);
        self.log = Ghost(self.log@.push(ChatCall::GetMessagesByMeeting(meeting_id, deleted_at, skip, limit, r)));
        r
    }

    /// Asks the store `get_message_by_id` and records the call with its answer.
    pub fn get_message_by_id(&mut self, message_id: i32) -> (r: Result<MessageResponse, ChatError>)
        ensures
            final(self).repository() == old(self).repository(),
            old(self).repository().answers_get_message_by_id(message_id, r),
            final(self).calls() == old(self).calls().push(ChatCall::GetMessageById(message_id, r)),
    {
        let r = self.repository.get_message_by_id(message_id);
        self.log = Ghost(self.log@.push(ChatCall::GetMessageById(message_id, r)));
        r
    }

    /// Asks the store `create_message` and records the call with its answer.
    pub fn create_message(&mut self, message: NewMessage) -> (r: Result<Message, ChatError>)
        ensures
            final(self).repository() == old(self).repository(),
            old(self).repository().answers_create_message(message, r),
            final(self).calls() == old(self).calls().push(ChatCall::CreateMessage(message, r)),
    {
        let ghost message_ = message;
        let r = self.repository.create_message(message);
        self.log = Ghost(self.log@.push(ChatCall::CreateMessage(message_, r)));
        r
    }

    /// Asks the store `update_message` and records the call with its answer.
    pub fn update_message(&mut self, message: Message) -> (r: Result<Message, ChatError>)
        ensures
            final(self).repository() == old(self).repository(),
            old(self).repository().answers_update_message(message, r),
            final(self).calls() == old(self).calls().push(ChatCall::UpdateMessage(message, r)),
    {
        let ghost message_ = message;
        let r = self.repository.update_message(message);
        self.log = Ghost(self.log@.push(ChatCall::UpdateMessage(message_, r)));
        r
    }

    /// Asks the store `delete_message_by_id` and records the call with its answer.
    pub fn delete_message_by_id(&mut self, message_id: i32) -> (r: Result<Message, ChatError>)
        ensures
            final(self).repository() == old(self).repository(),
            old(self).repository().answers_delete_message_by_id(message_id, r),
            final(self).calls() == old(self).calls().push(ChatCall::DeleteMessageById(message_id, r)),
    {
        let r = self.repository.delete_message_by_id(message_id);
        self.log = Ghost(self.log@.push(ChatCall::DeleteMessageById(message_id, r)));
        r
    }
}

/// A call made to a store of media sessions, with the answer it got.
pub enum CcuCall {
    CreateCcu(NewCcu, Result<Ccu, CcuError>),
    GetCcuById(i32, Result<Ccu, CcuError>),
    GetCcuBySocketId(Seq<char>, Result<Ccu, CcuError>),
    DeleteCcuBySocketId(Seq<char>, Result<(), CcuError>),
}

/// A store of media sessions together with the record of every call made to it, in order, with its
/// answer. Services reach their stores only through this record.
pub struct CcuStore<R: CcuRepository> {
    repository: R,
    log: Ghost<Seq<CcuCall>>,
}

impl<R: CcuRepository> CcuStore<R> {
    /// The store itself.
    pub closed spec fn repository(&self) -> R {
        self.repository
    }

    /// The calls made so far, oldest first, each with its answer.
    pub closed spec fn calls(&self) -> Seq<CcuCall> {
        self.log@
    }

    /// Whether this is `earlier` after exactly the calls `calls`, in that order.
    pub open spec fn made(&self, earlier: Self, calls: Seq<CcuCall>) -> bool {
        &&& self.repository() == earlier.repository()
        &&& self.calls() == earlier.calls() + calls
    }

    /// A store with no call made yet.
    pub fn new(repository: R) -> (r: Self)
        ensures
            r.repository() == repository,
            r.calls() == Seq::<CcuCall>::empty(),
    {
        CcuStore { repository, log: Ghost(Seq::empty()) }
    }

    /// Asks the store `create_ccu` and records the call with its answer.
    pub fn create_ccu(&mut self, ccu: NewCcu) -> (r: Result<Ccu, CcuError>)
        ensures
            final(self).repository() == old(self).repository(),
            old(self).repository().answers_create_ccu(ccu, r),
            final(self).calls() == old(self).calls().push(CcuCall::CreateCcu(ccu, r)),
    {
        let ghost ccu_ = ccu;
        let r = self.repository.create_ccu(ccu);
        self.log = Ghost(self.log@.push(CcuCall::CreateCcu(ccu_, r)));
        r
    }

    /// Asks the store `get_ccu_by_id` and records the call with its answer.
    pub fn get_ccu_by_id(&mut self, ccu_id: i32) -> (r: Result<Ccu, CcuError>)
        ensures
            final(self).repository() == old(self).repository(),
            old(self).repository().answers_get_ccu_by_id(ccu_id, r),
            final(self).calls() == old(self).calls().push(CcuCall::GetCcuById(ccu_id, r)),
    {
        let r = self.repository.get_ccu_by_id(ccu_id);
        self.log = Ghost(self.log@.push(CcuCall::GetCcuById(ccu_id, r)));
        r
    }

    /// Asks the store `get_ccu_by_socket_id` and records the call with its answer.
    pub fn get_ccu_by_socket_id(&mut self, socket_id: &str) -> (r: Result<Ccu, CcuError>)
        ensures
            final(self).repository() == old(self).repository(),
            old(self).repository().answers_get_ccu_by_socket_id(socket_id@, r),
            final(self).calls() == old(self).calls().push(CcuCall::GetCcuBySocketId(socket_id@, r)),
    {
        let ghost socket_id_ = socket_id@;
        let r = self.repository.get_ccu_by_socket_id(socket_id);
        self.log = Ghost(self.log@.push(CcuCall::GetCcuBySocketId(socket_id_, r)));
        r
    }

    /// Asks the store `delete_ccu_by_socket_id` and records the call with its answer.
    pub fn delete_ccu_by_socket_id(&mut self, socket_id: &str) -> (r: Result<(), CcuError>)
        ensures
            final(self).repository() == old(self).repository(),
            old(self).repository().answers_delete_ccu_by_socket_id(socket_id@, r),
            final(self).calls() == old(self).calls().push(CcuCall::DeleteCcuBySocketId(socket_id@, r)),
    {
        let ghost socket_id_ = socket_id@;
        let r = self.repository.delete_ccu_by_socket_id(socket_id);
        self.log = Ghost(self.log@.push(CcuCall::DeleteCcuBySocketId(socket_id_, r)));
        r
    }
}


} // verus!
