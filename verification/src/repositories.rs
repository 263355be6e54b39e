//! The storage the signalling services read and write. Each trait is implemented over the
//! database by the server and by test doubles in tests. Nothing is promised of what an
//! implementation returns: each method's answer is named by a spec function that allows any
//! answer unless an implementation narrows it, so the services are verified for every answer
//! and their contracts say which answers they pass on. Services reach a store only through a
//! wrapper that records each call with its answer, so their contracts also say which calls
//! they make, in which order, and which they do not make.
use vstd::prelude::*;
use crate::entities::{Member, Message, NewMember, NewMessage, NewParticipant, NewRoom, NewUser, Participant, Room, RoomStatusEnum, User};
use crate::errors::{AuthError, ChatError, RoomError, UserError};
use crate::responses::{MemberResponse, MessageResponse, ParticipantResponse, RoomResponse};

verus! {

/// Rooms, their members and their participants.
pub trait RoomRepository {
    /// Whether `r` is an answer this store may give to `find_all(user_id, room_status, skip, limit)`; any answer,
    /// unless an implementation says which.
    open spec fn answers_find_all(&self, user_id: i32, room_status: RoomStatusEnum, skip: i64, limit: i64, r: Result<Vec<RoomResponse>, RoomError>) -> bool {
        true
    }

    fn find_all(&self, user_id: i32, room_status: RoomStatusEnum, skip: i64, limit: i64) -> (r: Result<Vec<RoomResponse>, RoomError>)
        ensures
            self.answers_find_all(user_id, room_status, skip, limit, r);

    /// Whether `r` is an answer this store may give to `exists_code(room_code)`; any answer,
    /// unless an implementation says which.
    open spec fn answers_exists_code(&self, room_code: Seq<char>, r: Result<bool, RoomError>) -> bool {
        true
    }

    fn exists_code(&self, room_code: &str) -> (r: Result<bool, RoomError>)
        ensures
            self.answers_exists_code(room_code@, r);

    /// Whether `r` is an answer this store may give to `get_room_by_id(room_id)`; any answer,
    /// unless an implementation says which.
    open spec fn answers_get_room_by_id(&self, room_id: i32, r: Result<RoomResponse, RoomError>) -> bool {
        true
    }

    fn get_room_by_id(&self, room_id: i32) -> (r: Result<RoomResponse, RoomError>)
        ensures
            self.answers_get_room_by_id(room_id, r);

    /// Whether `r` is an answer this store may give to `get_room_by_code(room_code)`; any answer,
    /// unless an implementation says which.
    open spec fn answers_get_room_by_code(&self, room_code: Seq<char>, r: Result<RoomResponse, RoomError>) -> bool {
        true
    }

    fn get_room_by_code(&self, room_code: &str) -> (r: Result<RoomResponse, RoomError>)
        ensures
            self.answers_get_room_by_code(room_code@, r);

    /// Whether `r` is an answer this store may give to `create_room(room)`; any answer,
    /// unless an implementation says which.
    open spec fn answers_create_room(&self, room: NewRoom, r: Result<RoomResponse, RoomError>) -> bool {
        true
    }

    fn create_room(&self, room: NewRoom) -> (r: Result<RoomResponse, RoomError>)
        ensures
            self.answers_create_room(room, r);

    /// Whether `r` is an answer this store may give to `create_room_with_member(room, user, created_at)`; any answer,
    /// unless an implementation says which.
    open spec fn answers_create_room_with_member(&self, room: NewRoom, user: User, created_at: i64, r: Result<RoomResponse, RoomError>) -> bool {
        true
    }

    fn create_room_with_member(&self, room: NewRoom, user: User, created_at: i64) -> (r: Result<RoomResponse, RoomError>)
        ensures
            self.answers_create_room_with_member(room, user, created_at, r);

    /// Whether `r` is an answer this store may give to `update_room(room)`; any answer,
    /// unless an implementation says which.
    open spec fn answers_update_room(&self, room: Room, r: Result<RoomResponse, RoomError>) -> bool {
        true
    }

    fn update_room(&self, room: Room) -> (r: Result<RoomResponse, RoomError>)
        ensures
            self.answers_update_room(room, r);

    /// Whether `r` is an answer this store may give to `get_member_by_id(member_id)`; any answer,
    /// unless an implementation says which.
    open spec fn answers_get_member_by_id(&self, member_id: i32, r: Result<MemberResponse, RoomError>) -> bool {
        true
    }

    fn get_member_by_id(&self, member_id: i32) -> (r: Result<MemberResponse, RoomError>)
        ensures
            self.answers_get_member_by_id(member_id, r);

    /// Whether `r` is an answer this store may give to `create_member(member)`; any answer,
    /// unless an implementation says which.
    open spec fn answers_create_member(&self, member: NewMember, r: Result<MemberResponse, RoomError>) -> bool {
        true
    }

    fn create_member(&self, member: NewMember) -> (r: Result<MemberResponse, RoomError>)
        ensures
            self.answers_create_member(member, r);

    /// Whether `r` is an answer this store may give to `update_member(member)`; any answer,
    /// unless an implementation says which.
    open spec fn answers_update_member(&self, member: Member, r: Result<MemberResponse, RoomError>) -> bool {
        true
    }

    fn update_member(&self, member: Member) -> (r: Result<MemberResponse, RoomError>)
        ensures
            self.answers_update_member(member, r);

    /// Whether `r` is an answer this store may give to `delete_member_by_id(member_id)`; any answer,
    /// unless an implementation says which.
    open spec fn answers_delete_member_by_id(&self, member_id: i32, r: Result<(), RoomError>) -> bool {
        true
    }

    fn delete_member_by_id(&self, member_id: i32) -> (r: Result<(), RoomError>)
        ensures
            self.answers_delete_member_by_id(member_id, r);

    /// Whether `r` is an answer this store may give to `get_participant_by_id(participant_id)`; any answer,
    /// unless an implementation says which.
    open spec fn answers_get_participant_by_id(&self, participant_id: i32, r: Result<ParticipantResponse, RoomError>) -> bool {
        true
    }

    fn get_participant_by_id(&self, participant_id: i32) -> (r: Result<ParticipantResponse, RoomError>)
        ensures
            self.answers_get_participant_by_id(participant_id, r);

    /// Whether `r` is an answer this store may give to `create_participant(participant)`; any answer,
    /// unless an implementation says which.
    open spec fn answers_create_participant(&self, participant: NewParticipant, r: Result<ParticipantResponse, RoomError>) -> bool {
        true
    }

    fn create_participant(&self, participant: NewParticipant) -> (r: Result<ParticipantResponse, RoomError>)
        ensures
            self.answers_create_participant(participant, r);

    /// Whether `r` is an answer this store may give to `update_participant(participant)`; any answer,
    /// unless an implementation says which.
    open spec fn answers_update_participant(&self, participant: Participant, r: Result<ParticipantResponse, RoomError>) -> bool {
        true
    }

    fn update_participant(&self, participant: Participant) -> (r: Result<ParticipantResponse, RoomError>)
        ensures
            self.answers_update_participant(participant, r);

    /// Whether `r` is an answer this store may give to `delete_participant_by_id(participant_id)`; any answer,
    /// unless an implementation says which.
    open spec fn answers_delete_participant_by_id(&self, participant_id: i32, r: Result<(), RoomError>) -> bool {
        true
    }

    fn delete_participant_by_id(&self, participant_id: i32) -> (r: Result<(), RoomError>)
        ensures
            self.answers_delete_participant_by_id(participant_id, r);

    /// Whether `r` is an answer this store may give to `delete_participants_by_node(node_id)`; any answer,
    /// unless an implementation says which.
    open spec fn answers_delete_participants_by_node(&self, node_id: Seq<char>, r: Result<(), RoomError>) -> bool {
        true
    }

    fn delete_participants_by_node(&self, node_id: &str) -> (r: Result<(), RoomError>)
        ensures
            self.answers_delete_participants_by_node(node_id@, r);

}

/// Users.
pub trait UserRepository {
    /// Whether `r` is an answer this store may give to `get_user_by_id(user_id)`; any answer,
    /// unless an implementation says which.
    open spec fn answers_get_user_by_id(&self, user_id: i32, r: Result<User, UserError>) -> bool {
        true
    }

    fn get_user_by_id(&self, user_id: i32) -> (r: Result<User, UserError>)
        ensures
            self.answers_get_user_by_id(user_id, r);

    /// Whether `r` is an answer this store may give to `update_user(user)`; any answer,
    /// unless an implementation says which.
    open spec fn answers_update_user(&self, user: User, r: Result<User, UserError>) -> bool {
        true
    }

    fn update_user(&self, user: User) -> (r: Result<User, UserError>)
        ensures
            self.answers_update_user(user, r);

    /// Whether `r` is an answer this store may give to `get_username(username)`; any answer,
    /// unless an implementation says which.
    open spec fn answers_get_username(&self, username: Seq<char>, r: Result<String, UserError>) -> bool {
        true
    }

    fn get_username(&self, username: &str) -> (r: Result<String, UserError>)
        ensures
            self.answers_get_username(username@, r);

    /// Whether `r` is an answer this store may give to `update_username(user_id, username)`; any answer,
    /// unless an implementation says which.
    open spec fn answers_update_username(&self, user_id: i32, username: Seq<char>, r: Result<User, UserError>) -> bool {
        true
    }

    fn update_username(&self, user_id: i32, username: &str) -> (r: Result<User, UserError>)
        ensures
            self.answers_update_username(user_id, username@, r);

}

/// Messages.
pub trait ChatRepository {
    /// Whether `r` is an answer this store may give to `get_messages_by_room(room_id, deleted_at, skip, limit)`; any answer,
    /// unless an implementation says which.
    open spec fn answers_get_messages_by_room(&self, room_id: i32, deleted_at: i64, skip: i64, limit: i64, r: Result<Vec<MessageResponse>, ChatError>) -> bool {
        true
    }

    fn get_messages_by_room(&self, room_id: i32, deleted_at: i64, skip: i64, limit: i64) -> (r: Result<Vec<MessageResponse>, ChatError>)
        ensures
            self.answers_get_messages_by_room(room_id, deleted_at, skip, limit, r);

    /// Whether `r` is an answer this store may give to `get_message_by_id(message_id)`; any answer,
    /// unless an implementation says which.
    open spec fn answers_get_message_by_id(&self, message_id: i32, r: Result<MessageResponse, ChatError>) -> bool {
        true
    }

    fn get_message_by_id(&self, message_id: i32) -> (r: Result<MessageResponse, ChatError>)
        ensures
            self.answers_get_message_by_id(message_id, r);

    /// Whether `r` is an answer this store may give to `create_message(message)`; any answer,
    /// unless an implementation says which.
    open spec fn answers_create_message(&self, message: NewMessage, r: Result<Message, ChatError>) -> bool {
        true
    }

    fn create_message(&self, message: NewMessage) -> (r: Result<Message, ChatError>)
        ensures
            self.answers_create_message(message, r);

    /// Whether `r` is an answer this store may give to `update_message(message)`; any answer,
    /// unless an implementation says which.
    open spec fn answers_update_message(&self, message: Message, r: Result<Message, ChatError>) -> bool {
        true
    }

    fn update_message(&self, message: Message) -> (r: Result<Message, ChatError>)
        ensures
            self.answers_update_message(message, r);

    /// Whether `r` is an answer this store may give to `delete_message_by_id(message_id)`; any answer,
    /// unless an implementation says which.
    open spec fn answers_delete_message_by_id(&self, message_id: i32, r: Result<Message, ChatError>) -> bool {
        true
    }

    fn delete_message_by_id(&self, message_id: i32) -> (r: Result<Message, ChatError>)
        ensures
            self.answers_delete_message_by_id(message_id, r);

}

/// Users as authentication sees them.
pub trait AuthRepository {
    /// Whether `r` is an answer this store may give to `create_user(user)`; any answer,
    /// unless an implementation says which.
    open spec fn answers_create_user(&self, user: NewUser, r: Result<User, AuthError>) -> bool {
        true
    }

    fn create_user(&self, user: NewUser) -> (r: Result<User, AuthError>)
        ensures
            self.answers_create_user(user, r);

    /// Whether `r` is an answer this store may give to `get_user_by_id(id)`; any answer,
    /// unless an implementation says which.
    open spec fn answers_get_user_by_id(&self, id: i32, r: Result<User, AuthError>) -> bool {
        true
    }

    fn get_user_by_id(&self, id: i32) -> (r: Result<User, AuthError>)
        ensures
            self.answers_get_user_by_id(id, r);

    /// Whether `r` is an answer this store may give to `get_user_by_auth_id(external_id)`; any answer,
    /// unless an implementation says which.
    open spec fn answers_get_user_by_auth_id(&self, external_id: Seq<char>, r: Result<User, AuthError>) -> bool {
        true
    }

    fn get_user_by_auth_id(&self, external_id: String) -> (r: Result<User, AuthError>)
        ensures
            self.answers_get_user_by_auth_id(external_id@, r);

    /// Whether `r` is an answer this store may give to `get_user_by_user_name(username)`; any answer,
    /// unless an implementation says which.
    open spec fn answers_get_user_by_user_name(&self, username: Seq<char>, r: Result<User, AuthError>) -> bool {
        true
    }

    fn get_user_by_user_name(&self, username: String) -> (r: Result<User, AuthError>)
        ensures
            self.answers_get_user_by_user_name(username@, r);

}

/// A call made to a store of rooms, with the answer it got.
pub enum RoomCall {
    FindAll(i32, RoomStatusEnum, i64, i64, Result<Vec<RoomResponse>, RoomError>),
    ExistsCode(Seq<char>, Result<bool, RoomError>),
    GetRoomById(i32, Result<RoomResponse, RoomError>),
    GetRoomByCode(Seq<char>, Result<RoomResponse, RoomError>),
    CreateRoom(NewRoom, Result<RoomResponse, RoomError>),
    CreateRoomWithMember(NewRoom, User, i64, Result<RoomResponse, RoomError>),
    UpdateRoom(Room, Result<RoomResponse, RoomError>),
    GetMemberById(i32, Result<MemberResponse, RoomError>),
    CreateMember(NewMember, Result<MemberResponse, RoomError>),
    UpdateMember(Member, Result<MemberResponse, RoomError>),
    DeleteMemberById(i32, Result<(), RoomError>),
    GetParticipantById(i32, Result<ParticipantResponse, RoomError>),
    CreateParticipant(NewParticipant, Result<ParticipantResponse, RoomError>),
    UpdateParticipant(Participant, Result<ParticipantResponse, RoomError>),
    DeleteParticipantById(i32, Result<(), RoomError>),
    DeleteParticipantsByNode(Seq<char>, Result<(), RoomError>),
}

/// A store of rooms together with the record of every call made to it, in order, with its
/// answer. Services reach their stores only through this record.
pub struct RoomStore<R: RoomRepository> {
    repository: R,
    log: Ghost<Seq<RoomCall>>,
}

impl<R: RoomRepository> RoomStore<R> {
    /// The store itself.
    pub closed spec fn repository(&self) -> R {
        self.repository
    }

    /// The calls made so far, oldest first, each with its answer.
    pub closed spec fn calls(&self) -> Seq<RoomCall> {
        self.log@
    }

    /// Whether this is `earlier` after exactly the calls `calls`, in that order.
    pub open spec fn made(&self, earlier: Self, calls: Seq<RoomCall>) -> bool {
        &&& self.repository() == earlier.repository()
        &&& self.calls() == earlier.calls() + calls
    }

    /// A store with no call made yet.
    pub fn new(repository: R) -> (r: Self)
        ensures
            r.repository() == repository,
            r.calls() == Seq::<RoomCall>::empty(),
    {
        RoomStore { repository, log: Ghost(Seq::empty()) }
    }

    /// Asks the store `find_all` and records the call with its answer.
    pub fn find_all(&mut self, user_id: i32, room_status: RoomStatusEnum, skip: i64, limit: i64) -> (r: Result<Vec<RoomResponse>, RoomError>)
        ensures
            final(self).repository() == old(self).repository(),
            old(self).repository().answers_find_all(user_id, room_status, skip, limit, r),
            final(self).calls() == old(self).calls().push(RoomCall::FindAll(user_id, room_status, skip, limit, r)),
    {
        let ghost room_status_ = room_status;
        let r = self.repository.find_all(user_id, room_status, skip, limit);
        self.log = Ghost(self.log@.push(RoomCall::FindAll(user_id, room_status_, skip, limit, r)));
        r
    }

    /// Asks the store `exists_code` and records the call with its answer.
    pub fn exists_code(&mut self, room_code: &str) -> (r: Result<bool, RoomError>)
        ensures
            final(self).repository() == old(self).repository(),
            old(self).repository().answers_exists_code(room_code@, r),
            final(self).calls() == old(self).calls().push(RoomCall::ExistsCode(room_code@, r)),
    {
        let ghost room_code_ = room_code@;
        let r = self.repository.exists_code(room_code);
        self.log = Ghost(self.log@.push(RoomCall::ExistsCode(room_code_, r)));
        r
    }

    /// Asks the store `get_room_by_id` and records the call with its answer.
    pub fn get_room_by_id(&mut self, room_id: i32) -> (r: Result<RoomResponse, RoomError>)
        ensures
            final(self).repository() == old(self).repository(),
            old(self).repository().answers_get_room_by_id(room_id, r),
            final(self).calls() == old(self).calls().push(RoomCall::GetRoomById(room_id, r)),
    {
        let r = self.repository.get_room_by_id(room_id);
        self.log = Ghost(self.log@.push(RoomCall::GetRoomById(room_id, r)));
        r
    }

    /// Asks the store `get_room_by_code` and records the call with its answer.
    pub fn get_room_by_code(&mut self, room_code: &str) -> (r: Result<RoomResponse, RoomError>)
        ensures
            final(self).repository() == old(self).repository(),
            old(self).repository().answers_get_room_by_code(room_code@, r),
            final(self).calls() == old(self).calls().push(RoomCall::GetRoomByCode(room_code@, r)),
    {
        let ghost room_code_ = room_code@;
        let r = self.repository.get_room_by_code(room_code);
        self.log = Ghost(self.log@.push(RoomCall::GetRoomByCode(room_code_, r)));
        r
    }

    /// Asks the store `create_room` and records the call with its answer.
    pub fn create_room(&mut self, room: NewRoom) -> (r: Result<RoomResponse, RoomError>)
        ensures
            final(self).repository() == old(self).repository(),
            old(self).repository().answers_create_room(room, r),
            final(self).calls() == old(self).calls().push(RoomCall::CreateRoom(room, r)),
    {
        let ghost room_ = room;
        let r = self.repository.create_room(room);
        self.log = Ghost(self.log@.push(RoomCall::CreateRoom(room_, r)));
        r
    }

    /// Asks the store `create_room_with_member` and records the call with its answer.
    pub fn create_room_with_member(&mut self, room: NewRoom, user: User, created_at: i64) -> (r: Result<RoomResponse, RoomError>)
        ensures
            final(self).repository() == old(self).repository(),
            old(self).repository().answers_create_room_with_member(room, user, created_at, r),
            final(self).calls() == old(self).calls().push(RoomCall::CreateRoomWithMember(room, user, created_at, r)),
    {
        let ghost room_ = room;
        let ghost user_ = user;
        let r = self.repository.create_room_with_member(room, user, created_at);
        self.log = Ghost(self.log@.push(RoomCall::CreateRoomWithMember(room_, user_, created_at, r)));
        r
    }

    /// Asks the store `update_room` and records the call with its answer.
    pub fn update_room(&mut self, room: Room) -> (r: Result<RoomResponse, RoomError>)
        ensures
            final(self).repository() == old(self).repository(),
            old(self).repository().answers_update_room(room, r),
            final(self).calls() == old(self).calls().push(RoomCall::UpdateRoom(room, r)),
    {
        let ghost room_ = room;
        let r = self.repository.update_room(room);
        self.log = Ghost(self.log@.push(RoomCall::UpdateRoom(room_, r)));
        r
    }

    /// Asks the store `get_member_by_id` and records the call with its answer.
    pub fn get_member_by_id(&mut self, member_id: i32) -> (r: Result<MemberResponse, RoomError>)
        ensures
            final(self).repository() == old(self).repository(),
            old(self).repository().answers_get_member_by_id(member_id, r),
            final(self).calls() == old(self).calls().push(RoomCall::GetMemberById(member_id, r)),
    {
        let r = self.repository.get_member_by_id(member_id);
        self.log = Ghost(self.log@.push(RoomCall::GetMemberById(member_id, r)));
        r
    }

    /// Asks the store `create_member` and records the call with its answer.
    pub fn create_member(&mut self, member: NewMember) -> (r: Result<MemberResponse, RoomError>)
        ensures
            final(self).repository() == old(self).repository(),
            old(self).repository().answers_create_member(member, r),
            final(self).calls() == old(self).calls().push(RoomCall::CreateMember(member, r)),
    {
        let ghost member_ = member;
        let r = self.repository.create_member(member);
        self.log = Ghost(self.log@.push(RoomCall::CreateMember(member_, r)));
        r
    }

    /// Asks the store `update_member` and records the call with its answer.
    pub fn update_member(&mut self, member: Member) -> (r: Result<MemberResponse, RoomError>)
        ensures
            final(self).repository() == old(self).repository(),
            old(self).repository().answers_update_member(member, r),
            final(self).calls() == old(self).calls().push(RoomCall::UpdateMember(member, r)),
    {
        let ghost member_ = member;
        let r = self.repository.update_member(member);
        self.log = Ghost(self.log@.push(RoomCall::UpdateMember(member_, r)));
        r
    }

    /// Asks the store `delete_member_by_id` and records the call with its answer.
    pub fn delete_member_by_id(&mut self, member_id: i32) -> (r: Result<(), RoomError>)
        ensures
            final(self).repository() == old(self).repository(),
            old(self).repository().answers_delete_member_by_id(member_id, r),
            final(self).calls() == old(self).calls().push(RoomCall::DeleteMemberById(member_id, r)),
    {
        let r = self.repository.delete_member_by_id(member_id);
        self.log = Ghost(self.log@.push(RoomCall::DeleteMemberById(member_id, r)));
        r
    }

    /// Asks the store `get_participant_by_id` and records the call with its answer.
    pub fn get_participant_by_id(&mut self, participant_id: i32) -> (r: Result<ParticipantResponse, RoomError>)
        ensures
            final(self).repository() == old(self).repository(),
            old(self).repository().answers_get_participant_by_id(participant_id, r),
            final(self).calls() == old(self).calls().push(RoomCall::GetParticipantById(participant_id, r)),
    {
        let r = self.repository.get_participant_by_id(participant_id);
        self.log = Ghost(self.log@.push(RoomCall::GetParticipantById(participant_id, r)));
        r
    }

    /// Asks the store `create_participant` and records the call with its answer.
    pub fn create_participant(&mut self, participant: NewParticipant) -> (r: Result<ParticipantResponse, RoomError>)
        ensures
            final(self).repository() == old(self).repository(),
            old(self).repository().answers_create_participant(participant, r),
            final(self).calls() == old(self).calls().push(RoomCall::CreateParticipant(participant, r)),
    {
        let ghost participant_ = participant;
        let r = self.repository.create_participant(participant);
        self.log = Ghost(self.log@.push(RoomCall::CreateParticipant(participant_, r)));
        r
    }

    /// Asks the store `update_participant` and records the call with its answer.
    pub fn update_participant(&mut self, participant: Participant) -> (r: Result<ParticipantResponse, RoomError>)
        ensures
            final(self).repository() == old(self).repository(),
            old(self).repository().answers_update_participant(participant, r),
            final(self).calls() == old(self).calls().push(RoomCall::UpdateParticipant(participant, r)),
    {
        let ghost participant_ = participant;
        let r = self.repository.update_participant(participant);
        self.log = Ghost(self.log@.push(RoomCall::UpdateParticipant(participant_, r)));
        r
    }

    /// Asks the store `delete_participant_by_id` and records the call with its answer.
    pub fn delete_participant_by_id(&mut self, participant_id: i32) -> (r: Result<(), RoomError>)
        ensures
            final(self).repository() == old(self).repository(),
            old(self).repository().answers_delete_participant_by_id(participant_id, r),
            final(self).calls() == old(self).calls().push(RoomCall::DeleteParticipantById(participant_id, r)),
    {
        let r = self.repository.delete_participant_by_id(participant_id);
        self.log = Ghost(self.log@.push(RoomCall::DeleteParticipantById(participant_id, r)));
        r
    }

    /// Asks the store `delete_participants_by_node` and records the call with its answer.
    pub fn delete_participants_by_node(&mut self, node_id: &str) -> (r: Result<(), RoomError>)
        ensures
            final(self).repository() == old(self).repository(),
            old(self).repository().answers_delete_participants_by_node(node_id@, r),
            final(self).calls() == old(self).calls().push(RoomCall::DeleteParticipantsByNode(node_id@, r)),
    {
        let ghost node_id_ = node_id@;
        let r = self.repository.delete_participants_by_node(node_id);
        self.log = Ghost(self.log@.push(RoomCall::DeleteParticipantsByNode(node_id_, r)));
        r
    }
}

/// A call made to a store of users, with the answer it got.
pub enum UserCall {
    GetUserById(i32, Result<User, UserError>),
    UpdateUser(User, Result<User, UserError>),
    GetUsername(Seq<char>, Result<String, UserError>),
    UpdateUsername(i32, Seq<char>, Result<User, UserError>),
}

/// A store of users together with the record of every call made to it, in order, with its
/// answer. Services reach their stores only through this record.
pub struct UserStore<R: UserRepository> {
    repository: R,
    log: Ghost<Seq<UserCall>>,
}

impl<R: UserRepository> UserStore<R> {
    /// The store itself.
    pub closed spec fn repository(&self) -> R {
        self.repository
    }

    /// The calls made so far, oldest first, each with its answer.
    pub closed spec fn calls(&self) -> Seq<UserCall> {
        self.log@
    }

    /// Whether this is `earlier` after exactly the calls `calls`, in that order.
    pub open spec fn made(&self, earlier: Self, calls: Seq<UserCall>) -> bool {
        &&& self.repository() == earlier.repository()
        &&& self.calls() == earlier.calls() + calls
    }

    /// A store with no call made yet.
    pub fn new(repository: R) -> (r: Self)
        ensures
            r.repository() == repository,
            r.calls() == Seq::<UserCall>::empty(),
    {
        UserStore { repository, log: Ghost(Seq::empty()) }
    }

    /// Asks the store `get_user_by_id` and records the call with its answer.
    pub fn get_user_by_id(&mut self, user_id: i32) -> (r: Result<User, UserError>)
        ensures
            final(self).repository() == old(self).repository(),
            old(self).repository().answers_get_user_by_id(user_id, r),
            final(self).calls() == old(self).calls().push(UserCall::GetUserById(user_id, r)),
    {
        let r = self.repository.get_user_by_id(user_id);
        self.log = Ghost(self.log@.push(UserCall::GetUserById(user_id, r)));
        r
    }

    /// Asks the store `update_user` and records the call with its answer.
    pub fn update_user(&mut self, user: User) -> (r: Result<User, UserError>)
        ensures
            final(self).repository() == old(self).repository(),
            old(self).repository().answers_update_user(user, r),
            final(self).calls() == old(self).calls().push(UserCall::UpdateUser(user, r)),
    {
        let ghost user_ = user;
        let r = self.repository.update_user(user);
        self.log = Ghost(self.log@.push(UserCall::UpdateUser(user_, r)));
        r
    }

    /// Asks the store `get_username` and records the call with its answer.
    pub fn get_username(&mut self, username: &str) -> (r: Result<String, UserError>)
        ensures
            final(self).repository() == old(self).repository(),
            old(self).repository().answers_get_username(username@, r),
            final(self).calls() == old(self).calls().push(UserCall::GetUsername(username@, r)),
    {
        let ghost username_ = username@;
        let r = self.repository.get_username(username);
        self.log = Ghost(self.log@.push(UserCall::GetUsername(username_, r)));
        r
    }

    /// Asks the store `update_username` and records the call with its answer.
    pub fn update_username(&mut self, user_id: i32, username: &str) -> (r: Result<User, UserError>)
        ensures
            final(self).repository() == old(self).repository(),
            old(self).repository().answers_update_username(user_id, username@, r),
            final(self).calls() == old(self).calls().push(UserCall::UpdateUsername(user_id, username@, r)),
    {
        let ghost username_ = username@;
        let r = self.repository.update_username(user_id, username);
        self.log = Ghost(self.log@.push(UserCall::UpdateUsername(user_id, username_, r)));
        r
    }
}

/// A call made to a store of messages, with the answer it got.
pub enum ChatCall {
    GetMessagesByRoom(i32, i64, i64, i64, Result<Vec<MessageResponse>, ChatError>),
    GetMessageById(i32, Result<MessageResponse, ChatError>),
    CreateMessage(NewMessage, Result<Message, ChatError>),
    UpdateMessage(Message, Result<Message, ChatError>),
    DeleteMessageById(i32, Result<Message, ChatError>),
}

/// A store of messages together with the record of every call made to it, in order, with its
/// answer. Services reach their stores only through this record.
pub struct ChatStore<R: ChatRepository> {
    repository: R,
    log: Ghost<Seq<ChatCall>>,
}

impl<R: ChatRepository> ChatStore<R> {
    /// The store itself.
    pub closed spec fn repository(&self) -> R {
        self.repository
    }

    /// The calls made so far, oldest first, each with its answer.
    pub closed spec fn calls(&self) -> Seq<ChatCall> {
        self.log@
    }

    /// Whether this is `earlier` after exactly the calls `calls`, in that order.
    pub open spec fn made(&self, earlier: Self, calls: Seq<ChatCall>) -> bool {
        &&& self.repository() == earlier.repository()
        &&& self.calls() == earlier.calls() + calls
    }

    /// A store with no call made yet.
    pub fn new(repository: R) -> (r: Self)
        ensures
            r.repository() == repository,
            r.calls() == Seq::<ChatCall>::empty(),
    {
        ChatStore { repository, log: Ghost(Seq::empty()) }
    }

    /// Asks the store `get_messages_by_room` and records the call with its answer.
    pub fn get_messages_by_room(&mut self, room_id: i32, deleted_at: i64, skip: i64, limit: i64) -> (r: Result<Vec<MessageResponse>, ChatError>)
        ensures
            final(self).repository() == old(self).repository(),
            old(self).repository().answers_get_messages_by_room(room_id, deleted_at, skip, limit, r),
            final(self).calls() == old(self).calls().push(ChatCall::GetMessagesByRoom(room_id, deleted_at, skip, limit, r)),
    {
        let r = self.repository.get_messages_by_room(room_id, deleted_at, skip, limit);
        self.log = Ghost(self.log@.push(ChatCall::GetMessagesByRoom(room_id, deleted_at, skip, limit, r)));
        r
    }

    /// Asks the store `get_message_by_id` and records the call with its answer.
    pub fn get_message_by_id(&mut self, message_id: i32) -> (r: Result<MessageResponse, ChatError>)
        ensures
            final(self).repository() == old(self).repository(),
            old(self).repository().answers_get_message_by_id(message_id, r),
            final(self).calls() == old(self).calls().push(ChatCall::GetMessageById(message_id, r)),
    {
        let r = self.repository.get_message_by_id(message_id);
        self.log = Ghost(self.log@.push(ChatCall::GetMessageById(message_id, r)));
        r
    }

    /// Asks the store `create_message` and records the call with its answer.
    pub fn create_message(&mut self, message: NewMessage) -> (r: Result<Message, ChatError>)
        ensures
            final(self).repository() == old(self).repository(),
            old(self).repository().answers_create_message(message, r),
            final(self).calls() == old(self).calls().push(ChatCall::CreateMessage(message, r)),
    {
        let ghost message_ = message;
        let r = self.repository.create_message(message);
        self.log = Ghost(self.log@.push(ChatCall::CreateMessage(message_, r)));
        r
    }

    /// Asks the store `update_message` and records the call with its answer.
    pub fn update_message(&mut self, message: Message) -> (r: Result<Message, ChatError>)
        ensures
            final(self).repository() == old(self).repository(),
            old(self).repository().answers_update_message(message, r),
            final(self).calls() == old(self).calls().push(ChatCall::UpdateMessage(message, r)),
    {
        let ghost message_ = message;
        let r = self.repository.update_message(message);
        self.log = Ghost(self.log@.push(ChatCall::UpdateMessage(message_, r)));
        r
    }

    /// Asks the store `delete_message_by_id` and records the call with its answer.
    pub fn delete_message_by_id(&mut self, message_id: i32) -> (r: Result<Message, ChatError>)
        ensures
            final(self).repository() == old(self).repository(),
            old(self).repository().answers_delete_message_by_id(message_id, r),
            final(self).calls() == old(self).calls().push(ChatCall::DeleteMessageById(message_id, r)),
    {
        let r = self.repository.delete_message_by_id(message_id);
        self.log = Ghost(self.log@.push(ChatCall::DeleteMessageById(message_id, r)));
        r
    }
}

/// A call made to a store of accounts, with the answer it got.
pub enum AuthCall {
    CreateUser(NewUser, Result<User, AuthError>),
    GetUserById(i32, Result<User, AuthError>),
    GetUserByAuthId(Seq<char>, Result<User, AuthError>),
    GetUserByUserName(Seq<char>, Result<User, AuthError>),
}

/// A store of accounts together with the record of every call made to it, in order, with its
/// answer. Services reach their stores only through this record.
pub struct AuthStore<R: AuthRepository> {
    repository: R,
    log: Ghost<Seq<AuthCall>>,
}

impl<R: AuthRepository> AuthStore<R> {
    /// The store itself.
    pub closed spec fn repository(&self) -> R {
        self.repository
    }

    /// The calls made so far, oldest first, each with its answer.
    pub closed spec fn calls(&self) -> Seq<AuthCall> {
        self.log@
    }

    /// Whether this is `earlier` after exactly the calls `calls`, in that order.
    pub open spec fn made(&self, earlier: Self, calls: Seq<AuthCall>) -> bool {
        &&& self.repository() == earlier.repository()
        &&& self.calls() == earlier.calls() + calls
    }

    /// A store with no call made yet.
    pub fn new(repository: R) -> (r: Self)
        ensures
            r.repository() == repository,
            r.calls() == Seq::<AuthCall>::empty(),
    {
        AuthStore { repository, log: Ghost(Seq::empty()) }
    }

    /// Asks the store `create_user` and records the call with its answer.
    pub fn create_user(&mut self, user: NewUser) -> (r: Result<User, AuthError>)
        ensures
            final(self).repository() == old(self).repository(),
            old(self).repository().answers_create_user(user, r),
            final(self).calls() == old(self).calls().push(AuthCall::CreateUser(user, r)),
    {
        let ghost user_ = user;
        let r = self.repository.create_user(user);
        self.log = Ghost(self.log@.push(AuthCall::CreateUser(user_, r)));
        r
    }

    /// Asks the store `get_user_by_id` and records the call with its answer.
    pub fn get_user_by_id(&mut self, id: i32) -> (r: Result<User, AuthError>)
        ensures
            final(self).repository() == old(self).repository(),
            old(self).repository().answers_get_user_by_id(id, r),
            final(self).calls() == old(self).calls().push(AuthCall::GetUserById(id, r)),
    {
        let r = self.repository.get_user_by_id(id);
        self.log = Ghost(self.log@.push(AuthCall::GetUserById(id, r)));
        r
    }

    /// Asks the store `get_user_by_auth_id` and records the call with its answer.
    pub fn get_user_by_auth_id(&mut self, external_id: String) -> (r: Result<User, AuthError>)
        ensures
            final(self).repository() == old(self).repository(),
            old(self).repository().answers_get_user_by_auth_id(external_id@, r),
            final(self).calls() == old(self).calls().push(AuthCall::GetUserByAuthId(external_id@, r)),
    {
        let ghost external_id_ = external_id@;
        let r = self.repository.get_user_by_auth_id(external_id);
        self.log = Ghost(self.log@.push(AuthCall::GetUserByAuthId(external_id_, r)));
        r
    }

    /// Asks the store `get_user_by_user_name` and records the call with its answer.
    pub fn get_user_by_user_name(&mut self, username: String) -> (r: Result<User, AuthError>)
        ensures
            final(self).repository() == old(self).repository(),
            old(self).repository().answers_get_user_by_user_name(username@, r),
            final(self).calls() == old(self).calls().push(AuthCall::GetUserByUserName(username@, r)),
    {
        let ghost username_ = username@;
        let r = self.repository.get_user_by_user_name(username);
        self.log = Ghost(self.log@.push(AuthCall::GetUserByUserName(username_, r)));
        r
    }
}


} // verus!
