//! The chat of rooms: listing, sending, editing and deleting messages, and clearing a
//! conversation for one member.
use vstd::prelude::*;
use crate::entities::{Member, Message, MessagesStatusEnum, MessagesTypeEnum, NewMessage, Room, User};
use crate::errors::{chat_forbidden, chat_unexpected, is_chat_forbidden, is_chat_unexpected, ChatError, RoomError, UserError};
use crate::outside::now_micros;
use crate::repositories::{ChatCall, ChatRepository, ChatStore, RoomCall, RoomRepository, RoomStore, UserCall, UserRepository, UserStore};
use crate::responses::{MemberResponse, MessageResponse, RoomResponse};
use crate::room_service::{first_member_at, has_member, position_of_member};

verus! {

/// Whether `r` is the instant before which a member does not see the messages of a room:
/// when they last cleared the conversation, else when the room was created. Someone who is
/// not a member sees from the creation of the room.
pub open spec fn is_cutoff(room: RoomResponse, user_id: i32, r: i64) -> bool {
    &&& !has_member(room.members@, user_id) ==> r == room.room.created_at
    &&& has_member(room.members@, user_id) ==> exists|i: int|
        #[trigger] first_member_at(room.members@, user_id, i) && r == match room.members@[i].member.soft_deleted_at {
            Some(t) => t,
            None => room.room.created_at,
        }
}

/// The instant before which a member does not see the messages of a room.
pub fn messages_cutoff(room: &RoomResponse, user_id: i32) -> (r: i64)
    ensures
        is_cutoff(*room, user_id, r),
{
    match position_of_member(&room.members, user_id) {
        Some(i) => match room.members[i].member.soft_deleted_at {
            Some(t) => t,
            None => room.room.created_at,
        },
        None => room.room.created_at,
    }
}

/// A conversation must exist: a failed lookup becomes `ConversationNotFound(room_id)`.
pub fn require_conversation(room: Result<RoomResponse, RoomError>, room_id: i32) -> (r: Result<RoomResponse, ChatError>)
    ensures
        match room {
            Ok(x) => r == Ok::<RoomResponse, ChatError>(x),
            Err(_) => r == Err::<RoomResponse, ChatError>(ChatError::ConversationNotFound(room_id)),
        },
{
    match room {
        Ok(x) => Ok(x),
        Err(_) => Err(ChatError::ConversationNotFound(room_id)),
    }
}

/// The author of a message must exist: a failed lookup becomes `MemberNotFound(user_id)`.
pub fn require_author(user: Result<User, UserError>, user_id: i32) -> (r: Result<User, ChatError>)
    ensures
        match user {
            Ok(u) => r == Ok::<User, ChatError>(u),
            Err(_) => r == Err::<User, ChatError>(ChatError::MemberNotFound(user_id)),
        },
{
    match user {
        Ok(u) => Ok(u),
        Err(_) => Err(ChatError::MemberNotFound(user_id)),
    }
}

/// Whether `r` is the row of an active message with text `data` that `user_id` wrote in a
/// room at one instant.
pub open spec fn is_new_message(r: NewMessage, data: Seq<char>, user_id: i32, room_id: i32) -> bool {
    &&& r.data@ == data
    &&& r.created_by_id == Some(user_id)
    &&& r.room_id == Some(room_id)
    &&& r.status == MessagesStatusEnum::Active.code()
    &&& r.type_ == MessagesTypeEnum::Default.code()
    &&& r.updated_at == r.created_at
}

/// The row of an active message written by `user_id` at `now`.
pub fn new_message(data: &str, user_id: i32, room_id: i32, now: i64) -> (r: NewMessage)
    ensures
        is_new_message(r, data@, user_id, room_id),
        r.created_at == now,
{
    NewMessage {
        data: data.to_string(),
        created_by_id: Some(user_id),
        room_id: Some(room_id),
        status: MessagesStatusEnum::Active.to_i16(),
        type_: MessagesTypeEnum::Default.to_i16(),
        created_at: now,
        updated_at: now,
    }
}

/// Whether `calls` is `before` followed by one request to store `room`, whatever its answer.
pub open spec fn room_stored(before: Seq<RoomCall>, room: Room, calls: Seq<RoomCall>) -> bool {
    exists|u: Result<RoomResponse, RoomError>| calls == #[trigger] before.push(RoomCall::UpdateRoom(room, u))
}

/// The room once a message was written at `now`; the latest message changes only when one is given.
pub open spec fn latest_message_row(room: Room, now: i64, latest_message_id: Option<i32>) -> Room {
    Room {
        latest_message_created_at: Some(now),
        latest_message_id: match latest_message_id { Some(id) => Some(id), None => room.latest_message_id },
        ..room
    }
}

/// The room once a message was written at `now`; the latest message changes only when one is given.
pub fn with_latest_message(room: Room, now: i64, latest_message_id: Option<i32>) -> (r: Room)
    ensures
        r == latest_message_row(room, now, latest_message_id),
        r.latest_message_created_at == Some(now),
        r.latest_message_id == match latest_message_id { Some(id) => Some(id), None => room.latest_message_id },
        r.id == room.id,
{
    let mut room = room;
    room.latest_message_created_at = Some(now);
    if let Some(id) = latest_message_id {
        room.latest_message_id = Some(id);
    }
    room
}

/// Whether `user_id` may change `message`: it was not deleted and they wrote it.
pub open spec fn edit_allowed(message: Message, user_id: i32) -> bool {
    message.status != MessagesStatusEnum::Inactive.code() && message.created_by_id == user_id
}

/// `message` marked deleted.
pub open spec fn marked_deleted(message: Message) -> Message {
    Message { status: MessagesStatusEnum::Inactive.code(), ..message }
}

/// What deciding whether `user_id` may change a message gives: not once it was deleted, and
/// only its author.
pub open spec fn edit_check_outcome(message: Message, user_id: i32, r: Result<(), ChatError>) -> bool {
    &&& r is Ok <==> edit_allowed(message, user_id)
    &&& message.status == MessagesStatusEnum::Inactive.code() ==> (r matches Err(e) && is_chat_unexpected(e, "Message has been deleted"@))
    &&& message.status != MessagesStatusEnum::Inactive.code() && message.created_by_id != user_id
        ==> (r matches Err(e) && is_chat_forbidden(e, "You not allowed modify message of other users"@))
}

/// Whether `user_id` may change a message: not once it was deleted, and only its author.
pub fn message_edit_check(message: &Message, user_id: i32) -> (r: Result<(), ChatError>)
    ensures
        edit_check_outcome(*message, user_id, r),
{
    if message.status == MessagesStatusEnum::Inactive.to_i16() {
        return Err(chat_unexpected("Message has been deleted"));
    }
    if message.created_by_id != user_id {
        return Err(chat_forbidden("You not allowed modify message of other users"));
    }
    Ok(())
}

/// Whether `r` is `message` with the text `data`, edited at some instant; nothing else changes.
pub open spec fn is_edit_of(message: Message, data: Seq<char>, r: Message) -> bool {
    &&& r.data@ == data
    &&& r == (Message { data: r.data, updated_at: r.updated_at, ..message })
}

/// A message with new text, edited at `now`.
pub fn edited_message(message: Message, data: &str, now: i64) -> (r: Message)
    ensures
        is_edit_of(message, data@, r),
        r.updated_at == now,
{
    let mut message = message;
    message.data = data.to_string();
    message.updated_at = now;
    message
}

/// A message marked deleted.
pub fn deleted_message(message: Message) -> (r: Message)
    ensures
        r == marked_deleted(message),
{
    let mut message = message;
    message.status = MessagesStatusEnum::Inactive.to_i16();
    message
}

/// What clearing the conversation of `user_id` at `now` gives: their membership with the
/// instant of clearing, or `ConversationNotFound(user_id)` for someone who is not a member.
pub open spec fn is_cleared(room: RoomResponse, user_id: i32, now: i64, r: Result<Member, ChatError>) -> bool {
    &&& !has_member(room.members@, user_id) ==> r == Err::<Member, ChatError>(ChatError::ConversationNotFound(user_id))
    &&& has_member(room.members@, user_id) ==> exists|i: int|
        #[trigger] first_member_at(room.members@, user_id, i)
            && r == Ok::<Member, ChatError>(Member { soft_deleted_at: Some(now), ..room.members@[i].member })
}

/// The membership of `user_id` with its conversation cleared at `now`. Someone who is not a
/// member gets `ConversationNotFound(user_id)`.
pub fn cleared_membership(room: &RoomResponse, user_id: i32, now: i64) -> (r: Result<Member, ChatError>)
    ensures
        is_cleared(*room, user_id, now, r),
        r is Ok <==> has_member(room.members@, user_id),
        r matches Ok(m) ==> m.soft_deleted_at == Some(now) && m.user_id == user_id,
{
    match position_of_member(&room.members, user_id) {
        None => Err(ChatError::ConversationNotFound(user_id)),
        Some(i) => {
            let mut member = room.members[i].member.clone();
            member.soft_deleted_at = Some(now);
            Ok(member)
        },
    }
}

/// Clearing a conversation at `now` succeeds exactly for a member, and stores that member's
/// membership marked cleared at `now`, so that the messages before `now` are hidden from them.
pub proof fn law_clearing_marks_the_instant(room: RoomResponse, user_id: i32, now: i64, r: Result<Member, ChatError>)
    requires
        is_cleared(room, user_id, now, r),
    ensures
        r is Ok <==> has_member(room.members@, user_id),
        r matches Err(e) ==> e == ChatError::ConversationNotFound(user_id),
        r matches Ok(m) ==> m.soft_deleted_at == Some(now) && m.user_id == user_id
            && exists|i: int| 0 <= i < room.members@.len() && (#[trigger] room.members@[i]).member.id == m.id
                && room.members@[i].member.user_id == user_id,
{
    if has_member(room.members@, user_id) {
        let i = choose|i: int| #[trigger] first_member_at(room.members@, user_id, i)
            && r == Ok::<Member, ChatError>(Member { soft_deleted_at: Some(now), ..room.members@[i].member });
        assert(room.members@[i].member.id == r->Ok_0.id);
    }
}

/// Writing a message records its instant as the room's latest, and its id when one is given;
/// the room is otherwise the same room.
pub proof fn law_latest_message_is_recorded(room: Room, now: i64, latest_message_id: Option<i32>)
    ensures
        latest_message_row(room, now, latest_message_id).latest_message_created_at == Some(now),
        latest_message_id matches Some(id) ==> latest_message_row(room, now, latest_message_id).latest_message_id == Some(id),
        latest_message_id is None ==> latest_message_row(room, now, latest_message_id).latest_message_id == room.latest_message_id,
        latest_message_row(room, now, latest_message_id).id == room.id,
        latest_message_row(room, now, latest_message_id).title == room.title,
{
}

/// A deleted message is marked inactive and keeps its text and author.
pub proof fn law_deleting_marks_inactive(message: Message)
    ensures
        marked_deleted(message).status == MessagesStatusEnum::Inactive.code(),
        marked_deleted(message).id == message.id,
        marked_deleted(message).data == message.data,
        marked_deleted(message).created_by_id == message.created_by_id,
{
}

/// A message that was deleted cannot be edited or deleted again, whoever asks.
pub proof fn lemma_deleted_message_is_final(message: Message, user_id: i32)
    ensures
        !edit_allowed(marked_deleted(message), user_id),
{
}

/// The chat service over a message store, a room store and a user store.
pub struct ChatServiceImpl<C: ChatRepository, R: RoomRepository, U: UserRepository> {
    chats: ChatStore<C>,
    rooms: RoomStore<R>,
    users: UserStore<U>,
}

impl<C: ChatRepository, R: RoomRepository, U: UserRepository> ChatServiceImpl<C, R, U> {
    /// The message store the service reads and writes, with the calls made to it.
    pub closed spec fn chats(&self) -> ChatStore<C> {
        self.chats
    }

    /// The room store the service reads and writes, with the calls made to it.
    pub closed spec fn rooms(&self) -> RoomStore<R> {
        self.rooms
    }

    /// The user store the service reads, with the calls made to it.
    pub closed spec fn users(&self) -> UserStore<U> {
        self.users
    }

    /// Whether this service works on the same stores as `earlier`.
    pub open spec fn same_stores(&self, earlier: Self) -> bool {
        &&& self.chats().repository() == earlier.chats().repository()
        &&& self.rooms().repository() == earlier.rooms().repository()
        &&& self.users().repository() == earlier.users().repository()
    }

    pub fn new(chat_repository: C, room_repository: R, user_repository: U) -> (r: Self)
        ensures
            r.chats().repository() == chat_repository,
            r.rooms().repository() == room_repository,
            r.users().repository() == user_repository,
            r.chats().calls() == Seq::<ChatCall>::empty(),
            r.rooms().calls() == Seq::<RoomCall>::empty(),
            r.users().calls() == Seq::<UserCall>::empty(),
    {
        ChatServiceImpl {
            chats: ChatStore::new(chat_repository),
            rooms: RoomStore::new(room_repository),
            users: UserStore::new(user_repository),
        }
    }

    /// The messages of a room that `user_id` sees, newest first: the room is looked up, and the
    /// store lists its messages from the instant the user sees from. After a failed lookup no
    /// message is asked for.
    pub fn get_messages_by_room(&mut self, room_id: i32, user_id: i32, skip: i64, limit: i64) -> (r: Result<Vec<MessageResponse>, ChatError>)
        ensures
            final(self).same_stores(*old(self)),
            final(self).users().calls() == old(self).users().calls(),
            exists|found: Result<RoomResponse, RoomError>| #[trigger] old(self).rooms().repository().answers_get_room_by_id(room_id, found) && {
                &&& final(self).rooms().calls() == old(self).rooms().calls().push(RoomCall::GetRoomById(room_id, found))
                &&& match found {
                    Err(_) => r == Err::<Vec<MessageResponse>, ChatError>(ChatError::ConversationNotFound(room_id))
                        && final(self).chats().calls() == old(self).chats().calls(),
                    Ok(room) => exists|cutoff: i64| #[trigger] is_cutoff(room, user_id, cutoff)
                        && final(self).chats().calls() == old(self).chats().calls().push(ChatCall::GetMessagesByRoom(room_id, cutoff, skip, limit, r)),
                }
            },
    {
        let found = self.rooms.get_room_by_id(room_id);
        assert(old(self).rooms().repository().answers_get_room_by_id(room_id, found));
        let room = match require_conversation(found, room_id) {
            Err(e) => { return Err(e); },
            Ok(room) => room,
        };
        let deleted_at = messages_cutoff(&room, user_id);
        assert(is_cutoff(room, user_id, deleted_at));
        self.chats.get_messages_by_room(room_id, deleted_at, skip, limit)
    }

    /// Writes a message in a room: its author and its room are looked up, the store creates the
    /// row, the room records its latest message, and the answer carries the stored message, its
    /// author and its room. Nothing is written when the author or the room is not found.
    pub fn create_message(&mut self, room_id: i32, user_id: i32, data: &str) -> (r: Result<MessageResponse, ChatError>)
        ensures
            final(self).same_stores(*old(self)),
            exists|author: Result<User, UserError>| #[trigger] old(self).users().repository().answers_get_user_by_id(user_id, author) && {
                &&& final(self).users().calls() == old(self).users().calls().push(UserCall::GetUserById(user_id, author))
                &&& match author {
                    Err(_) => r == Err::<MessageResponse, ChatError>(ChatError::MemberNotFound(user_id))
                        && final(self).rooms().calls() == old(self).rooms().calls()
                        && final(self).chats().calls() == old(self).chats().calls(),
                    Ok(user) => exists|found: Result<RoomResponse, RoomError>| #[trigger] old(self).rooms().repository().answers_get_room_by_id(room_id, found) && {
                        let looked_up = old(self).rooms().calls().push(RoomCall::GetRoomById(room_id, found));
                        match found {
                            Err(_) => r == Err::<MessageResponse, ChatError>(ChatError::ConversationNotFound(room_id))
                                && final(self).rooms().calls() == looked_up
                                && final(self).chats().calls() == old(self).chats().calls(),
                            Ok(room) => exists|row: NewMessage, c: Result<Message, ChatError>|
                                #[trigger] old(self).chats().repository().answers_create_message(row, c) && {
                                &&& is_new_message(row, data@, user_id, room_id)
                                &&& final(self).chats().calls() == old(self).chats().calls().push(ChatCall::CreateMessage(row, c))
                                &&& match c {
                                    Err(e) => r == Err::<MessageResponse, ChatError>(e) && final(self).rooms().calls() == looked_up,
                                    Ok(message) => r == Ok::<MessageResponse, ChatError>(
                                            MessageResponse { message, created_by: Some(user), room: Some(room.room) })
                                        && room_stored(looked_up, latest_message_row(room.room, row.created_at, Some(message.id)),
                                            final(self).rooms().calls()),
                                }
                            },
                        }
                    },
                }
            },
    {
        let author = self.users.get_user_by_id(user_id);
        assert(old(self).users().repository().answers_get_user_by_id(user_id, author));
        let user = match require_author(author, user_id) {
            Err(e) => { return Err(e); },
            Ok(user) => user,
        };
        let found = self.rooms.get_room_by_id(room_id);
        assert(old(self).rooms().repository().answers_get_room_by_id(room_id, found));
        let room = match require_conversation(found, room_id) {
            Err(e) => { return Err(e); },
            Ok(room) => room,
        };
        let now = now_micros();
        let row = new_message(data, user_id, room_id, now);
        let ghost row_ = row;
        let c = self.chats.create_message(row);
        assert(old(self).chats().repository().answers_create_message(row_, c));
        let message = match c {
            Err(e) => { return Err(e); },
            Ok(message) => message,
        };
        self.update_latest_message_created_at(room.room.clone(), now, Some(message.id));
        Ok(MessageResponse { message, created_by: Some(user), room: Some(room.room) })
    }

    /// Its author edits a message that was not deleted: the message is looked up, its room must
    /// be known, the room records the edit, and the store's answer to storing the edited row is
    /// the answer, with the author and the room of the message. A refused edit writes nothing.
    pub fn update_message(&mut self, message_id: i32, user_id: i32, data: &str) -> (r: Result<MessageResponse, ChatError>)
        ensures
            final(self).same_stores(*old(self)),
            final(self).users().calls() == old(self).users().calls(),
            exists|found: Result<MessageResponse, ChatError>| #[trigger] old(self).chats().repository().answers_get_message_by_id(message_id, found) && {
                let looked_up = old(self).chats().calls().push(ChatCall::GetMessageById(message_id, found));
                match found {
                    Err(e) => r == Err::<MessageResponse, ChatError>(e) && final(self).chats().calls() == looked_up
                        && final(self).rooms().calls() == old(self).rooms().calls(),
                    Ok(found) => match found.room {
                        None => r == Err::<MessageResponse, ChatError>(ChatError::ConversationNotFound(found.message.room_id))
                            && final(self).chats().calls() == looked_up && final(self).rooms().calls() == old(self).rooms().calls(),
                        Some(room) => exists|c: Result<(), ChatError>| #[trigger] edit_check_outcome(found.message, user_id, c) && match c {
                            Err(e) => r == Err::<MessageResponse, ChatError>(e) && final(self).chats().calls() == looked_up
                                && final(self).rooms().calls() == old(self).rooms().calls(),
                            Ok(_) => exists|row: Message, u: Result<Message, ChatError>|
                                #[trigger] old(self).chats().repository().answers_update_message(row, u) && {
                                &&& is_edit_of(found.message, data@, row)
                                &&& room_stored(old(self).rooms().calls(), latest_message_row(room, row.updated_at, None), final(self).rooms().calls())
                                &&& final(self).chats().calls() == looked_up.push(ChatCall::UpdateMessage(row, u))
                                &&& match u {
                                    Err(e) => r == Err::<MessageResponse, ChatError>(e),
                                    Ok(message) => r == Ok::<MessageResponse, ChatError>(
                                        MessageResponse { message, created_by: found.created_by, room: found.room }),
                                }
                            },
                        },
                    },
                }
            },
    {
        let found = self.chats.get_message_by_id(message_id);
        assert(old(self).chats().repository().answers_get_message_by_id(message_id, found));
        let found = match found {
            Err(e) => { return Err(e); },
            Ok(found) => found,
        };
        let room = match &found.room {
            Some(room) => room.clone(),
            None => {
                return Err(ChatError::ConversationNotFound(found.message.room_id));
            },
        };
        let c = message_edit_check(&found.message, user_id);
        assert(edit_check_outcome(found.message, user_id, c));
        if let Err(e) = c {
            return Err(e);
        }
        let now = now_micros();
        self.update_latest_message_created_at(room, now, None);
        let MessageResponse { message, created_by, room } = found;
        let row = edited_message(message, data, now);
        let ghost row_ = row;
        let u = self.chats.update_message(row);
        assert(old(self).chats().repository().answers_update_message(row_, u));
        match u {
            Err(e) => Err(e),
            Ok(message) => Ok(MessageResponse { message, created_by, room }),
        }
    }

    /// Its author deletes a message that was not deleted yet: the message is looked up, and the
    /// store's answer to storing it marked deleted is the answer, with its author and its room.
    /// A refused request writes nothing.
    pub fn delete_message_by_id(&mut self, message_id: i32, user_id: i32) -> (r: Result<MessageResponse, ChatError>)
        ensures
            final(self).same_stores(*old(self)),
            final(self).users().calls() == old(self).users().calls(),
            final(self).rooms().calls() == old(self).rooms().calls(),
            exists|found: Result<MessageResponse, ChatError>| #[trigger] old(self).chats().repository().answers_get_message_by_id(message_id, found) && {
                let looked_up = old(self).chats().calls().push(ChatCall::GetMessageById(message_id, found));
                match found {
                    Err(e) => r == Err::<MessageResponse, ChatError>(e) && final(self).chats().calls() == looked_up,
                    Ok(found) => exists|c: Result<(), ChatError>| #[trigger] edit_check_outcome(found.message, user_id, c) && match c {
                        Err(e) => r == Err::<MessageResponse, ChatError>(e) && final(self).chats().calls() == looked_up,
                        Ok(_) => exists|u: Result<Message, ChatError>|
                            #[trigger] old(self).chats().repository().answers_update_message(marked_deleted(found.message), u)
                            && final(self).chats().calls() == looked_up.push(ChatCall::UpdateMessage(marked_deleted(found.message), u))
                            && match u {
                                Err(e) => r == Err::<MessageResponse, ChatError>(e),
                                Ok(message) => r == Ok::<MessageResponse, ChatError>(
                                    MessageResponse { message, created_by: found.created_by, room: found.room }),
                            },
                    },
                }
            },
    {
        let found = self.chats.get_message_by_id(message_id);
        assert(old(self).chats().repository().answers_get_message_by_id(message_id, found));
        let found = match found {
            Err(e) => { return Err(e); },
            Ok(found) => found,
        };
        let c = message_edit_check(&found.message, user_id);
        assert(edit_check_outcome(found.message, user_id, c));
        if let Err(e) = c {
            return Err(e);
        }
        let MessageResponse { message, created_by, room } = found;
        let row = deleted_message(message);
        let ghost row_ = row;
        let u = self.chats.update_message(row);
        assert(old(self).chats().repository().answers_update_message(row_, u));
        match u {
            Err(e) => Err(e),
            Ok(message) => Ok(MessageResponse { message, created_by, room }),
        }
    }

    /// A member clears a conversation, so that older messages stay hidden from them: the room
    /// is looked up and the membership stored with the instant of clearing; the answer is the
    /// room, or an unexpected error where the store failed. A non-member changes nothing.
    pub fn delete_conversation(&mut self, conversation_id: i32, user_id: i32) -> (r: Result<Room, ChatError>)
        ensures
            final(self).same_stores(*old(self)),
            forall|k: int| old(self).rooms().calls().len() <= k < final(self).rooms().calls().len() ==> match #[trigger] final(self).rooms().calls()[k] {
                RoomCall::UpdateMember(member, _) => member.soft_deleted_at is Some && member.user_id == user_id,
                RoomCall::GetRoomById(id, _) => id == conversation_id,
                _ => false,
            },
            final(self).users().calls() == old(self).users().calls(),
            final(self).chats().calls() == old(self).chats().calls(),
            exists|found: Result<RoomResponse, RoomError>| #[trigger] old(self).rooms().repository().answers_get_room_by_id(conversation_id, found) && {
                let looked_up = old(self).rooms().calls().push(RoomCall::GetRoomById(conversation_id, found));
                match found {
                    Err(_) => r == Err::<Room, ChatError>(ChatError::ConversationNotFound(conversation_id))
                        && final(self).rooms().calls() == looked_up,
                    Ok(room) => exists|now: i64, c: Result<Member, ChatError>| #[trigger] is_cleared(room, user_id, now, c) && match c {
                        Err(e) => r == Err::<Room, ChatError>(e) && final(self).rooms().calls() == looked_up,
                        Ok(member) => member.soft_deleted_at == Some(now) && member.user_id == user_id && exists|u: Result<MemberResponse, RoomError>|
                            #[trigger] old(self).rooms().repository().answers_update_member(member, u)
                            && final(self).rooms().calls() == looked_up.push(RoomCall::UpdateMember(member, u))
                            && match u {
                                Ok(_) => r == Ok::<Room, ChatError>(room.room),
                                Err(_) => r matches Err(e) && is_chat_unexpected(e, ""@),
                            },
                    },
                }
            },
    {
        let found = self.rooms.get_room_by_id(conversation_id);
        assert(old(self).rooms().repository().answers_get_room_by_id(conversation_id, found));
        let room = match require_conversation(found, conversation_id) {
            Err(e) => { return Err(e); },
            Ok(room) => room,
        };
        let now = now_micros();
        let c = cleared_membership(&room, user_id, now);
        assert(is_cleared(room, user_id, now, c));
        let member = match c {
            Err(e) => { return Err(e); },
            Ok(member) => member,
        };
        let ghost member_ = member;
        let u = self.rooms.update_member(member);
        assert(old(self).rooms().repository().answers_update_member(member_, u));
        match u {
            Ok(_) => Ok(room.room),
            Err(_) => Err(chat_unexpected("")),
        }
    }

    /// Records when the latest message of a room was written; a failure to store it is ignored.
    pub fn update_latest_message_created_at(&mut self, room: Room, now: i64, latest_message_id: Option<i32>)
        ensures
            final(self).same_stores(*old(self)),
            final(self).users().calls() == old(self).users().calls(),
            final(self).chats().calls() == old(self).chats().calls(),
            room_stored(old(self).rooms().calls(), latest_message_row(room, now, latest_message_id), final(self).rooms().calls()),
    {
        let _ = self.rooms.update_room(with_latest_message(room, now, latest_message_id));
    }
}

} // verus!
