//! The chat of meetings: only members who accepted their invitation read and write it, and
//! writing brings back a member who had hidden the conversation.
use vstd::prelude::*;
use crate::errors::GeneralError;
use crate::meetings::errors::{chat_forbidden, chat_unexpected, is_chat_forbidden, is_chat_unexpected, ChatError, MeetingError};
use crate::meetings::models::{Meeting, Member, MembersStatusEnum, Message, MessagesStatusEnum, MessagesTypeEnum, NewMessage, User};
use crate::meetings::repositories::{ChatCall, ChatRepository, ChatStore, MeetingCall, MeetingRepository, MeetingStore, UserCall, UserRepository, UserStore};
use crate::meetings::responses::{MeetingResponse, MemberResponse, MessageResponse};
use crate::meetings::service::{first_member_at, has_member, is_accepted_in, position_of_member};
use crate::outside::now_micros;

verus! {

pub open spec fn is_accepted(m: MemberResponse, user_id: i32) -> bool {
    m.member.user_id == Some(user_id) && m.member.status != MembersStatusEnum::Inviting.code()
}

/// `i` is the first position of an accepted membership of `user_id`.
pub open spec fn first_accepted_at(members: Seq<MemberResponse>, user_id: i32, i: int) -> bool {
    &&& 0 <= i < members.len()
    &&& is_accepted(members[i], user_id)
    &&& forall|j: int| 0 <= j < i ==> !is_accepted(#[trigger] members[j], user_id)
}

/// Whether `r` is the instant before which a member does not see the messages of a meeting:
/// when they last cleared the conversation, else when the meeting was created. Only a member
/// who accepted the invitation may read.
pub open spec fn cutoff_outcome(meeting: MeetingResponse, user_id: i32, r: Result<i64, ChatError>) -> bool {
    &&& !is_accepted_in(meeting.members@, user_id) ==> (r matches Err(e) && is_chat_forbidden(
        e,
        "You not allowed get messages from room that you not stay in there"@,
    ))
    &&& is_accepted_in(meeting.members@, user_id) ==> exists|i: int|
        #[trigger] first_accepted_at(meeting.members@, user_id, i) && r == Ok::<i64, ChatError>(
            match meeting.members@[i].member.soft_deleted_at {
                Some(t) => t,
                None => meeting.meeting.created_at,
            },
        )
}

/// The instant before which a member does not see the messages of a meeting.
pub fn messages_cutoff(meeting: &MeetingResponse, user_id: i32) -> (r: Result<i64, ChatError>)
    ensures
        cutoff_outcome(*meeting, user_id, r),
{
    let inviting = MembersStatusEnum::Inviting.to_i32();
    let mut i: usize = 0;
    while i < meeting.members.len()
        invariant
            i <= meeting.members@.len(),
            inviting == MembersStatusEnum::Inviting.code(),
            forall|j: int| 0 <= j < i ==> !is_accepted(#[trigger] meeting.members@[j], user_id),
        decreases meeting.members.len() - i,
    {
        let member = meeting.members[i].member;
        if member.user_id == Some(user_id) && member.status != inviting {
            assert(first_accepted_at(meeting.members@, user_id, i as int));
            return Ok(match member.soft_deleted_at {
                Some(t) => t,
                None => meeting.meeting.created_at,
            });
        }
        i = i + 1;
    }
    proof {
        if is_accepted_in(meeting.members@, user_id) {
            let k = choose|k: int| 0 <= k < meeting.members@.len() && (#[trigger] meeting.members@[k]).member.user_id == Some(user_id)
                && meeting.members@[k].member.status != MembersStatusEnum::Inviting.code();
            assert(is_accepted(meeting.members@[k], user_id));
        }
    }
    Err(chat_forbidden("You not allowed get messages from room that you not stay in there"))
}

/// A conversation must exist: a failed lookup becomes `ConversationNotFound(meeting_id)`.
pub fn require_conversation(meeting: Result<MeetingResponse, MeetingError>, meeting_id: i32) -> (r: Result<MeetingResponse, ChatError>)
    ensures
        match meeting {
            Ok(x) => r == Ok::<MeetingResponse, ChatError>(x),
            Err(_) => r == Err::<MeetingResponse, ChatError>(ChatError::ConversationNotFound(meeting_id)),
        },
{
    match meeting {
        Ok(x) => Ok(x),
        Err(_) => Err(ChatError::ConversationNotFound(meeting_id)),
    }
}

/// The author of a message must exist: a failed lookup becomes `MemberNotFound(user_id)`.
pub fn require_author(user: Result<User, GeneralError>, user_id: i32) -> (r: Result<User, ChatError>)
    ensures
        match user {
            Ok(u) => r == Ok::<User, ChatError>(u),
            Err(_) => r == Err::<User, ChatError>(ChatError::MemberNotFound(user_id)),
        },
{
    match user {
        Ok(u) => Ok(u),
        Err(_) => Err(ChatError::MemberNotFound(user_id)),
    }
}

/// What deciding whether `user_id` may write in a meeting gives, with the membership to store
/// again first: a member who has not accepted may not write; one who had hidden the
/// conversation is joined again; a non-member gets `MemberNotFound(user_id)`.
pub open spec fn standing_outcome(meeting: MeetingResponse, user_id: i32, r: Result<Option<Member>, ChatError>) -> bool {
    &&& !has_member(meeting.members@, user_id) ==> r == Err::<Option<Member>, ChatError>(ChatError::MemberNotFound(user_id))
    &&& has_member(meeting.members@, user_id) ==> exists|i: int| {
        &&& #[trigger] first_member_at(meeting.members@, user_id, i)
        &&& {
            let m = meeting.members@[i].member;
            if m.status == MembersStatusEnum::Inviting.code() {
                r matches Err(e) && is_chat_forbidden(e, "User is not accept invitation"@)
            } else if m.status == MembersStatusEnum::Invisible.code() {
                r == Ok::<Option<Member>, ChatError>(Some(Member { status: MembersStatusEnum::Joined.code(), ..m }))
            } else {
                r == Ok::<Option<Member>, ChatError>(None)
            }
        }
    }
}

/// Whether `user_id` may write in a meeting, and the membership to store again first.
pub fn writer_standing(meeting: &MeetingResponse, user_id: i32) -> (r: Result<Option<Member>, ChatError>)
    ensures
        standing_outcome(*meeting, user_id, r),
{
    match position_of_member(&meeting.members, user_id) {
        None => Err(ChatError::MemberNotFound(user_id)),
        Some(i) => {
            let mut member = meeting.members[i].member;
            if member.status == MembersStatusEnum::Inviting.to_i32() {
                Err(chat_forbidden("User is not accept invitation"))
            } else if member.status == MembersStatusEnum::Invisible.to_i32() {
                member.status = MembersStatusEnum::Joined.to_i32();
                Ok(Some(member))
            } else {
                Ok(None)
            }
        },
    }
}

/// Whether `r` is the row of an active message with text `data` that `user_id` wrote in a
/// meeting at one instant.
pub open spec fn is_new_message(r: NewMessage, data: Seq<char>, user_id: i32, meeting_id: i32) -> bool {
    &&& r.data@ == data
    &&& r.created_by_id == Some(user_id)
    &&& r.meeting_id == Some(meeting_id)
    &&& r.status == MessagesStatusEnum::Active.code()
    &&& r.type_ == MessagesTypeEnum::Default.code()
    &&& r.updated_at == r.created_at
}

/// The row of an active message written by `user_id` at `now`.
pub fn new_message(data: &str, user_id: i32, meeting_id: i32, now: i64) -> (r: NewMessage)
    ensures
        is_new_message(r, data@, user_id, meeting_id),
        r.created_at == now,
{
    NewMessage {
        data: data.to_string(),
        created_by_id: Some(user_id),
        meeting_id: Some(meeting_id),
        status: MessagesStatusEnum::Active.to_i32(),
        type_: MessagesTypeEnum::Default.to_i32(),
        created_at: now,
        updated_at: now,
    }
}

/// Whether `calls` is `before` followed by one request to store `meeting`, whatever its answer.
pub open spec fn meeting_stored(before: Seq<MeetingCall>, meeting: Meeting, calls: Seq<MeetingCall>) -> bool {
    exists|u: Result<MeetingResponse, MeetingError>| calls == #[trigger] before.push(MeetingCall::UpdateMeeting(meeting, u))
}

/// Whether `calls` is `before` followed by what a writer's standing asks: the membership to
/// store again, whatever the answer, or nothing.
pub open spec fn rejoined_stored(before: Seq<MeetingCall>, rejoined: Option<Member>, calls: Seq<MeetingCall>) -> bool {
    match rejoined {
        None => calls == before,
        Some(member) => exists|u: Result<MemberResponse, MeetingError>| calls == #[trigger] before.push(MeetingCall::UpdateMember(member, u)),
    }
}

/// Whether `calls` is `before` followed by what a writer's standing asks and then, when given,
/// one request to store `latest`, whatever the answers.
pub open spec fn written_after_standing(before: Seq<MeetingCall>, rejoined: Option<Member>, latest: Option<Meeting>, calls: Seq<MeetingCall>) -> bool {
    exists|standing: Seq<MeetingCall>| #[trigger] rejoined_stored(before, rejoined, standing) && match latest {
        None => calls == standing,
        Some(meeting) => meeting_stored(standing, meeting, calls),
    }
}

/// The meeting once a message was written at `now`; the latest message changes only when one is given.
pub open spec fn latest_message_row(meeting: Meeting, now: i64, latest_message_id: Option<i32>) -> Meeting {
    Meeting {
        latest_message_created_at: Some(now),
        latest_message_id: match latest_message_id { Some(id) => Some(id), None => meeting.latest_message_id },
        ..meeting
    }
}

/// The meeting once a message was written at `now`; the latest message changes only when one is given.
pub fn with_latest_message(meeting: Meeting, now: i64, latest_message_id: Option<i32>) -> (r: Meeting)
    ensures
        r == latest_message_row(meeting, now, latest_message_id),
        r.latest_message_created_at == Some(now),
        r.latest_message_id == match latest_message_id { Some(id) => Some(id), None => meeting.latest_message_id },
        r.id == meeting.id,
{
    let mut meeting = meeting;
    meeting.latest_message_created_at = Some(now);
    if let Some(id) = latest_message_id {
        meeting.latest_message_id = Some(id);
    }
    meeting
}

/// Whether `user_id` may change `message`: it was not deleted and they wrote it.
pub open spec fn edit_allowed(message: Message, user_id: i32) -> bool {
    message.status != MessagesStatusEnum::Inactive.code() && message.created_by_id == Some(user_id)
}

/// `message` marked deleted.
pub open spec fn marked_deleted(message: Message) -> Message {
    Message { status: MessagesStatusEnum::Inactive.code(), ..message }
}

/// What deciding whether `user_id` may change a message gives: not once it was deleted, and
/// only its author.
pub open spec fn edit_check_outcome(message: Message, user_id: i32, r: Result<(), ChatError>) -> bool {
    &&& r is Ok <==> edit_allowed(message, user_id)
    &&& message.status == MessagesStatusEnum::Inactive.code() ==> (r matches Err(e) && is_chat_unexpected(e, "Message has been deleted"@))
    &&& message.status != MessagesStatusEnum::Inactive.code() && message.created_by_id != Some(user_id)
        ==> (r matches Err(e) && is_chat_forbidden(e, "You not allowed modify message of other users"@))
}

/// Whether `user_id` may change a message: not once it was deleted, and only its author.
pub fn message_edit_check(message: &Message, user_id: i32) -> (r: Result<(), ChatError>)
    ensures
        edit_check_outcome(*message, user_id, r),
{
    if message.status == MessagesStatusEnum::Inactive.to_i32() {
        return Err(chat_unexpected("Message has been deleted"));
    }
    if message.created_by_id != Some(user_id) {
        return Err(chat_forbidden("You not allowed modify message of other users"));
    }
    Ok(())
}

/// Whether `r` is `message` with the text `data`, edited at some instant; nothing else changes.
pub open spec fn is_edit_of(message: Message, data: Seq<char>, r: Message) -> bool {
    &&& r.data@ == data
    &&& r == (Message { data: r.data, updated_at: r.updated_at, ..message })
}

/// A message with new text, edited at `now`.
pub fn edited_message(message: Message, data: &str, now: i64) -> (r: Message)
    ensures
        is_edit_of(message, data@, r),
        r.updated_at == now,
{
    let mut message = message;
    message.data = data.to_string();
    message.updated_at = now;
    message
}

/// A message marked deleted.
pub fn deleted_message(message: Message) -> (r: Message)
    ensures
        r == marked_deleted(message),
{
    let mut message = message;
    message.status = MessagesStatusEnum::Inactive.to_i32();
    message
}

/// What clearing and hiding the conversation of `user_id` at `now` gives: their membership
/// with the instant of clearing, or `ConversationNotFound(user_id)` for someone who is not a
/// member.
pub open spec fn is_cleared(meeting: MeetingResponse, user_id: i32, now: i64, r: Result<Member, ChatError>) -> bool {
    &&& !has_member(meeting.members@, user_id) ==> r == Err::<Member, ChatError>(ChatError::ConversationNotFound(user_id))
    &&& has_member(meeting.members@, user_id) ==> exists|i: int|
        #[trigger] first_member_at(meeting.members@, user_id, i) && r == Ok::<Member, ChatError>(Member {
            soft_deleted_at: Some(now),
            status: MembersStatusEnum::Invisible.code(),
            ..meeting.members@[i].member
        })
}

/// The membership of `user_id` with its conversation cleared at `now` and hidden. Someone who
/// is not a member gets `ConversationNotFound(user_id)`.
pub fn cleared_membership(meeting: &MeetingResponse, user_id: i32, now: i64) -> (r: Result<Member, ChatError>)
    ensures
        is_cleared(*meeting, user_id, now, r),
        r is Ok <==> has_member(meeting.members@, user_id),
        r matches Ok(m) ==> m.soft_deleted_at == Some(now) && m.status == MembersStatusEnum::Invisible.code()
            && m.user_id == Some(user_id),
{
    match position_of_member(&meeting.members, user_id) {
        None => Err(ChatError::ConversationNotFound(user_id)),
        Some(i) => {
            let mut member = meeting.members[i].member;
            member.soft_deleted_at = Some(now);
            member.status = MembersStatusEnum::Invisible.to_i32();
            Ok(member)
        },
    }
}

/// A message that was deleted cannot be edited or deleted again, whoever asks.
pub proof fn lemma_deleted_message_is_final(message: Message, user_id: i32)
    ensures
        !edit_allowed(marked_deleted(message), user_id),
{
}

/// The chat service over a message store, a meeting store and a user store.
pub struct ChatServiceImpl<C: ChatRepository, M: MeetingRepository, U: UserRepository> {
    chats: ChatStore<C>,
    meetings: MeetingStore<M>,
    users: UserStore<U>,
}

impl<C: ChatRepository, M: MeetingRepository, U: UserRepository> ChatServiceImpl<C, M, U> {
    /// The message store the service reads and writes, with the calls made to it.
    pub closed spec fn chats(&self) -> ChatStore<C> {
        self.chats
    }

    /// The meeting store the service reads and writes, with the calls made to it.
    pub closed spec fn meetings(&self) -> MeetingStore<M> {
        self.meetings
    }

    /// The user store the service reads, with the calls made to it.
    pub closed spec fn users(&self) -> UserStore<U> {
        self.users
    }

    /// Whether this service works on the same stores as `earlier`.
    pub open spec fn same_stores(&self, earlier: Self) -> bool {
        &&& self.chats().repository() == earlier.chats().repository()
        &&& self.meetings().repository() == earlier.meetings().repository()
        &&& self.users().repository() == earlier.users().repository()
    }

    pub fn new(chat_repository: C, meeting_repository: M, user_repository: U) -> (r: Self)
        ensures
            r.chats().repository() == chat_repository,
            r.meetings().repository() == meeting_repository,
            r.users().repository() == user_repository,
            r.chats().calls() == Seq::<ChatCall>::empty(),
            r.meetings().calls() == Seq::<MeetingCall>::empty(),
            r.users().calls() == Seq::<UserCall>::empty(),
    {
        ChatServiceImpl {
            chats: ChatStore::new(chat_repository),
            meetings: MeetingStore::new(meeting_repository),
            users: UserStore::new(user_repository),
        }
    }

    /// The messages of a meeting that `user_id` sees, newest first: the meeting is looked up,
    /// only a member who accepted may read, and the store lists the messages from the instant
    /// the member sees from. A refused reader makes no message query.
    pub fn get_messages_by_meeting(&mut self, meeting_id: i32, user_id: i32, skip: i64, limit: i64) -> (r: Result<Vec<MessageResponse>, ChatError>)
        ensures
            final(self).same_stores(*old(self)),
            final(self).users().calls() == old(self).users().calls(),
            exists|found: Result<MeetingResponse, MeetingError>| #[trigger] old(self).meetings().repository().answers_get_meeting_by_id(meeting_id, found) && {
                &&& final(self).meetings().calls() == old(self).meetings().calls().push(MeetingCall::GetMeetingById(meeting_id, found))
                &&& match found {
                    Err(_) => r == Err::<Vec<MessageResponse>, ChatError>(ChatError::ConversationNotFound(meeting_id))
                        && final(self).chats().calls() == old(self).chats().calls(),
                    Ok(meeting) => exists|cutoff: Result<i64, ChatError>| #[trigger] cutoff_outcome(meeting, user_id, cutoff) && match cutoff {
                        Err(e) => r == Err::<Vec<MessageResponse>, ChatError>(e) && final(self).chats().calls() == old(self).chats().calls(),
                        Ok(t) => final(self).chats().calls() == old(self).chats().calls().push(ChatCall::GetMessagesByMeeting(meeting_id, t, skip, limit, r)),
                    },
                }
            },
    {
        let found = self.meetings.get_meeting_by_id(meeting_id);
        assert(old(self).meetings().repository().answers_get_meeting_by_id(meeting_id, found));
        let meeting = match require_conversation(found, meeting_id) {
            Err(e) => { return Err(e); },
            Ok(meeting) => meeting,
        };
        let cutoff = messages_cutoff(&meeting, user_id);
        assert(cutoff_outcome(meeting, user_id, cutoff));
        match cutoff {
            Err(e) => Err(e),
            Ok(deleted_at) => self.chats.get_messages_by_meeting(meeting_id, deleted_at, skip, limit),
        }
    }

    /// Writes a message in a meeting: its author and its meeting are looked up, the writer's
    /// standing decided (a hidden conversation is stored joined again first), the store creates
    /// the row, the meeting records its latest message, and the answer carries the stored
    /// message, its author and its meeting. A refused writer writes nothing.
    pub fn create_message(&mut self, meeting_id: i32, user_id: i32, data: &str) -> (r: Result<MessageResponse, ChatError>)
        ensures
            final(self).same_stores(*old(self)),
            exists|author: Result<User, GeneralError>| #[trigger] old(self).users().repository().answers_get_user_by_id(user_id, author) && {
                &&& final(self).users().calls() == old(self).users().calls().push(UserCall::GetUserById(user_id, author))
                &&& match author {
                    Err(_) => r == Err::<MessageResponse, ChatError>(ChatError::MemberNotFound(user_id))
                        && final(self).meetings().calls() == old(self).meetings().calls()
                        && final(self).chats().calls() == old(self).chats().calls(),
                    Ok(user) => exists|found: Result<MeetingResponse, MeetingError>| #[trigger] old(self).meetings().repository().answers_get_meeting_by_id(meeting_id, found) && {
                        let looked_up = old(self).meetings().calls().push(MeetingCall::GetMeetingById(meeting_id, found));
                        match found {
                            Err(_) => r == Err::<MessageResponse, ChatError>(ChatError::ConversationNotFound(meeting_id))
                                && final(self).meetings().calls() == looked_up
                                && final(self).chats().calls() == old(self).chats().calls(),
                            Ok(meeting) => exists|w: Result<Option<Member>, ChatError>| #[trigger] standing_outcome(meeting, user_id, w) && match w {
                                Err(e) => r == Err::<MessageResponse, ChatError>(e)
                                    && final(self).meetings().calls() == looked_up
                                    && final(self).chats().calls() == old(self).chats().calls(),
                                Ok(rejoined) => exists|row: NewMessage, c: Result<Message, ChatError>|
                                    #[trigger] old(self).chats().repository().answers_create_message(row, c) && {
                                    &&& is_new_message(row, data@, user_id, meeting_id)
                                    &&& final(self).chats().calls() == old(self).chats().calls().push(ChatCall::CreateMessage(row, c))
                                    &&& match c {
                                        Err(e) => r == Err::<MessageResponse, ChatError>(e)
                                            && written_after_standing(looked_up, rejoined, None, final(self).meetings().calls()),
                                        Ok(message) => r == Ok::<MessageResponse, ChatError>(
                                                MessageResponse { message, created_by: Some(user), meeting: Some(meeting.meeting) })
                                            && written_after_standing(looked_up, rejoined,
                                                Some(latest_message_row(meeting.meeting, row.created_at, Some(message.id))), final(self).meetings().calls()),
                                    }
                                },
                            },
                        }
                    },
                }
            },
    {
        let author = self.users.get_user_by_id(user_id);
        assert(old(self).users().repository().answers_get_user_by_id(user_id, author));
        let user = match require_author(author, user_id) {
            Err(e) => { return Err(e); },
            Ok(user) => user,
        };
        let found = self.meetings.get_meeting_by_id(meeting_id);
        assert(old(self).meetings().repository().answers_get_meeting_by_id(meeting_id, found));
        let meeting = match require_conversation(found, meeting_id) {
            Err(e) => { return Err(e); },
            Ok(meeting) => meeting,
        };
        let w = writer_standing(&meeting, user_id);
        assert(standing_outcome(meeting, user_id, w));
        let ghost looked_up = self.meetings.calls();
        let ghost standing_answer = w;
        match w {
            Err(e) => { return Err(e); },
            Ok(Some(member)) => {
                let _ = self.meetings.update_member(member);
            },
            Ok(None) => {},
        }
        let ghost standing = self.meetings.calls();
        assert(rejoined_stored(looked_up, standing_answer->Ok_0, standing));
        let now = now_micros();
        let row = new_message(data, user_id, meeting_id, now);
        let ghost row_ = row;
        let c = self.chats.create_message(row);
        assert(old(self).chats().repository().answers_create_message(row_, c));
        let message = match c {
            Err(e) => { return Err(e); },
            Ok(message) => message,
        };
        self.update_latest_message_created_at(meeting.meeting.clone(), now, Some(message.id));
        Ok(MessageResponse { message, created_by: Some(user), meeting: Some(meeting.meeting) })
    }

    /// Its author edits a message that was not deleted: the message is looked up, its meeting
    /// must be known (else `ConversationNotFound(message_id)`), the meeting records the edit,
    /// and the store's answer to storing the edited row is the answer. A refused edit writes
    /// nothing.
    pub fn update_message(&mut self, message_id: i32, user_id: i32, data: &str) -> (r: Result<Message, ChatError>)
        ensures
            final(self).same_stores(*old(self)),
            final(self).users().calls() == old(self).users().calls(),
            exists|found: Result<MessageResponse, ChatError>| #[trigger] old(self).chats().repository().answers_get_message_by_id(message_id, found) && {
                let looked_up = old(self).chats().calls().push(ChatCall::GetMessageById(message_id, found));
                match found {
                    Err(e) => r == Err::<Message, ChatError>(e) && final(self).chats().calls() == looked_up
                        && final(self).meetings().calls() == old(self).meetings().calls(),
                    Ok(found) => match found.meeting {
                        None => r == Err::<Message, ChatError>(ChatError::ConversationNotFound(message_id))
                            && final(self).chats().calls() == looked_up && final(self).meetings().calls() == old(self).meetings().calls(),
                        Some(meeting) => exists|c: Result<(), ChatError>| #[trigger] edit_check_outcome(found.message, user_id, c) && match c {
                            Err(e) => r == Err::<Message, ChatError>(e) && final(self).chats().calls() == looked_up
                                && final(self).meetings().calls() == old(self).meetings().calls(),
                            Ok(_) => exists|row: Message| #[trigger] old(self).chats().repository().answers_update_message(row, r) && {
                                &&& is_edit_of(found.message, data@, row)
                                &&& meeting_stored(old(self).meetings().calls(), latest_message_row(meeting, row.updated_at, None),
                                    final(self).meetings().calls())
                                &&& final(self).chats().calls() == looked_up.push(ChatCall::UpdateMessage(row, r))
                            },
                        },
                    },
                }
            },
    {
        let found = self.chats.get_message_by_id(message_id);
        assert(old(self).chats().repository().answers_get_message_by_id(message_id, found));
        let found = match found {
            Err(e) => { return Err(e); },
            Ok(found) => found,
        };
        let meeting = match &found.meeting {
            Some(meeting) => meeting.clone(),
            None => {
                return Err(ChatError::ConversationNotFound(message_id));
            },
        };
        let c = message_edit_check(&found.message, user_id);
        assert(edit_check_outcome(found.message, user_id, c));
        if let Err(e) = c {
            return Err(e);
        }
        let now = now_micros();
        self.update_latest_message_created_at(meeting, now, None);
        let row = edited_message(found.message, data, now);
        let ghost row_ = row;
        let r = self.chats.update_message(row);
        assert(old(self).chats().repository().answers_update_message(row_, r));
        r
    }

    /// Its author deletes a message that was not deleted yet: the message is looked up, and
    /// the store's answer to storing it marked deleted is the answer. A refused request writes
    /// nothing.
    pub fn delete_message_by_id(&mut self, message_id: i32, user_id: i32) -> (r: Result<Message, ChatError>)
        ensures
            final(self).same_stores(*old(self)),
            final(self).users().calls() == old(self).users().calls(),
            final(self).meetings().calls() == old(self).meetings().calls(),
            exists|found: Result<MessageResponse, ChatError>| #[trigger] old(self).chats().repository().answers_get_message_by_id(message_id, found) && {
                let looked_up = old(self).chats().calls().push(ChatCall::GetMessageById(message_id, found));
                match found {
                    Err(e) => r == Err::<Message, ChatError>(e) && final(self).chats().calls() == looked_up,
                    Ok(found) => exists|c: Result<(), ChatError>| #[trigger] edit_check_outcome(found.message, user_id, c) && match c {
                        Err(e) => r == Err::<Message, ChatError>(e) && final(self).chats().calls() == looked_up,
                        Ok(_) => final(self).chats().calls() == looked_up.push(ChatCall::UpdateMessage(marked_deleted(found.message), r)),
                    },
                }
            },
    {
        let found = self.chats.get_message_by_id(message_id);
        assert(old(self).chats().repository().answers_get_message_by_id(message_id, found));
        let found = match found {
            Err(e) => { return Err(e); },
            Ok(found) => found,
        };
        let c = message_edit_check(&found.message, user_id);
        assert(edit_check_outcome(found.message, user_id, c));
        if let Err(e) = c {
            return Err(e);
        }
        self.chats.update_message(deleted_message(found.message))
    }

    /// A member clears and hides a conversation, so that older messages stay hidden from them:
    /// the meeting is looked up and the membership stored with the instant of clearing; the
    /// answer is the meeting, or an unexpected error where the store failed. A non-member
    /// changes nothing.
    pub fn delete_conversation(&mut self, conversation_id: i32, user_id: i32) -> (r: Result<Meeting, ChatError>)
        ensures
            final(self).same_stores(*old(self)),
            final(self).users().calls() == old(self).users().calls(),
            final(self).chats().calls() == old(self).chats().calls(),
            exists|found: Result<MeetingResponse, MeetingError>| #[trigger] old(self).meetings().repository().answers_get_meeting_by_id(conversation_id, found) && {
                let looked_up = old(self).meetings().calls().push(MeetingCall::GetMeetingById(conversation_id, found));
                match found {
                    Err(_) => r == Err::<Meeting, ChatError>(ChatError::ConversationNotFound(conversation_id))
                        && final(self).meetings().calls() == looked_up,
                    Ok(meeting) => exists|now: i64, c: Result<Member, ChatError>| #[trigger] is_cleared(meeting, user_id, now, c) && match c {
                        Err(e) => r == Err::<Meeting, ChatError>(e) && final(self).meetings().calls() == looked_up,
                        Ok(member) => exists|u: Result<MemberResponse, MeetingError>|
                            #[trigger] old(self).meetings().repository().answers_update_member(member, u)
                            && final(self).meetings().calls() == looked_up.push(MeetingCall::UpdateMember(member, u))
                            && match u {
                                Ok(_) => r == Ok::<Meeting, ChatError>(meeting.meeting),
                                Err(_) => r matches Err(e) && is_chat_unexpected(e, ""@),
                            },
                    },
                }
            },
    {
        let found = self.meetings.get_meeting_by_id(conversation_id);
        assert(old(self).meetings().repository().answers_get_meeting_by_id(conversation_id, found));
        let meeting = match require_conversation(found, conversation_id) {
            Err(e) => { return Err(e); },
            Ok(meeting) => meeting,
        };
        let now = now_micros();
        let c = cleared_membership(&meeting, user_id, now);
        assert(is_cleared(meeting, user_id, now, c));
        let member = match c {
            Err(e) => { return Err(e); },
            Ok(member) => member,
        };
        let ghost member_ = member;
        let u = self.meetings.update_member(member);
        assert(old(self).meetings().repository().answers_update_member(member_, u));
        match u {
            Ok(_) => Ok(meeting.meeting),
            Err(_) => Err(chat_unexpected("")),
        }
    }

    /// Records when the latest message of a meeting was written; a failure to store it is ignored.
    pub fn update_latest_message_created_at(&mut self, meeting: Meeting, now: i64, latest_message_id: Option<i32>)
        ensures
            final(self).same_stores(*old(self)),
            final(self).users().calls() == old(self).users().calls(),
            final(self).chats().calls() == old(self).chats().calls(),
            meeting_stored(old(self).meetings().calls(), latest_message_row(meeting, now, latest_message_id), final(self).meetings().calls()),
    {
        let _ = self.meetings.update_meeting(with_latest_message(meeting, now, latest_message_id));
    }
}

} // verus!
