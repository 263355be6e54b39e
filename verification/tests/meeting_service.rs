use std::sync::{Arc, Mutex};

use waterbus_rs::dtos::{CreateMeetingDto, PaginationDto, UpdateMeetingDto};
use waterbus_rs::errors::GeneralError;
use waterbus_rs::meetings::chat::ChatServiceImpl;
use waterbus_rs::meetings::errors::{CcuError, ChatError, MeetingError};
use waterbus_rs::meetings::models::{
    Ccu, Meeting, MeetingsStatusEnum, Member, MembersRoleEnum, MembersStatusEnum, Message, NewCcu, NewMeeting,
    NewMember, NewMessage, NewParticipant, Participant, User,
};
use waterbus_rs::meetings::repositories::{CcuRepository, ChatRepository, MeetingRepository, UserRepository};
use waterbus_rs::meetings::responses::{MeetingResponse, MemberResponse, MessageResponse, ParticipantResponse};
use waterbus_rs::meetings::service::{member_entry, with_member, without_member, MeetingServiceImpl};
use waterbus_rs::meetings::sfu::SfuServiceImpl;

fn user(id: i32) -> User {
    User {
        id,
        full_name: Some(format!("User{id}")),
        user_name: format!("user{id}"),
        bio: None,
        google_id: None,
        custom_id: None,
        avatar: None,
        created_at: 0,
        updated_at: 0,
        deleted_at: None,
        last_seen_at: None,
    }
}

fn member(id: i32, user_id: i32, role: MembersRoleEnum, status: MembersStatusEnum) -> MemberResponse {
    MemberResponse {
        member: Member {
            id,
            role: role.to_i32(),
            status: status.to_i32(),
            created_at: 0,
            deleted_at: None,
            soft_deleted_at: None,
            user_id: Some(user_id),
            meeting_id: Some(1),
        },
        user: Some(user(user_id)),
    }
}

fn participant(id: i32, user_id: i32, ccu_id: Option<i32>) -> ParticipantResponse {
    ParticipantResponse {
        participant: Participant {
            id,
            status: 0,
            created_at: 0,
            deleted_at: None,
            user_id: Some(user_id),
            meeting_id: Some(1),
            ccu_id,
        },
        user: Some(user(user_id)),
    }
}

fn meeting(password: &str) -> MeetingResponse {
    MeetingResponse {
        meeting: Meeting {
            id: 1,
            title: "Standup".to_string(),
            password: password.to_string(),
            avatar: None,
            status: MeetingsStatusEnum::Active.to_i32(),
            latest_message_created_at: None,
            code: 123456,
            created_at: 10,
            updated_at: 10,
            deleted_at: None,
            latest_message_id: None,
        },
        members: vec![
            member(1, 1, MembersRoleEnum::Host, MembersStatusEnum::Joined),
            member(2, 2, MembersRoleEnum::Attendee, MembersStatusEnum::Joined),
            member(3, 3, MembersRoleEnum::Attendee, MembersStatusEnum::Inviting),
        ],
        participants: vec![participant(1, 1, Some(5)), participant(2, 2, None)],
        latest_message: None,
    }
}

fn clone_meeting(m: &MeetingResponse) -> MeetingResponse {
    MeetingResponse {
        meeting: m.meeting.clone(),
        members: m.members.clone(),
        participants: m.participants.clone(),
        latest_message: m.latest_message.clone(),
    }
}

#[derive(Clone)]
struct MockMeetingRepository {
    meeting: Arc<Mutex<Option<MeetingResponse>>>,
    deleted_members: Arc<Mutex<Vec<i32>>>,
    updated: Arc<Mutex<Vec<Meeting>>>,
    updated_members: Arc<Mutex<Vec<Member>>>,
}

impl MockMeetingRepository {
    fn with(m: Option<MeetingResponse>) -> Self {
        MockMeetingRepository {
            meeting: Arc::new(Mutex::new(m)),
            deleted_members: Arc::new(Mutex::new(vec![])),
            updated: Arc::new(Mutex::new(vec![])),
            updated_members: Arc::new(Mutex::new(vec![])),
        }
    }

    fn current(&self) -> Result<MeetingResponse, MeetingError> {
        match &*self.meeting.lock().unwrap() {
            Some(m) => Ok(clone_meeting(m)),
            None => Err(MeetingError::MeetingNotFound(0)),
        }
    }
}

impl MeetingRepository for MockMeetingRepository {
    fn find_all(&self, _user_id: i32, _member_status: MembersStatusEnum, _meeting_status: MeetingsStatusEnum, _skip: i64, _limit: i64) -> Result<Vec<MeetingResponse>, MeetingError> {
        Ok(self.current().into_iter().collect())
    }

    fn get_meeting_by_id(&self, _meeting_id: i32) -> Result<MeetingResponse, MeetingError> {
        self.current()
    }

    fn get_meeting_by_code(&self, _meeting_code: i32) -> Result<MeetingResponse, MeetingError> {
        self.current()
    }

    fn create_meeting(&self, meeting: NewMeeting) -> Result<MeetingResponse, MeetingError> {
        let mut m = crate::meeting("");
        m.meeting.title = meeting.title;
        m.meeting.password = meeting.password;
        m.meeting.code = meeting.code;
        m.members.clear();
        Ok(m)
    }

    fn update_meeting(&self, meeting: Meeting) -> Result<MeetingResponse, MeetingError> {
        self.updated.lock().unwrap().push(meeting.clone());
        let mut m = self.current()?;
        m.meeting = meeting;
        Ok(m)
    }

    fn get_member_by_id(&self, _member_id: i32) -> Result<MemberResponse, MeetingError> {
        panic!("not used")
    }

    fn create_member(&self, member: NewMember) -> Result<MemberResponse, MeetingError> {
        Ok(MemberResponse {
            member: Member {
                id: 99,
                role: member.role,
                status: member.status,
                created_at: member.created_at,
                deleted_at: None,
                soft_deleted_at: None,
                user_id: member.user_id,
                meeting_id: Some(member.meeting_id),
            },
            user: None,
        })
    }

    fn update_member(&self, member: Member) -> Result<MemberResponse, MeetingError> {
        self.updated_members.lock().unwrap().push(member);
        Ok(MemberResponse { member, user: None })
    }

    fn delete_member_by_id(&self, member_id: i32) -> Result<(), MeetingError> {
        self.deleted_members.lock().unwrap().push(member_id);
        Ok(())
    }

    fn get_participant_by_id(&self, participant_id: i32) -> Result<ParticipantResponse, MeetingError> {
        Ok(participant(participant_id, 2, None))
    }

    fn create_participant(&self, p: NewParticipant) -> Result<ParticipantResponse, MeetingError> {
        Ok(ParticipantResponse {
            participant: Participant {
                id: 50,
                status: p.status,
                created_at: p.created_at,
                deleted_at: None,
                user_id: p.user_id,
                meeting_id: Some(p.meeting_id),
                ccu_id: p.ccu_id,
            },
            user: None,
        })
    }

    fn update_participant(&self, participant: Participant) -> Result<ParticipantResponse, MeetingError> {
        Ok(ParticipantResponse { participant, user: None })
    }

    fn delete_participant_by_id(&self, _participant_id: i32) -> Result<(), MeetingError> {
        Ok(())
    }
}

struct MockUsers {
    known: Vec<i32>,
}

impl UserRepository for MockUsers {
    fn get_user_by_id(&self, user_id: i32) -> Result<User, GeneralError> {
        if self.known.contains(&user_id) {
            Ok(user(user_id))
        } else {
            Err(GeneralError::DbConnectionError)
        }
    }
}

fn meetings(m: Option<MeetingResponse>) -> (MeetingServiceImpl<MockMeetingRepository, MockUsers>, MockMeetingRepository) {
    let repo = MockMeetingRepository::with(m);
    (MeetingServiceImpl::new(repo.clone(), MockUsers { known: vec![1, 2, 3, 4] }), repo)
}

#[test]
fn creating_a_meeting_makes_the_creator_its_joined_host() {
    let (mut service, _) = meetings(None);
    let dto = CreateMeetingDto { title: "Standup".to_string(), password: "pw".to_string() };
    let created = service.create_meeting(dto, 7, 424242).unwrap();
    assert_eq!(created.meeting.code, 424242);
    assert_eq!(created.members.len(), 1);
    assert_eq!(created.members[0].member.user_id, Some(7));
    assert_eq!(created.members[0].member.role, MembersRoleEnum::Host.to_i32());
    assert_eq!(created.members[0].member.status, MembersStatusEnum::Joined.to_i32());
    assert_ne!(created.meeting.password, "pw");
    assert!(bcrypt::verify("pw", &created.meeting.password).unwrap());
}

#[test]
fn only_a_host_updates_a_meeting() {
    let (mut service, repo) = meetings(Some(meeting("")));
    let dto = UpdateMeetingDto { code: 123456, title: Some("Retro".to_string()), password: None, avatar: Some("a.png".to_string()) };
    let updated = service.update_meeting(dto, 1).unwrap();
    assert_eq!(updated.meeting.title, "Retro");
    assert_eq!(updated.meeting.avatar, Some("a.png".to_string()));
    assert_eq!(repo.updated.lock().unwrap().len(), 1);
    let dto = UpdateMeetingDto { code: 123456, title: Some("X".to_string()), password: None, avatar: None };
    assert_eq!(service.update_meeting(dto, 2).unwrap_err(), MeetingError::YouDontHavePermissions);
}

#[test]
fn listing_with_unknown_statuses_still_answers() {
    let (mut service, _) = meetings(Some(meeting("")));
    let list = service.get_meetings_by_status(9, 9, 1, PaginationDto { skip: 0, limit: 10 }).unwrap();
    assert_eq!(list.len(), 1);
}

#[test]
fn an_attendee_leaves_but_the_host_cannot() {
    let (mut service, repo) = meetings(Some(meeting("")));
    let left = service.leave_meeting(123456, 2).unwrap();
    assert!(left.members.iter().all(|m| m.member.user_id != Some(2)));
    assert_eq!(*repo.deleted_members.lock().unwrap(), vec![2]);
    assert_eq!(
        service.leave_meeting(123456, 1).unwrap_err(),
        MeetingError::UnexpectedError(
            "Host not allowed to leave the room. You can archive chats if the room no longer active.".to_string()
        )
    );
    assert_eq!(service.leave_meeting(123456, 9).unwrap_err(), MeetingError::UnexpectedError("Member not found".to_string()));
}

#[test]
fn joining_without_password_needs_an_accepted_membership() {
    let (mut service, _) = meetings(Some(meeting("")));
    let joined = service.join_meeting_without_password(2, 123456).unwrap();
    assert_eq!(joined.participants.len(), 2);
    assert_eq!(joined.participants[0].participant.id, 1);
    assert_eq!(joined.participants[1].participant.user_id, Some(2));
    assert_eq!(
        service.join_meeting_without_password(3, 123456).unwrap_err(),
        MeetingError::UnexpectedError("User is not member in the meeting".to_string())
    );
    assert_eq!(
        service.join_meeting_without_password(8, 123456).unwrap_err(),
        MeetingError::UnexpectedError("User not found".to_string())
    );
}

#[test]
fn joining_with_password_checks_the_hash() {
    let hash = bcrypt::hash("open sesame", 4).unwrap();
    let (mut service, _) = meetings(Some(meeting(&hash)));
    assert!(service.join_with_password(4, 123456, "open sesame").is_ok());
    assert_eq!(service.join_with_password(4, 123456, "nope").unwrap_err(), MeetingError::PasswordIncorrect);
}

#[test]
fn malformed_stored_hash_opens_nothing() {
    let (mut service, _) = meetings(Some(meeting("not a hash")));
    assert_eq!(service.join_with_password(4, 123456, "not a hash").unwrap_err(), MeetingError::PasswordIncorrect);
}

#[test]
fn a_host_invites_and_removes_members() {
    let (mut service, repo) = meetings(Some(meeting("")));
    let invited = service.add_member(123456, 1, 4).unwrap();
    let last = invited.members.last().unwrap();
    assert_eq!(last.member.user_id, Some(4));
    assert_eq!(last.member.status, MembersStatusEnum::Inviting.to_i32());
    assert_eq!(last.member.role, MembersRoleEnum::Attendee.to_i32());
    assert_eq!(service.add_member(123456, 1, 2).unwrap_err(), MeetingError::UnexpectedError("User already in the meeting".to_string()));
    assert_eq!(service.add_member(123456, 2, 4).unwrap_err(), MeetingError::YouDontHavePermissions);
    let removed = service.remove_member(123456, 1, 2).unwrap();
    assert!(removed.members.iter().all(|m| m.member.user_id != Some(2)));
    assert_eq!(*repo.deleted_members.lock().unwrap(), vec![2]);
    assert_eq!(service.remove_member(123456, 2, 3).unwrap_err(), MeetingError::YouDontHavePermissions);
}

#[test]
fn accepting_an_invitation_joins_the_member() {
    let (mut service, repo) = meetings(Some(meeting("")));
    let answered = service.accept_invitation(1, 3).unwrap();
    assert_eq!(answered.members[2].member.user_id, Some(3));
    let written = repo.updated_members.lock().unwrap();
    assert_eq!(written.len(), 1);
    assert_eq!(written[0].status, MembersStatusEnum::Joined.to_i32());
    assert_eq!(written[0].id, 3);
    drop(written);
    assert_eq!(answered.members[2].member.status, MembersStatusEnum::Joined.to_i32());
    assert!(member_entry(&answered, 3).is_ok());
    assert!(member_entry(&meeting(""), 3).is_err());
    assert_eq!(service.accept_invitation(1, 2).unwrap_err(), MeetingError::UnexpectedError("Member not found".to_string()));
}

#[test]
fn only_the_host_archives() {
    let (mut service, _) = meetings(Some(meeting("")));
    let archived = service.archived_meeting(123456, 1).unwrap();
    assert_eq!(archived.meeting.status, MeetingsStatusEnum::Archived.to_i32());
    assert_eq!(service.archived_meeting(123456, 2).unwrap_err(), MeetingError::YouDontHavePermissions);
}

#[test]
fn status_numbers_decode() {
    assert_eq!(MeetingsStatusEnum::try_from(1), Ok(MeetingsStatusEnum::Archived));
    assert_eq!(MeetingsStatusEnum::try_from(2), Err(()));
    assert_eq!(MembersStatusEnum::try_from(2), Ok(MembersStatusEnum::Joined));
    assert_eq!(MembersStatusEnum::try_from(-1), Err(()));
}

#[derive(Default)]
struct MockChat {
    messages: Vec<MessageResponse>,
    message: Option<MessageResponse>,
    cutoffs: Arc<Mutex<Vec<i64>>>,
}

fn message(created_by: i32, status: i32) -> Message {
    Message {
        id: 1,
        data: "Hello".to_string(),
        type_: 0,
        status,
        created_at: 0,
        updated_at: 0,
        deleted_at: None,
        created_by_id: Some(created_by),
        meeting_id: Some(1),
    }
}

impl ChatRepository for MockChat {
    fn get_messages_by_meeting(&self, _meeting_id: i32, deleted_at: i64, _skip: i64, _limit: i64) -> Result<Vec<MessageResponse>, ChatError> {
        self.cutoffs.lock().unwrap().push(deleted_at);
        Ok(self.messages.clone())
    }

    fn get_message_by_id(&self, message_id: i32) -> Result<MessageResponse, ChatError> {
        self.message.clone().ok_or(ChatError::MessageNotFound(message_id))
    }

    fn create_message(&self, m: NewMessage) -> Result<Message, ChatError> {
        Ok(Message {
            id: 77,
            data: m.data,
            type_: m.type_,
            status: m.status,
            created_at: m.created_at,
            updated_at: m.updated_at,
            deleted_at: None,
            created_by_id: m.created_by_id,
            meeting_id: m.meeting_id,
        })
    }

    fn update_message(&self, m: Message) -> Result<Message, ChatError> {
        Ok(m)
    }

    fn delete_message_by_id(&self, _message_id: i32) -> Result<Message, ChatError> {
        panic!("not used")
    }
}

#[test]
fn only_accepted_members_read_the_chat_from_their_cutoff() {
    let mut m = meeting("");
    m.members[1].member.soft_deleted_at = Some(33);
    let repo = MockMeetingRepository::with(Some(m));
    let chat = MockChat::default();
    let cutoffs = chat.cutoffs.clone();
    let mut service = ChatServiceImpl::new(chat, repo, MockUsers { known: vec![1, 2, 3] });
    assert!(service.get_messages_by_meeting(1, 2, 0, 10).is_ok());
    assert!(service.get_messages_by_meeting(1, 1, 0, 10).is_ok());
    assert_eq!(*cutoffs.lock().unwrap(), vec![33, 10]);
    assert_eq!(
        service.get_messages_by_meeting(1, 3, 0, 10).unwrap_err(),
        ChatError::Forbidden("You not allowed get messages from room that you not stay in there".to_string())
    );
}

#[test]
fn a_hidden_member_who_writes_is_joined_again() {
    let mut m = meeting("");
    m.members[1].member.status = MembersStatusEnum::Invisible.to_i32();
    let repo = MockMeetingRepository::with(Some(m));
    let mut service = ChatServiceImpl::new(MockChat::default(), repo.clone(), MockUsers { known: vec![1, 2, 3] });
    let sent = service.create_message(1, 2, "hi").unwrap();
    assert_eq!(sent.message.data, "hi");
    assert_eq!(sent.message.created_by_id, Some(2));
    assert!(sent.meeting.is_some());
    let rejoined = repo.updated_members.lock().unwrap();
    assert_eq!(rejoined.len(), 1);
    assert_eq!(rejoined[0].status, MembersStatusEnum::Joined.to_i32());
    drop(rejoined);
    assert_eq!(
        service.create_message(1, 3, "hi").unwrap_err(),
        ChatError::Forbidden("User is not accept invitation".to_string())
    );
    assert_eq!(service.create_message(1, 4, "hi").unwrap_err(), ChatError::MemberNotFound(4));
    assert_eq!(service.create_message(1, 9, "hi").unwrap_err(), ChatError::MemberNotFound(9));
}

#[test]
fn only_the_author_edits_a_live_message() {
    let repo = MockMeetingRepository::with(Some(meeting("")));
    let chat = MockChat {
        message: Some(MessageResponse { message: message(2, 0), created_by: Some(user(2)), meeting: Some(meeting("").meeting) }),
        ..Default::default()
    };
    let mut service = ChatServiceImpl::new(chat, repo, MockUsers { known: vec![] });
    let edited = service.update_message(1, 2, "edited").unwrap();
    assert_eq!(edited.data, "edited");
    assert_eq!(
        service.update_message(1, 1, "edited").unwrap_err(),
        ChatError::Forbidden("You not allowed modify message of other users".to_string())
    );
    let deleted = service.delete_message_by_id(1, 2).unwrap();
    assert_eq!(deleted.status, 1);
}

#[test]
fn clearing_a_conversation_hides_it() {
    let repo = MockMeetingRepository::with(Some(meeting("")));
    let mut service = ChatServiceImpl::new(MockChat::default(), repo.clone(), MockUsers { known: vec![] });
    assert!(service.delete_conversation(1, 2).is_ok());
    let written = repo.updated_members.lock().unwrap();
    assert_eq!(written[0].status, MembersStatusEnum::Invisible.to_i32());
    assert!(written[0].soft_deleted_at.is_some());
    drop(written);
    assert_eq!(service.delete_conversation(1, 9).unwrap_err(), ChatError::ConversationNotFound(9));
}

struct MockCcus;

impl CcuRepository for MockCcus {
    fn create_ccu(&self, ccu: NewCcu) -> Result<Ccu, CcuError> {
        Ok(Ccu { id: 5, socket_id: ccu.socket_id, pod_name: ccu.pod_name, created_at: ccu.created_at, user_id: ccu.user_id })
    }

    fn get_ccu_by_id(&self, _ccu_id: i32) -> Result<Ccu, CcuError> {
        Err(CcuError::NotFoundCcu)
    }

    fn get_ccu_by_socket_id(&self, socket_id: &str) -> Result<Ccu, CcuError> {
        if socket_id == "s1" {
            Ok(Ccu { id: 5, socket_id: "s1".to_string(), pod_name: "pod_name_1".to_string(), created_at: 0, user_id: Some(2) })
        } else {
            Err(CcuError::NotFoundCcu)
        }
    }

    fn delete_ccu_by_socket_id(&self, _socket_id: &str) -> Result<(), CcuError> {
        Ok(())
    }
}

#[test]
fn a_socket_session_records_its_pod_and_user() {
    let mut service = SfuServiceImpl::new(MockCcus, MockMeetingRepository::with(None));
    let ccu = service.create_ccu("s1", 2).unwrap();
    assert_eq!(ccu.pod_name, "pod_name_1");
    assert_eq!(ccu.user_id, Some(2));
    assert_eq!(ccu.socket_id, "s1");
}

#[test]
fn publishing_attaches_the_participant_to_the_socket_session() {
    let mut service = SfuServiceImpl::new(MockCcus, MockMeetingRepository::with(None));
    let p = service.update_participant(2, "s1").unwrap();
    assert_eq!(p.participant.ccu_id, Some(5));
    assert_eq!(service.update_participant(2, "s2").unwrap_err(), MeetingError::UnexpectedError("CCU not found".to_string()));
}

#[test]
fn inviting_then_removing_gives_back_the_members() {
    let m = meeting("");
    let before = m.members.clone();
    let invited = member(9, 9, MembersRoleEnum::Attendee, MembersStatusEnum::Inviting);
    let after = without_member(with_member(m, invited), 9);
    assert_eq!(after.members, before);
}
