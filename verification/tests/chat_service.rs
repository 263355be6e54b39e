use waterbus_rs::chat_service::{messages_cutoff, ChatServiceImpl};
use waterbus_rs::entities::{
    Member, Message, MessagesStatusEnum, MessagesTypeEnum, NewMember, NewMessage, NewParticipant, NewRoom,
    Participant, Room, RoomStatusEnum, User,
};
use waterbus_rs::errors::{ChatError, RoomError, UserError};
use waterbus_rs::repositories::{ChatRepository, RoomRepository, UserRepository};
use waterbus_rs::responses::{MemberResponse, MessageResponse, ParticipantResponse, RoomResponse};

fn sample_user() -> User {
    User {
        id: 1,
        full_name: Some("Test User".to_string()),
        user_name: "testuser".to_string(),
        bio: Some("bio".to_string()),
        external_id: "extid".to_string(),
        avatar: Some("avatar.png".to_string()),
        created_at: 0,
        updated_at: 0,
        deleted_at: None,
        last_seen_at: None,
    }
}

fn sample_room() -> Room {
    Room {
        id: 1,
        title: "Test Room".to_string(),
        password: None,
        avatar: None,
        status: 0,
        latest_message_created_at: Some(0),
        code: "roomcode".to_string(),
        created_at: 0,
        updated_at: 0,
        deleted_at: None,
        latest_message_id: None,
        type_: 0,
        capacity: None,
        streaming_protocol: None,
    }
}

fn sample_member(user_id: i32, room_id: i32) -> Member {
    Member { id: 1, role: 0, created_at: 0, deleted_at: None, soft_deleted_at: None, user_id, room_id }
}

fn sample_message(user_id: i32, room_id: i32) -> Message {
    Message {
        id: 1,
        data: "Hello".to_string(),
        created_at: 0,
        updated_at: 0,
        deleted_at: None,
        created_by_id: user_id,
        room_id,
        type_: MessagesTypeEnum::Default.to_i16(),
        status: MessagesStatusEnum::Active.to_i16(),
    }
}

fn sample_message_response(user_id: i32, room_id: i32) -> MessageResponse {
    MessageResponse { message: sample_message(user_id, room_id), created_by: Some(sample_user()), room: Some(sample_room()) }
}

fn sample_room_response(user_id: i32, room_id: i32) -> RoomResponse {
    RoomResponse {
        room: sample_room(),
        members: vec![MemberResponse { member: sample_member(user_id, room_id), user: Some(sample_user()) }],
        participants: vec![],
        latest_message: None,
        is_protected: None,
    }
}

#[derive(Clone, Default)]
struct MockChatRepository {
    messages: Option<Vec<MessageResponse>>,
    message: Option<MessageResponse>,
    new_message: Option<Message>,
    updated_message: Option<Message>,
    delete_message: Option<Message>,
}

impl ChatRepository for MockChatRepository {
    fn get_messages_by_room(&self, _room_id: i32, _deleted_at: i64, _skip: i64, _limit: i64) -> Result<Vec<MessageResponse>, ChatError> {
        Ok(self.messages.clone().unwrap_or_default())
    }

    fn get_message_by_id(&self, message_id: i32) -> Result<MessageResponse, ChatError> {
        self.message.clone().ok_or(ChatError::MessageNotFound(message_id))
    }

    fn create_message(&self, _message: NewMessage) -> Result<Message, ChatError> {
        self.new_message.clone().ok_or(ChatError::UnexpectedError("fail create".to_string()))
    }

    fn update_message(&self, _message: Message) -> Result<Message, ChatError> {
        self.updated_message.clone().ok_or(ChatError::UnexpectedError("fail update".to_string()))
    }

    fn delete_message_by_id(&self, _message_id: i32) -> Result<Message, ChatError> {
        self.delete_message.clone().ok_or(ChatError::UnexpectedError("fail delete".to_string()))
    }
}

#[derive(Clone, Default)]
struct MockRoomRepository {
    room: Option<RoomResponse>,
    updated_member: Option<MemberResponse>,
    updated_room: Option<RoomResponse>,
}

impl RoomRepository for MockRoomRepository {
    fn find_all(&self, _user_id: i32, _room_status: RoomStatusEnum, _skip: i64, _limit: i64) -> Result<Vec<RoomResponse>, RoomError> {
        panic!("not used")
    }

    fn exists_code(&self, _room_code: &str) -> Result<bool, RoomError> {
        panic!("not used")
    }

    fn get_room_by_id(&self, room_id: i32) -> Result<RoomResponse, RoomError> {
        self.room.clone().ok_or(RoomError::RoomNotFound(room_id))
    }

    fn get_room_by_code(&self, _room_code: &str) -> Result<RoomResponse, RoomError> {
        panic!("not used")
    }

    fn create_room(&self, _room: NewRoom) -> Result<RoomResponse, RoomError> {
        panic!("not used")
    }

    fn create_room_with_member(&self, _room: NewRoom, _user: User, _created_at: i64) -> Result<RoomResponse, RoomError> {
        panic!("not used")
    }

    fn update_room(&self, _room: Room) -> Result<RoomResponse, RoomError> {
        self.updated_room.clone().ok_or(RoomError::UnexpectedError("fail update room".to_string()))
    }

    fn get_member_by_id(&self, _member_id: i32) -> Result<MemberResponse, RoomError> {
        panic!("not used")
    }

    fn create_member(&self, _member: NewMember) -> Result<MemberResponse, RoomError> {
        panic!("not used")
    }

    fn update_member(&self, _member: Member) -> Result<MemberResponse, RoomError> {
        self.updated_member.clone().ok_or(RoomError::UnexpectedError("fail update member".to_string()))
    }

    fn delete_member_by_id(&self, _member_id: i32) -> Result<(), RoomError> {
        panic!("not used")
    }

    fn get_participant_by_id(&self, _participant_id: i32) -> Result<ParticipantResponse, RoomError> {
        panic!("not used")
    }

    fn create_participant(&self, _participant: NewParticipant) -> Result<ParticipantResponse, RoomError> {
        panic!("not used")
    }

    fn update_participant(&self, _participant: Participant) -> Result<ParticipantResponse, RoomError> {
        panic!("not used")
    }

    fn delete_participant_by_id(&self, _participant_id: i32) -> Result<(), RoomError> {
        panic!("not used")
    }

    fn delete_participants_by_node(&self, _node_id: &str) -> Result<(), RoomError> {
        panic!("not used")
    }
}

#[derive(Clone, Default)]
struct MockUserRepository {
    user: Option<User>,
}

impl UserRepository for MockUserRepository {
    fn get_user_by_id(&self, user_id: i32) -> Result<User, UserError> {
        self.user.clone().ok_or(UserError::UserNotFound(user_id))
    }

    fn update_user(&self, _user: User) -> Result<User, UserError> {
        panic!("not used")
    }

    fn get_username(&self, _username: &str) -> Result<String, UserError> {
        panic!("not used")
    }

    fn update_username(&self, _user_id: i32, _username: &str) -> Result<User, UserError> {
        panic!("not used")
    }
}

#[test]
fn test_get_messages_by_room_success() {
    let chat_repo = MockChatRepository { messages: Some(vec![sample_message_response(1, 1)]), ..Default::default() };
    let room_repo = MockRoomRepository { room: Some(sample_room_response(1, 1)), ..Default::default() };
    let user_repo = MockUserRepository { user: Some(sample_user()) };
    let mut service = ChatServiceImpl::new(chat_repo, room_repo, user_repo);
    let result = service.get_messages_by_room(1, 1, 0, 10);
    assert!(result.is_ok());
    let messages = result.unwrap();
    assert_eq!(messages.len(), 1);
    assert_eq!(messages[0].message.data, "Hello");
}

#[test]
fn test_get_messages_by_room_conversation_not_found() {
    let chat_repo = MockChatRepository::default();
    let room_repo = MockRoomRepository::default();
    let user_repo = MockUserRepository { user: Some(sample_user()) };
    let mut service = ChatServiceImpl::new(chat_repo, room_repo, user_repo);
    let result = service.get_messages_by_room(1, 1, 0, 10);
    assert!(matches!(result, Err(ChatError::ConversationNotFound(1))));
}

#[test]
fn test_create_message_success() {
    let chat_repo = MockChatRepository { new_message: Some(sample_message(1, 1)), ..Default::default() };
    let room_repo = MockRoomRepository { room: Some(sample_room_response(1, 1)), ..Default::default() };
    let user_repo = MockUserRepository { user: Some(sample_user()) };
    let mut service = ChatServiceImpl::new(chat_repo, room_repo, user_repo);
    let result = service.create_message(1, 1, "Hello");
    assert!(result.is_ok());
    let msg = result.unwrap();
    assert_eq!(msg.message.data, "Hello");
}

#[test]
fn test_create_message_user_not_found() {
    let chat_repo = MockChatRepository::default();
    let room_repo = MockRoomRepository { room: Some(sample_room_response(1, 1)), ..Default::default() };
    let user_repo = MockUserRepository { user: None };
    let mut service = ChatServiceImpl::new(chat_repo, room_repo, user_repo);
    let result = service.create_message(1, 1, "Hello");
    assert!(matches!(result, Err(ChatError::MemberNotFound(1))));
}

#[test]
fn test_update_message_success() {
    let chat_repo = MockChatRepository {
        message: Some(sample_message_response(1, 1)),
        updated_message: Some(sample_message(1, 1)),
        ..Default::default()
    };
    let room_repo = MockRoomRepository { room: Some(sample_room_response(1, 1)), ..Default::default() };
    let user_repo = MockUserRepository { user: Some(sample_user()) };
    let mut service = ChatServiceImpl::new(chat_repo, room_repo, user_repo);
    let result = service.update_message(1, 1, "Updated");
    assert!(result.is_ok());
    let msg = result.unwrap();
    assert_eq!(msg.message.data, "Hello");
}

#[test]
fn test_update_message_forbidden() {
    let mut msg = sample_message_response(2, 1);
    msg.message.created_by_id = 2;
    let chat_repo = MockChatRepository {
        message: Some(msg),
        updated_message: Some(sample_message(2, 1)),
        ..Default::default()
    };
    let room_repo = MockRoomRepository { room: Some(sample_room_response(1, 1)), ..Default::default() };
    let user_repo = MockUserRepository { user: Some(sample_user()) };
    let mut service = ChatServiceImpl::new(chat_repo, room_repo, user_repo);
    let result = service.update_message(1, 1, "Updated");
    assert!(matches!(result, Err(ChatError::Forbidden(_))));
}

#[test]
fn test_delete_message_by_id_success() {
    let chat_repo = MockChatRepository {
        message: Some(sample_message_response(1, 1)),
        updated_message: Some(sample_message(1, 1)),
        delete_message: Some(sample_message(1, 1)),
        ..Default::default()
    };
    let room_repo = MockRoomRepository { room: Some(sample_room_response(1, 1)), ..Default::default() };
    let user_repo = MockUserRepository { user: Some(sample_user()) };
    let mut service = ChatServiceImpl::new(chat_repo, room_repo, user_repo);
    let result = service.delete_message_by_id(1, 1);
    assert!(result.is_ok());
}

#[test]
fn test_delete_message_by_id_forbidden() {
    let mut msg = sample_message_response(2, 1);
    msg.message.created_by_id = 2;
    let chat_repo = MockChatRepository {
        message: Some(msg),
        updated_message: Some(sample_message(2, 1)),
        delete_message: Some(sample_message(2, 1)),
        ..Default::default()
    };
    let room_repo = MockRoomRepository { room: Some(sample_room_response(1, 1)), ..Default::default() };
    let user_repo = MockUserRepository { user: Some(sample_user()) };
    let mut service = ChatServiceImpl::new(chat_repo, room_repo, user_repo);
    let result = service.delete_message_by_id(1, 1);
    assert!(matches!(result, Err(ChatError::Forbidden(_))));
}

#[test]
fn test_delete_conversation_success() {
    let chat_repo = MockChatRepository::default();
    let mut room_resp = sample_room_response(1, 1);
    room_resp.members[0].member.user_id = 1;
    let room_repo = MockRoomRepository {
        room: Some(room_resp),
        updated_member: Some(MemberResponse { member: sample_member(1, 1), user: Some(sample_user()) }),
        updated_room: None,
    };
    let user_repo = MockUserRepository { user: Some(sample_user()) };
    let mut service = ChatServiceImpl::new(chat_repo, room_repo, user_repo);
    let result = service.delete_conversation(1, 1);
    assert!(result.is_ok());
}

#[test]
fn test_delete_conversation_not_found() {
    let chat_repo = MockChatRepository::default();
    let room_repo = MockRoomRepository::default();
    let user_repo = MockUserRepository { user: Some(sample_user()) };
    let mut service = ChatServiceImpl::new(chat_repo, room_repo, user_repo);
    let result = service.delete_conversation(1, 1);
    assert!(matches!(result, Err(ChatError::ConversationNotFound(1))));
}

#[test]
fn deleted_message_cannot_be_edited_again() {
    let mut msg = sample_message_response(1, 1);
    msg.message.status = MessagesStatusEnum::Inactive.to_i16();
    let chat_repo = MockChatRepository { message: Some(msg), ..Default::default() };
    let mut service = ChatServiceImpl::new(chat_repo, MockRoomRepository::default(), MockUserRepository::default());
    assert_eq!(
        service.delete_message_by_id(1, 1).unwrap_err(),
        ChatError::UnexpectedError("Message has been deleted".to_string())
    );
}

#[test]
fn clearing_a_conversation_by_a_non_member_names_the_user() {
    let room_repo = MockRoomRepository { room: Some(sample_room_response(1, 1)), ..Default::default() };
    let mut service = ChatServiceImpl::new(MockChatRepository::default(), room_repo, MockUserRepository::default());
    assert_eq!(service.delete_conversation(1, 9).unwrap_err(), ChatError::ConversationNotFound(9));
}

#[test]
fn cutoff_is_when_the_member_cleared_the_conversation() {
    let mut room = sample_room_response(1, 1);
    room.room.created_at = 5;
    assert_eq!(messages_cutoff(&room, 1), 5);
    room.members[0].member.soft_deleted_at = Some(42);
    assert_eq!(messages_cutoff(&room, 1), 42);
    assert_eq!(messages_cutoff(&room, 3), 5);
}
