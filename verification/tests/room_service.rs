use std::sync::{Arc, Mutex};

use waterbus_rs::dtos::PaginationDto;
use waterbus_rs::entities::{
    Member, MembersRoleEnum, Message, NewMember, NewParticipant, NewRoom, Participant,
    ParticipantsStatusEnum, Room, RoomStatusEnum, RoomType, StreamingProtocol, User,
};
use waterbus_rs::errors::{RoomError, UserError};
use waterbus_rs::repositories::{RoomRepository, UserRepository};
use waterbus_rs::responses::{MemberResponse, MessageResponse, ParticipantResponse, RoomResponse};
use waterbus_rs::room_service::{room_status_or_active, with_member, without_member, CreateRoomDto, RoomServiceImpl, UpdateRoomDto};

fn sample_user(id: i32) -> User {
    User {
        id,
        full_name: Some(format!("User{id}")),
        user_name: format!("user{id}"),
        bio: Some("bio".to_string()),
        external_id: format!("ext{id}"),
        avatar: Some("avatar.png".to_string()),
        created_at: 0,
        updated_at: 0,
        deleted_at: None,
        last_seen_at: None,
    }
}

fn sample_member(id: i32, user_id: i32, room_id: i32, role: i16) -> Member {
    Member { id, role, created_at: 0, deleted_at: None, soft_deleted_at: None, user_id, room_id }
}

fn sample_participant(id: i32, user_id: i32, room_id: i32, node_id: Option<String>) -> Participant {
    Participant {
        id,
        created_at: 0,
        deleted_at: None,
        user_id,
        room_id,
        status: ParticipantsStatusEnum::Active.to_i16(),
        node_id,
    }
}

fn sample_message(id: i32, user_id: i32, room_id: i32) -> Message {
    Message {
        id,
        data: "Hello".to_string(),
        created_at: 0,
        updated_at: 0,
        deleted_at: None,
        created_by_id: user_id,
        room_id,
        type_: 0,
        status: 0,
    }
}

fn sample_room(id: i32, owner_id: i32) -> RoomResponse {
    RoomResponse {
        room: Room {
            id,
            title: format!("Room{id}"),
            password: None,
            avatar: None,
            status: RoomStatusEnum::Active.to_i16(),
            latest_message_created_at: Some(0),
            code: format!("CODE{id}"),
            created_at: 0,
            updated_at: 0,
            deleted_at: None,
            latest_message_id: Some(1),
            type_: RoomType::Conferencing.to_i16(),
            capacity: Some(10),
            streaming_protocol: Some(StreamingProtocol::SFU.to_i16()),
        },
        members: vec![MemberResponse {
            member: sample_member(1, owner_id, id, MembersRoleEnum::Owner.to_i16()),
            user: Some(sample_user(owner_id)),
        }],
        participants: vec![ParticipantResponse {
            participant: sample_participant(1, owner_id, id, Some("node1".to_string())),
            user: Some(sample_user(owner_id)),
        }],
        latest_message: Some(MessageResponse {
            message: sample_message(1, owner_id, id),
            created_by: Some(sample_user(owner_id)),
            room: None,
        }),
        is_protected: None,
    }
}

fn sample_create_room_dto() -> CreateRoomDto {
    CreateRoomDto {
        title: "Test Room".to_string(),
        password: None,
        room_type: RoomType::Conferencing,
        streaming_protocol: StreamingProtocol::SFU,
        capacity: Some(10),
    }
}

fn sample_update_room_dto() -> UpdateRoomDto {
    UpdateRoomDto {
        title: Some("Updated Room".to_string()),
        password: Some("newpass".to_string()),
        avatar: Some("avatar.png".to_string()),
        room_type: Some(RoomType::Conferencing),
        streaming_protocol: Some(StreamingProtocol::SFU),
        capacity: Some(10),
    }
}

#[derive(Clone)]
struct MockRoomRepository {
    rooms: Arc<Mutex<Vec<RoomResponse>>>,
    fail: bool,
    checked_codes: Arc<Mutex<Vec<String>>>,
    every_code_taken: bool,
    updates: Arc<Mutex<usize>>,
}

impl RoomRepository for MockRoomRepository {
    fn find_all(&self, _user_id: i32, _status: RoomStatusEnum, _skip: i64, _limit: i64) -> Result<Vec<RoomResponse>, RoomError> {
        Ok(self.rooms.lock().unwrap().clone())
    }

    fn exists_code(&self, code: &str) -> Result<bool, RoomError> {
        self.checked_codes.lock().unwrap().push(code.to_string());
        if self.every_code_taken {
            return Ok(true);
        }
        let rooms = self.rooms.lock().unwrap();
        Ok(rooms.iter().any(|r| r.room.code == code))
    }

    fn get_room_by_id(&self, room_id: i32) -> Result<RoomResponse, RoomError> {
        let rooms = self.rooms.lock().unwrap();
        rooms.iter().find(|r| r.room.id == room_id).cloned().ok_or(RoomError::UnexpectedError("not found".into()))
    }

    fn get_room_by_code(&self, code: &str) -> Result<RoomResponse, RoomError> {
        let rooms = self.rooms.lock().unwrap();
        rooms.iter().find(|r| r.room.code == code).cloned().ok_or(RoomError::UnexpectedError("not found".into()))
    }

    fn create_room(&self, room: NewRoom) -> Result<RoomResponse, RoomError> {
        let mut response = sample_room(1, 1);
        response.room.title = room.title;
        Ok(response)
    }

    fn create_room_with_member(&self, room: NewRoom, _user: User, _created_at: i64) -> Result<RoomResponse, RoomError> {
        if self.fail {
            Err(RoomError::UnexpectedError("fail".into()))
        } else {
            let mut response = sample_room(1, 1);
            response.room.title = room.title;
            Ok(response)
        }
    }

    fn update_room(&self, room: Room) -> Result<RoomResponse, RoomError> {
        *self.updates.lock().unwrap() += 1;
        let mut rooms = self.rooms.lock().unwrap();
        if let Some(r) = rooms.iter_mut().find(|r| r.room.id == room.id) {
            r.room = room;
            Ok(r.clone())
        } else {
            Err(RoomError::UnexpectedError("not found".into()))
        }
    }

    fn get_member_by_id(&self, member_id: i32) -> Result<MemberResponse, RoomError> {
        let rooms = self.rooms.lock().unwrap();
        for r in rooms.iter() {
            for m in &r.members {
                if m.member.id == member_id {
                    return Ok(MemberResponse { member: m.member.clone(), user: Some(sample_user(m.member.user_id)) });
                }
            }
        }
        Err(RoomError::UnexpectedError("not found".into()))
    }

    fn create_member(&self, _member: NewMember) -> Result<MemberResponse, RoomError> {
        Ok(MemberResponse {
            member: sample_member(2, 2, 1, MembersRoleEnum::Attendee.to_i16()),
            user: Some(sample_user(2)),
        })
    }

    fn update_member(&self, member: Member) -> Result<MemberResponse, RoomError> {
        let user_id = member.user_id;
        Ok(MemberResponse { member, user: Some(sample_user(user_id)) })
    }

    fn delete_member_by_id(&self, _member_id: i32) -> Result<(), RoomError> {
        Ok(())
    }

    fn get_participant_by_id(&self, _id: i32) -> Result<ParticipantResponse, RoomError> {
        let participant = sample_participant(1, 1, 1, Some("node1".to_string()));
        let user_id = participant.user_id;
        Ok(ParticipantResponse { participant, user: Some(sample_user(user_id)) })
    }

    fn create_participant(&self, _participant: NewParticipant) -> Result<ParticipantResponse, RoomError> {
        Ok(ParticipantResponse {
            participant: sample_participant(1, 1, 1, Some("node1".to_string())),
            user: Some(sample_user(1)),
        })
    }

    fn update_participant(&self, participant: Participant) -> Result<ParticipantResponse, RoomError> {
        let user_id = participant.user_id;
        Ok(ParticipantResponse { participant, user: Some(sample_user(user_id)) })
    }

    fn delete_participant_by_id(&self, _id: i32) -> Result<(), RoomError> {
        Ok(())
    }

    fn delete_participants_by_node(&self, _node_id: &str) -> Result<(), RoomError> {
        Ok(())
    }
}

#[derive(Clone)]
struct MockUserRepository {
    users: Arc<Mutex<Vec<User>>>,
    fail: bool,
}

impl UserRepository for MockUserRepository {
    fn get_user_by_id(&self, id: i32) -> Result<User, UserError> {
        if self.fail {
            Err(UserError::UserNotFound(id))
        } else {
            let users = self.users.lock().unwrap();
            users.iter().find(|u| u.id == id).cloned().ok_or(UserError::UserNotFound(id))
        }
    }

    fn update_user(&self, user: User) -> Result<User, UserError> {
        Ok(user)
    }

    fn get_username(&self, username: &str) -> Result<String, UserError> {
        Ok(username.to_string())
    }

    fn update_username(&self, user_id: i32, username: &str) -> Result<User, UserError> {
        let mut users = self.users.lock().unwrap();
        if let Some(user) = users.iter_mut().find(|u| u.id == user_id) {
            user.user_name = username.to_string();
            Ok(user.clone())
        } else {
            Err(UserError::UserNotFound(user_id))
        }
    }
}

fn service(rooms: Vec<RoomResponse>, users: Vec<User>) -> RoomServiceImpl<MockRoomRepository, MockUserRepository> {
    let (service, _) = service_with_store(rooms, users, false);
    service
}

fn service_with_store(rooms: Vec<RoomResponse>, users: Vec<User>, every_code_taken: bool) -> (RoomServiceImpl<MockRoomRepository, MockUserRepository>, MockRoomRepository) {
    let room_repo = MockRoomRepository {
        rooms: Arc::new(Mutex::new(rooms)),
        fail: false,
        checked_codes: Arc::new(Mutex::new(vec![])),
        every_code_taken,
        updates: Arc::new(Mutex::new(0)),
    };
    let user_repo = MockUserRepository { users: Arc::new(Mutex::new(users)), fail: false };
    (RoomServiceImpl::new(room_repo.clone(), user_repo), room_repo)
}

#[test]
fn test_create_room_success() {
    let mut service = service(vec![], vec![sample_user(1)]);
    let result = service.create_room(sample_create_room_dto(), 1);
    assert!(result.is_ok());
    let room = result.unwrap();
    assert_eq!(room.room.title, "Test Room");
    assert_eq!(room.room.type_, RoomType::Conferencing.to_i16());
    assert_eq!(room.room.streaming_protocol, Some(StreamingProtocol::SFU.to_i16()));
    assert_eq!(room.room.capacity, Some(10));
}

#[test]
fn test_create_room_user_not_found() {
    let mut service = service(vec![], vec![]);
    let result = service.create_room(sample_create_room_dto(), 99);
    assert!(result.is_err());
}

#[test]
fn test_update_room_success() {
    let mut service = service(vec![sample_room(1, 1)], vec![sample_user(1)]);
    let result = service.update_room(sample_update_room_dto(), 1, 1);
    assert!(result.is_ok());
    let updated = result.unwrap();
    assert_eq!(updated.room.title, "Updated Room");
    assert_eq!(updated.room.type_, RoomType::Conferencing.to_i16());
    assert_eq!(updated.room.streaming_protocol, Some(StreamingProtocol::SFU.to_i16()));
    assert_eq!(updated.room.capacity, Some(10));
}

#[test]
fn test_update_room_not_host() {
    let mut service = service(vec![sample_room(1, 1)], vec![sample_user(2)]);
    let result = service.update_room(sample_update_room_dto(), 1, 2);
    assert!(matches!(result, Err(RoomError::YouDontHavePermissions)));
}

#[test]
fn test_get_rooms_by_status() {
    let mut service = service(vec![sample_room(1, 1)], vec![sample_user(1)]);
    let pagination = PaginationDto { skip: 0, limit: 10 };
    let result = service.get_rooms_by_status(0, 1, pagination);
    assert!(result.is_ok());
    assert_eq!(result.unwrap().len(), 1);
}

#[test]
fn test_get_room_by_id_success() {
    let mut service = service(vec![sample_room(1, 1)], vec![sample_user(1)]);
    let result = service.get_room_by_id(1);
    assert!(result.is_ok());
    assert_eq!(result.unwrap().room.id, 1);
}

#[test]
fn test_get_room_by_id_not_found() {
    let mut service = service(vec![], vec![sample_user(1)]);
    let result = service.get_room_by_id(99);
    assert!(result.is_err());
}

#[test]
fn test_leave_room_success() {
    let mut room = sample_room(1, 1);
    room.members.push(MemberResponse {
        member: sample_member(2, 2, 1, MembersRoleEnum::Attendee.to_i16()),
        user: Some(sample_user(2)),
    });
    let mut service = service(vec![room], vec![sample_user(2)]);
    let result = service.leave_room(1, 2);
    assert!(result.is_ok());
}

#[test]
fn test_leave_room_owner_error() {
    let mut service = service(vec![sample_room(1, 1)], vec![sample_user(1)]);
    let result = service.leave_room(1, 1);
    assert!(result.is_err());
}

#[test]
fn test_join_room_success() {
    let mut room = sample_room(1, 1);
    room.members.retain(|m| m.member.user_id != 2);
    let mut service = service(vec![room], vec![sample_user(2)]);
    let result = service.join_room(2, 1, None);
    assert!(result.is_ok());
}

#[test]
fn test_join_room_full() {
    let mut room = sample_room(1, 1);
    room.room.capacity = Some(3);
    room.members.push(MemberResponse {
        member: sample_member(2, 2, 1, MembersRoleEnum::Attendee.to_i16()),
        user: Some(sample_user(2)),
    });
    room.members.push(MemberResponse {
        member: sample_member(3, 3, 1, MembersRoleEnum::Attendee.to_i16()),
        user: Some(sample_user(3)),
    });
    let mut service = service(vec![room], vec![sample_user(4)]);
    let result = service.join_room(4, 1, None);
    assert!(result.is_err());
    assert_eq!(result.unwrap_err(), RoomError::RoomIsFull);
}

#[test]
fn test_add_member_success() {
    let mut service = service(vec![sample_room(1, 1)], vec![sample_user(2)]);
    let result = service.add_member(1, 1, 2);
    assert!(result.is_ok());
}

#[test]
fn test_add_member_already_in_room() {
    let mut service = service(vec![sample_room(1, 1)], vec![sample_user(1)]);
    let result = service.add_member(1, 1, 1);
    assert!(result.is_err());
}

#[test]
fn test_remove_member_success() {
    let mut room = sample_room(1, 1);
    room.members.push(MemberResponse {
        member: sample_member(2, 2, 1, MembersRoleEnum::Attendee.to_i16()),
        user: Some(sample_user(2)),
    });
    let mut service = service(vec![room], vec![sample_user(1)]);
    let result = service.remove_member(1, 1, 2);
    assert!(result.is_ok());
}

#[test]
fn test_remove_member_not_host() {
    let mut room = sample_room(1, 1);
    room.members.push(MemberResponse {
        member: sample_member(2, 2, 1, MembersRoleEnum::Attendee.to_i16()),
        user: Some(sample_user(2)),
    });
    let mut service = service(vec![room], vec![sample_user(2)]);
    let result = service.remove_member(1, 2, 1);
    assert!(matches!(result, Err(RoomError::YouDontHavePermissions)));
}

#[test]
fn test_deactivate_room_success() {
    let mut service = service(vec![sample_room(1, 1)], vec![sample_user(1)]);
    let result = service.deactivate_room(1, 1);
    assert!(result.is_ok());
    assert_eq!(result.unwrap().room.status, RoomStatusEnum::Inactive.to_i16());
}

#[test]
fn test_deactivate_room_not_owner() {
    let mut room = sample_room(1, 1);
    room.members.push(MemberResponse {
        member: sample_member(2, 2, 1, MembersRoleEnum::Attendee.to_i16()),
        user: Some(sample_user(2)),
    });
    let mut service = service(vec![room], vec![sample_user(2)]);
    let result = service.deactivate_room(1, 2);
    assert!(matches!(result, Err(RoomError::YouDontHavePermissions)));
}

#[test]
fn test_update_participant_success() {
    let mut service = service(vec![sample_room(1, 1)], vec![sample_user(1)]);
    let result = service.update_participant(1, "node1");
    assert!(result.is_ok());
    assert_eq!(result.unwrap().participant.node_id, Some("node1".to_string()));
}

#[test]
fn test_delete_participant_success() {
    let mut service = service(vec![sample_room(1, 1)], vec![sample_user(1)]);
    let result = service.delete_participant(1);
    assert!(result.is_ok());
}

#[test]
fn test_delete_participants_by_node_success() {
    let mut service = service(vec![sample_room(1, 1)], vec![sample_user(1)]);
    let result = service.delete_participants_by_node("node1");
    assert!(result.is_ok());
}

#[test]
fn test_generate_unique_room_code_success() {
    let mut service = service(vec![], vec![sample_user(1)]);
    let result = service.generate_unique_room_code(5);
    assert!(result.is_ok());
    assert!(!result.unwrap().is_empty());
}

#[test]
fn test_generate_unique_room_code_fail() {
    let mut room = sample_room(1, 1);
    room.room.code = "DUPLICATE".to_string();
    let mut service = service(vec![room], vec![sample_user(1)]);
    let result = service.generate_unique_room_code(0);
    assert!(result.is_err());
}

#[test]
fn joining_drops_participants_without_node_and_lists_the_new_one_last() {
    let mut room = sample_room(1, 1);
    room.participants.push(ParticipantResponse {
        participant: sample_participant(7, 3, 1, None),
        user: Some(sample_user(3)),
    });
    let mut service = service(vec![room], vec![sample_user(1)]);
    let joined = service.join_room(1, 1, None).unwrap();
    assert_eq!(joined.participants.len(), 2);
    assert!(joined.participants.iter().all(|p| p.participant.node_id.is_some()));
}

#[test]
fn leaving_member_is_no_longer_listed() {
    let mut room = sample_room(1, 1);
    room.members.push(MemberResponse {
        member: sample_member(2, 2, 1, MembersRoleEnum::Attendee.to_i16()),
        user: Some(sample_user(2)),
    });
    let mut service = service(vec![room], vec![sample_user(2)]);
    let left = service.leave_room(1, 2).unwrap();
    assert!(left.members.iter().all(|m| m.member.user_id != 2));
    assert_eq!(left.members.len(), 1);
}

#[test]
fn leaving_without_membership_is_member_not_found() {
    let mut service = service(vec![sample_room(1, 1)], vec![sample_user(5)]);
    let result = service.leave_room(1, 5);
    assert_eq!(result.unwrap_err(), RoomError::UnexpectedError("Member not found".to_string()));
}

#[test]
fn protected_room_refuses_a_wrong_password() {
    let mut room = sample_room(1, 1);
    room.room.password = Some(bcrypt::hash("secret", 4).unwrap());
    let mut service = service(vec![room], vec![sample_user(2)]);
    assert_eq!(service.join_room(2, 1, Some("wrong")).unwrap_err(), RoomError::PasswordIncorrect);
    assert!(service.join_room(2, 1, Some("secret")).is_ok());
}

#[test]
fn updated_password_is_stored_hashed() {
    let mut service = service(vec![sample_room(1, 1)], vec![sample_user(1)]);
    let updated = service.update_room(sample_update_room_dto(), 1, 1).unwrap();
    let stored = updated.room.password.unwrap();
    assert_ne!(stored, "newpass");
    assert!(bcrypt::verify("newpass", &stored).unwrap());
}

#[test]
fn unknown_status_lists_active_rooms() {
    assert_eq!(room_status_or_active(1), RoomStatusEnum::Inactive);
    assert_eq!(room_status_or_active(0), RoomStatusEnum::Active);
    assert_eq!(room_status_or_active(7), RoomStatusEnum::Active);
}

#[test]
fn adding_then_removing_a_member_gives_back_the_members() {
    let room = sample_room(1, 1);
    let before = room.members.clone();
    let added = MemberResponse { member: sample_member(5, 9, 1, MembersRoleEnum::Attendee.to_i16()), user: None };
    let after = without_member(with_member(room, added), 9);
    assert_eq!(after.members, before);
}

#[test]
fn a_member_joins_a_full_protected_room_without_password() {
    let mut room = sample_room(1, 1);
    room.room.capacity = Some(1);
    room.room.password = Some(bcrypt::hash("secret", 4).unwrap());
    let mut service = service(vec![room], vec![sample_user(1)]);
    assert!(service.join_room(1, 1, Some("wrong")).is_ok());
    assert!(service.join_room(1, 1, None).is_ok());
}

#[test]
fn a_refused_update_or_deactivation_writes_nothing() {
    let mut room = sample_room(1, 1);
    room.members.push(MemberResponse {
        member: sample_member(2, 2, 1, MembersRoleEnum::Attendee.to_i16()),
        user: Some(sample_user(2)),
    });
    let (mut service, store) = service_with_store(vec![room.clone()], vec![sample_user(2)], false);
    assert!(matches!(service.update_room(sample_update_room_dto(), 1, 2), Err(RoomError::YouDontHavePermissions)));
    assert!(matches!(service.deactivate_room(1, 2), Err(RoomError::YouDontHavePermissions)));
    assert_eq!(*store.updates.lock().unwrap(), 0);
    let stored = store.rooms.lock().unwrap()[0].clone();
    assert_eq!(stored.room.title, room.room.title);
    assert_eq!(stored.room.status, RoomStatusEnum::Active.to_i16());
}

#[test]
fn the_code_search_checks_each_attempt_and_stops_at_a_free_code() {
    let (mut service, store) = service_with_store(vec![], vec![sample_user(1)], true);
    let result = service.generate_unique_room_code(4);
    assert_eq!(result.unwrap_err(), RoomError::UnexpectedError("Failed to generate unique room code".to_string()));
    assert_eq!(store.checked_codes.lock().unwrap().len(), 4);
    let (mut service, store) = service_with_store(vec![], vec![sample_user(1)], false);
    let code = service.generate_unique_room_code(4).unwrap();
    assert_eq!(*store.checked_codes.lock().unwrap(), vec![code]);
    let (mut service, store) = service_with_store(vec![], vec![sample_user(1)], true);
    assert!(service.generate_unique_room_code(0).is_err());
    assert!(store.checked_codes.lock().unwrap().is_empty());
}

#[test]
fn a_missing_user_creates_no_room() {
    let (mut service, store) = service_with_store(vec![], vec![], false);
    let result = service.create_room(sample_create_room_dto(), 99);
    assert_eq!(result.unwrap_err(), RoomError::UnexpectedError("User not found".to_string()));
    assert!(store.checked_codes.lock().unwrap().is_empty());
}
