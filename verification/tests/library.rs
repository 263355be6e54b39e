use waterbus_rs::config::{expiration_seconds, expires_at, port_or_default, AwsConfig, DbUri, TypesenseConfig};
use waterbus_rs::dtos::{CreateMeetingDto, LoginDto, OauthRequestDto, PaginationDto, SendMessageDto, UpdateMeetingDto, UpdateUserDto};
use waterbus_rs::entities::{
    Member, MembersRoleEnum, MessagesStatusEnum, MessagesTypeEnum, Participant, ParticipantsStatusEnum, Room, RoomStatusEnum,
    RoomType, StreamingProtocol, User,
};
use waterbus_rs::errors::RoomError;
use waterbus_rs::meetings::assembly::{meeting_by_code_from_rows, meeting_by_id_from_rows, meeting_response_from_joined_rows, meeting_response_from_rows, JoinedMeetingRow};
use waterbus_rs::meetings::errors::MeetingError;
use waterbus_rs::meetings::models::{Meeting, Member as MeetingMember, Participant as MeetingParticipant, User as MeetingUser};
use waterbus_rs::meetings::responses::{MemberResponse as MeetingMemberResponse, ParticipantResponse as MeetingParticipantResponse};
use waterbus_rs::parsing::{parse_i32, parse_u16, parse_u64};
use waterbus_rs::responses::{MemberResponse, ParticipantResponse};
use waterbus_rs::room_repository::{participant_deletion, room_listing, room_response_from_rows, room_responses_from_rows, RoomWithLatest};
use waterbus_rs::search::{document, search_path, TypesenseUser, typesense_url, typesense_user, users_jsonl, USERS_COLLECTION, USER_SEARCH_FIELDS};
use waterbus_rs::socket::dtos::{JoinRoomDto, PaintType, SetScreenSharingDto, WhiteBoardAction};
use waterbus_rs::socket::events::{join_plan, camera_type_change, camera_type_code, connected_user, enabled_broadcast, leave_plan, publishing_participant, screen_sharing_broadcast, ClientInfo};
use waterbus_rs::utils::{generate_room_code, generate_username};
use waterbus_rs::storage::{content_extension, upload_key, UPLOAD_CONTENT_TYPE};
use waterbus_rs::meetings::jwt::JwtUtils as MeetingJwtUtils;

fn user(id: i32) -> User {
    User {
        id,
        full_name: Some(format!("User {id}")),
        user_name: format!("user{id}"),
        bio: None,
        external_id: format!("ext{id}"),
        avatar: None,
        created_at: 0,
        updated_at: 0,
        deleted_at: None,
        last_seen_at: None,
    }
}

fn room(id: i32) -> Room {
    Room {
        id,
        title: format!("Room{id}"),
        password: None,
        avatar: None,
        status: 0,
        latest_message_created_at: None,
        code: format!("code{id}"),
        created_at: 0,
        updated_at: 0,
        deleted_at: None,
        latest_message_id: None,
        type_: 0,
        capacity: None,
        streaming_protocol: None,
    }
}

fn member_of(id: i32, room_id: i32) -> MemberResponse {
    MemberResponse {
        member: Member { id, role: 1, created_at: 0, deleted_at: None, soft_deleted_at: None, user_id: id, room_id },
        user: Some(user(id)),
    }
}

fn participant_of(id: i32, room_id: i32) -> ParticipantResponse {
    ParticipantResponse {
        participant: Participant { id, created_at: 0, deleted_at: None, user_id: id, room_id, status: 0, node_id: None },
        user: None,
    }
}

#[test]
fn members_are_grouped_under_their_room() {
    let rows = vec![
        RoomWithLatest { room: room(1), latest_message: None, message_author: None },
        RoomWithLatest { room: room(2), latest_message: None, message_author: None },
    ];
    let members = vec![member_of(10, 2), member_of(11, 1), member_of(12, 2), member_of(13, 9)];
    let participants = vec![participant_of(20, 1)];
    let listed = room_responses_from_rows(rows, members, participants);
    assert_eq!(listed.len(), 2);
    let ids = |r: &waterbus_rs::responses::RoomResponse| r.members.iter().map(|m| m.member.id).collect::<Vec<_>>();
    assert_eq!(ids(&listed[0]), vec![11]);
    assert_eq!(ids(&listed[1]), vec![10, 12]);
    assert_eq!(listed[0].participants.len(), 1);
    assert!(listed[1].participants.is_empty());
    assert_eq!(listed.iter().map(|r| r.members.len()).sum::<usize>(), 3);
}

#[test]
fn a_room_lookup_without_rows_is_not_found() {
    let found = room_response_from_rows(vec![room(3)], vec![member_of(1, 3), member_of(2, 4)], vec![], RoomError::RoomNotFound(3)).unwrap();
    assert_eq!(found.room.id, 3);
    assert_eq!(found.members.len(), 1);
    assert_eq!(room_response_from_rows(vec![], vec![], vec![], RoomError::RoomNotFound(3)).unwrap_err(), RoomError::RoomNotFound(3));
}

#[test]
fn deleting_no_participant_is_an_error() {
    assert!(participant_deletion(1).is_ok());
    assert_eq!(participant_deletion(0).unwrap_err(), RoomError::UnexpectedError("No participant found to delete".to_string()));
}

fn meeting_row() -> Meeting {
    Meeting {
        id: 4,
        title: "M".to_string(),
        password: String::new(),
        avatar: None,
        status: 0,
        latest_message_created_at: None,
        code: 1,
        created_at: 0,
        updated_at: 0,
        deleted_at: None,
        latest_message_id: None,
    }
}

fn meeting_user(id: i32) -> MeetingUser {
    MeetingUser {
        id,
        full_name: None,
        user_name: format!("u{id}"),
        bio: None,
        google_id: None,
        custom_id: None,
        avatar: None,
        created_at: 0,
        updated_at: 0,
        deleted_at: None,
        last_seen_at: None,
    }
}

fn meeting_member(id: i32, meeting_id: Option<i32>) -> MeetingMember {
    MeetingMember { id, role: 1, status: 2, created_at: 0, deleted_at: None, soft_deleted_at: None, user_id: Some(id), meeting_id }
}

#[test]
fn joined_rows_keep_members_that_come_with_their_user() {
    let rows = vec![
        JoinedMeetingRow { meeting: meeting_row(), member: Some(meeting_member(1, Some(4))), participant: None, member_user: Some(meeting_user(1)), participant_user: None },
        JoinedMeetingRow { meeting: meeting_row(), member: Some(meeting_member(2, Some(4))), participant: None, member_user: None, participant_user: None },
        JoinedMeetingRow {
            meeting: meeting_row(),
            member: None,
            participant: Some(MeetingParticipant { id: 7, status: 0, created_at: 0, deleted_at: None, user_id: Some(1), meeting_id: Some(4), ccu_id: None }),
            member_user: None,
            participant_user: Some(meeting_user(1)),
        },
    ];
    let m = meeting_response_from_joined_rows(rows, MeetingError::MeetingNotFound(4)).unwrap();
    assert_eq!(m.meeting.id, 4);
    assert_eq!(m.members.len(), 1);
    assert_eq!(m.members[0].member.id, 1);
    assert_eq!(m.participants.len(), 1);
    assert_eq!(meeting_response_from_joined_rows(vec![], MeetingError::MeetingNotFound(4)).unwrap_err(), MeetingError::MeetingNotFound(4));
}

#[test]
fn grouped_meeting_members_skip_rows_of_no_meeting() {
    let members = vec![
        MeetingMemberResponse { member: meeting_member(1, Some(4)), user: None },
        MeetingMemberResponse { member: meeting_member(2, None), user: None },
        MeetingMemberResponse { member: meeting_member(3, Some(5)), user: None },
    ];
    let participants: Vec<MeetingParticipantResponse> = vec![];
    let m = meeting_response_from_rows(vec![meeting_row()], members, participants, MeetingError::MeetingNotFound(4)).unwrap();
    assert_eq!(m.members.len(), 1);
    assert_eq!(m.members[0].member.id, 1);
}

#[test]
fn numbers_read_as_str_parse_reads_them() {
    assert_eq!(parse_i32("42"), Some(42));
    assert_eq!(parse_i32("-2147483648"), Some(i32::MIN));
    assert_eq!(parse_i32("2147483648"), None);
    assert_eq!(parse_i32("+7"), Some(7));
    assert_eq!(parse_i32("-"), None);
    assert_eq!(parse_i32("4a"), None);
    assert_eq!(parse_u64("18446744073709551615"), Some(u64::MAX));
    assert_eq!(parse_u64("-1"), None);
    assert_eq!(parse_u16("65536"), None);
    for n in [0, 1, -1, 12345, i32::MAX, i32::MIN] {
        assert_eq!(parse_i32(&n.to_string()), Some(n));
    }
}

#[test]
fn ports_fall_back_to_their_default() {
    assert_eq!(port_or_default(Some("9000"), 8080), 9000);
    assert_eq!(port_or_default(Some("nine"), 8080), 8080);
    assert_eq!(port_or_default(Some("70000"), 8080), 8080);
    assert_eq!(port_or_default(None, 8108), 8108);
}

#[test]
fn expirations_read_hours_days_and_seconds() {
    assert_eq!(expiration_seconds(Some("2h"), 86400), Some(7200));
    assert_eq!(expiration_seconds(Some("3d"), 86400), Some(259200));
    assert_eq!(expiration_seconds(Some("90"), 86400), Some(90));
    assert_eq!(expiration_seconds(Some("xh"), 86400), Some(86400));
    assert_eq!(expiration_seconds(Some("soon"), 315360000), Some(315360000));
    assert_eq!(expiration_seconds(None, 315360000), Some(315360000));
    assert_eq!(expiration_seconds(Some(&315360000u64.to_string()), 315360000), Some(315360000));
    assert_eq!(expiration_seconds(Some("18446744073709551615d"), 1), None);
    assert_eq!(expires_at(1_000, 86400), Some(87_400));
    assert_eq!(expires_at(253_402_300_000, 86400), None);
}

#[test]
fn settings_hold_what_they_were_given() {
    let db = DbUri("postgres://db".to_string());
    let ts = TypesenseConfig { host: "http://ts".to_string(), port: 8108, api_key: "k".to_string() };
    let aws = AwsConfig { key_id: "id".to_string(), access_key: "ak".to_string(), region: "eu".to_string(), bucket_name: "b".to_string() };
    assert_eq!(db.0, "postgres://db");
    assert_eq!(ts.clone(), ts);
    assert_eq!(aws.bucket_name, "b");
}

#[test]
fn users_become_search_documents() {
    let mut u = user(7);
    u.avatar = Some("a \"b\".png".to_string());
    let doc = document(&typesense_user(&u));
    assert_eq!(doc, "{\"id\":\"7\",\"userName\":\"user7\",\"fullName\":\"User 7\",\"avatar\":\"a \\\"b\\\".png\"}");
    let mut v = user(8);
    v.full_name = None;
    let jsonl = users_jsonl(&vec![u, v]);
    let lines: Vec<&str> = jsonl.split('\n').collect();
    assert_eq!(lines.len(), 2);
    assert_eq!(lines[1], "{\"id\":\"8\",\"userName\":\"user8\",\"fullName\":null,\"avatar\":null}");
    assert_eq!(users_jsonl(&vec![]), "");
}

#[test]
fn search_paths_and_urls() {
    assert_eq!(typesense_url("http://ts:8108//", "//collections"), "http://ts:8108/collections");
    assert_eq!(
        search_path(USERS_COLLECTION, "bob", USER_SEARCH_FIELDS, Some(2), None),
        "/collections/users/documents/search?q=bob&query_by=userName,fullName&page=2"
    );
    assert_eq!(
        search_path("users", "a", "b", Some(1), Some(-5)),
        "/collections/users/documents/search?q=a&query_by=b&page=1&per_page=-5"
    );
}

fn client() -> ClientInfo {
    ClientInfo { participant_id: "12".to_string(), room_id: "room-1".to_string() }
}

#[test]
fn socket_ids_are_read_as_i32() {
    assert_eq!(connected_user("15"), Some(15));
    assert_eq!(connected_user("abc"), None);
    let dto = JoinRoomDto {
        sdp: "v=0".to_string(),
        room_id: "1".to_string(),
        participant_id: "x9".to_string(),
        is_video_enabled: true,
        is_audio_enabled: true,
        is_e2ee_enabled: false,
        total_tracks: 2,
    };
    assert_eq!(publishing_participant(&dto), None);
}

#[test]
fn camera_types_must_fit_a_byte() {
    assert_eq!(camera_type_code(0), Some(0));
    assert_eq!(camera_type_code(255), Some(255));
    assert_eq!(camera_type_code(256), None);
    assert_eq!(camera_type_code(-1), None);
    let (code, b) = camera_type_change(&client(), 1).unwrap();
    assert_eq!(code, 1);
    assert_eq!(b.room_id, "room-1");
    assert_eq!(b.notice.participant_id, "12");
    assert_eq!(b.notice.type_, 1);
    assert!(camera_type_change(&client(), 300).is_none());
}

#[test]
fn notices_go_to_the_clients_call() {
    let b = enabled_broadcast(&client(), true);
    assert_eq!(b.room_id, "room-1");
    assert!(b.notice.is_enabled);
    let s = screen_sharing_broadcast(&client(), SetScreenSharingDto { is_sharing: true, screen_track_id: Some("t1".to_string()) });
    assert_eq!(s.notice.screen_track_id, Some("t1".to_string()));
    assert_eq!(s.notice.participant_id, "12");
}

#[test]
fn leaving_plans_the_notice_and_the_cleanup() {
    let plan = leave_plan(&client(), true);
    assert_eq!(plan.left.notice.target_id, "12");
    assert_eq!(plan.left.room_id, "room-1");
    assert_eq!(plan.participant_to_delete, Some(12));
    assert!(plan.remove_ccu);
    let odd = ClientInfo { participant_id: "p".to_string(), room_id: "r".to_string() };
    let plan = leave_plan(&odd, false);
    assert_eq!(plan.participant_to_delete, None);
    assert!(!plan.remove_ccu);
}

#[test]
fn whiteboard_names_travel_as_lowercase_words() {
    assert_eq!(PaintType::Polygon.name(), "polygon");
    assert_eq!(PaintType::Eraser.name(), "eraser");
    assert_eq!(WhiteBoardAction::Remove.name(), "remove");
}

#[test]
fn request_bodies_report_their_failing_fields() {
    assert_eq!(LoginDto { full_name: String::new(), google_id: None, github_id: None }.validate(), Err(vec!["full_name".to_string()]));
    assert_eq!(
        OauthRequestDto { code: String::new(), client_id: "c".to_string(), redirect_uri: String::new() }.validate(),
        Err(vec!["code".to_string(), "redirect_uri".to_string()])
    );
    assert_eq!(SendMessageDto { data: "x".to_string() }.validate(), Ok(()));
    assert_eq!(CreateMeetingDto { title: "ab".to_string(), password: "123456".to_string() }.validate(), Err(vec!["title".to_string()]));
    assert_eq!(
        UpdateMeetingDto { code: 1, title: None, password: Some("123".to_string()), avatar: Some("not a url".to_string()) }.validate(),
        Err(vec!["password".to_string(), "avatar".to_string()])
    );
    assert_eq!(
        UpdateUserDto { full_name: "N".to_string(), avatar: Some("https://x.io/a.png".to_string()), bio: None }.validate(),
        Ok(())
    );
}

#[test]
fn pagination_defaults() {
    assert_eq!(PaginationDto::from_query(None, None), PaginationDto { skip: 0, limit: 10 });
    assert_eq!(PaginationDto::from_query(Some(5), Some(2)), PaginationDto { skip: 5, limit: 2 });
}

#[test]
fn generated_identifiers_have_their_shape() {
    let code = generate_room_code();
    let chars: Vec<char> = code.chars().collect();
    assert_eq!(chars.len(), 12);
    assert_eq!(chars[3], '-');
    assert_eq!(chars[8], '-');
    assert!(chars.iter().enumerate().all(|(i, c)| i == 3 || i == 8 || c.is_ascii_lowercase()));
    let name = generate_username();
    assert_eq!(name.chars().count(), 12);
    assert!(name.chars().all(|c| c.is_ascii_alphanumeric() || c == '_' || c == '-'));
}

#[test]
fn upload_keys_are_a_uuid_and_the_subtype() {
    let key = upload_key(UPLOAD_CONTENT_TYPE);
    assert_eq!(key.len(), 40);
    assert!(key.ends_with(".png"));
    assert_eq!(&key[8..9], "-");
    assert_ne!(upload_key(UPLOAD_CONTENT_TYPE), key);
    assert_eq!(content_extension("image/png"), "png");
    assert_eq!(content_extension("png"), "png");
    assert_eq!(content_extension("a/b/c"), "c");
    assert_eq!(content_extension("image/"), "");
}

fn claims_of(token: &str, secret: &str) -> serde_json::Value {
    let key = jsonwebtoken::DecodingKey::from_secret(secret.as_bytes());
    let mut validation = jsonwebtoken::Validation::default();
    validation.validate_exp = false;
    jsonwebtoken::decode::<serde_json::Value>(token, &key, &validation).unwrap().claims
}

#[test]
fn meeting_tokens_live_their_days() {
    let jwt = MeetingJwtUtils::new("s".to_string(), "r".to_string());
    let access = jwt.token_at("5", 2, 1_000).unwrap();
    assert_eq!(claims_of(&access, "s")["exp"].as_i64().unwrap(), 1_000 + 2 * 86_400);
    assert_eq!(claims_of(&access, "s")["id"], "5");
    let refresh = jwt.refresh_token_at("5", 1_000).unwrap();
    assert_eq!(claims_of(&refresh, "r")["exp"].as_i64().unwrap(), 1_000 + 30 * 86_400);
    assert!(jwt.token_at("5", i64::MAX, 0).is_none());
    assert!(jwt.generate_token("5", 1).is_some());
}

#[test]
fn publishing_plans_the_client_record_and_the_request() {
    let dto = JoinRoomDto {
        sdp: "v=0".to_string(),
        room_id: "7".to_string(),
        participant_id: "31".to_string(),
        is_video_enabled: false,
        is_audio_enabled: true,
        is_e2ee_enabled: true,
        total_tracks: 3,
    };
    let plan = join_plan(dto);
    assert_eq!(plan.client, ClientInfo { participant_id: "31".to_string(), room_id: "7".to_string() });
    assert_eq!(plan.participant, Some(31));
    assert_eq!(plan.request.sdp, "v=0");
    assert!(plan.request.is_audio_enabled && plan.request.is_e2ee_enabled && !plan.request.is_video_enabled);
    assert_eq!(plan.request.total_tracks, 3);
}

#[test]
fn stored_codes_read_back_as_what_was_stored() {
    for s in [RoomStatusEnum::Active, RoomStatusEnum::Inactive] {
        assert_eq!(RoomStatusEnum::from_i16(s.to_i16()), s);
    }
    for r in [MembersRoleEnum::Owner, MembersRoleEnum::Attendee] {
        assert_eq!(MembersRoleEnum::from_i16(r.to_i16()), r);
    }
    for m in [MessagesStatusEnum::Active, MessagesStatusEnum::Inactive] {
        assert_eq!(MessagesStatusEnum::from_i16(m.to_i16()), m);
    }
    for p in [ParticipantsStatusEnum::Active, ParticipantsStatusEnum::Inactive] {
        assert_eq!(ParticipantsStatusEnum::from_i16(p.to_i16()), p);
    }
    assert_eq!(MessagesTypeEnum::from_i16(MessagesTypeEnum::System.to_i16()), MessagesTypeEnum::System);
    assert_eq!(RoomType::from_i16(RoomType::LiveStreaming.to_i16()), RoomType::LiveStreaming);
    assert_eq!(StreamingProtocol::from_i16(StreamingProtocol::HLS.to_i16()), StreamingProtocol::HLS);
}

#[test]
fn documents_escape_what_json_requires() {
    let user = TypesenseUser {
        id: "1".to_string(),
        username: "a\"b\\c".to_string(),
        full_name: Some("line\nbreak\ttab\u{1}é".to_string()),
        avatar_url: None,
    };
    assert_eq!(
        document(&user),
        "{\"id\":\"1\",\"userName\":\"a\\\"b\\\\c\",\"fullName\":\"line\\nbreak\\ttab\\u0001é\",\"avatar\":null}"
    );
}

#[test]
fn integers_are_written_in_decimal() {
    assert_eq!(waterbus_rs::strings::i32_to_string(0), "0");
    assert_eq!(waterbus_rs::strings::i32_to_string(42), "42");
    assert_eq!(waterbus_rs::strings::i32_to_string(-7), "-7");
    assert_eq!(waterbus_rs::strings::i32_to_string(i32::MIN), i32::MIN.to_string());
    assert_eq!(waterbus_rs::strings::i64_to_string(i64::MIN), i64::MIN.to_string());
    assert_eq!(waterbus_rs::strings::i64_to_string(i64::MAX), i64::MAX.to_string());
    assert_eq!(waterbus_rs::strings::i64_to_string(1000000), "1000000");
}

fn rows_of_two_meetings() -> Vec<JoinedMeetingRow> {
    let mut other = meeting_row();
    other.id = 5;
    other.code = 2;
    vec![
        JoinedMeetingRow { meeting: other, member: Some(meeting_member(9, Some(5))), participant: None, member_user: Some(meeting_user(9)), participant_user: None },
        JoinedMeetingRow { meeting: meeting_row(), member: Some(meeting_member(1, Some(4))), participant: None, member_user: Some(meeting_user(1)), participant_user: None },
        JoinedMeetingRow { meeting: meeting_row(), member: Some(meeting_member(3, Some(5))), participant: None, member_user: Some(meeting_user(3)), participant_user: None },
    ]
}

#[test]
fn a_meeting_by_id_takes_only_its_own_rows() {
    let by_id = meeting_by_id_from_rows(4, rows_of_two_meetings()).unwrap();
    assert_eq!(by_id.meeting.id, 4);
    assert_eq!(by_id.members.len(), 1);
    assert_eq!(by_id.members[0].member.id, 1);
    assert!(by_id.latest_message.is_none());
    let by_code = meeting_by_code_from_rows(2, rows_of_two_meetings()).unwrap();
    assert_eq!(by_code.meeting.id, 5);
    assert_eq!(by_code.members.len(), 1);
    assert_eq!(meeting_by_id_from_rows(6, rows_of_two_meetings()).unwrap_err(), MeetingError::MeetingNotFound(6));
    assert_eq!(meeting_by_code_from_rows(7, rows_of_two_meetings()).unwrap_err(), MeetingError::MeetingNotFound(7));
    assert_eq!(meeting_by_id_from_rows(4, vec![]).unwrap_err(), MeetingError::MeetingNotFound(4));
}

fn listed_room(id: i32, status: i16, latest: Option<i64>) -> RoomWithLatest {
    let mut r = room(id);
    r.status = status;
    r.latest_message_created_at = latest;
    RoomWithLatest { room: r, latest_message: None, message_author: None }
}

fn candidates() -> Vec<RoomWithLatest> {
    vec![
        listed_room(1, 0, Some(100)),
        listed_room(2, 0, Some(300)),
        listed_room(3, 1, Some(400)),
        listed_room(4, 0, None),
        listed_room(5, 0, Some(200)),
        listed_room(2, 0, Some(300)),
        listed_room(6, 0, Some(500)),
    ]
}

fn memberships() -> Vec<MemberResponse> {
    vec![
        member_of(7, 1),
        member_of(7, 2),
        member_of(7, 3),
        member_of(7, 4),
        member_of(7, 5),
        member_of(8, 6),
        member_of(9, 2),
    ]
}

#[test]
fn a_listing_is_newest_first_and_paged() {
    let ids = |v: &Vec<waterbus_rs::responses::RoomResponse>| v.iter().map(|r| r.room.id).collect::<Vec<_>>();
    let all = room_listing(7, RoomStatusEnum::Active, 0, 10, candidates(), memberships(), vec![participant_of(20, 2)]).unwrap();
    assert_eq!(ids(&all), vec![4, 2, 5, 1]);
    assert_eq!(all[1].members.len(), 2);
    assert_eq!(all[1].participants.len(), 1);
    let page = room_listing(7, RoomStatusEnum::Active, 1, 2, candidates(), memberships(), vec![]).unwrap();
    assert_eq!(ids(&page), vec![2, 5]);
    assert!(room_listing(7, RoomStatusEnum::Active, 9, 2, candidates(), memberships(), vec![]).unwrap().is_empty());
    assert_eq!(ids(&room_listing(7, RoomStatusEnum::Inactive, 0, 10, candidates(), memberships(), vec![]).unwrap()), vec![3]);
    assert_eq!(
        room_listing(7, RoomStatusEnum::Active, -1, 2, candidates(), memberships(), vec![]).unwrap_err(),
        RoomError::UnexpectedError("Failed to find rooms".to_string())
    );
}
