//! Rooms: creating, updating, joining and leaving them, and managing their members.
//!
//! Each operation of `RoomServiceImpl` reads and writes through the repositories and
//! takes its decisions in the public functions beside it, which carry exact contracts.
use vstd::prelude::*;
use crate::entities::{MembersRoleEnum, NewMember, NewParticipant, NewRoom, Participant, ParticipantsStatusEnum, Room, RoomStatusEnum, RoomType, StreamingProtocol, User};
use crate::errors::{is_room_unexpected, room_unexpected, RoomError, UserError};
use crate::outside::{bcrypt_verify_outcome, now_micros};
use crate::repositories::{RoomCall, RoomRepository, RoomStore, UserCall, UserRepository, UserStore};
use crate::responses::{MemberResponse, ParticipantResponse, RoomResponse};
use crate::utils::{generate_room_code, hash_password, is_room_code, verify_password};

verus! {

/// What a user asks for when creating a room.
#[derive(Debug, PartialEq)]
pub struct CreateRoomDto {
    pub title: String,
    pub password: Option<String>,
    pub room_type: RoomType,
    pub streaming_protocol: StreamingProtocol,
    pub capacity: Option<i32>,
}

/// The fields a host changes in a room; a field left out keeps its value.
#[derive(Debug, PartialEq)]
pub struct UpdateRoomDto {
    pub title: Option<String>,
    pub password: Option<String>,
    pub avatar: Option<String>,
    pub room_type: Option<RoomType>,
    pub streaming_protocol: Option<StreamingProtocol>,
    pub capacity: Option<i32>,
}

/// The password a guest gives when joining a room.
#[derive(Debug, PartialEq)]
pub struct JoinRoomDto {
    pub password: Option<String>,
}

pub open spec fn has_member(members: Seq<MemberResponse>, user_id: i32) -> bool {
    exists|i: int| 0 <= i < members.len() && (#[trigger] members[i]).member.user_id == user_id
}

pub open spec fn is_owner_in(members: Seq<MemberResponse>, user_id: i32) -> bool {
    exists|i: int|
        0 <= i < members.len() && (#[trigger] members[i]).member.user_id == user_id
            && members[i].member.role == MembersRoleEnum::Owner.code()
}

/// `i` is the first position of a membership of `user_id`.
pub open spec fn first_member_at(members: Seq<MemberResponse>, user_id: i32, i: int) -> bool {
    &&& 0 <= i < members.len()
    &&& members[i].member.user_id == user_id
    &&& forall|j: int| 0 <= j < i ==> (#[trigger] members[j]).member.user_id != user_id
}

pub open spec fn other_user(user_id: i32) -> spec_fn(MemberResponse) -> bool {
    |m: MemberResponse| m.member.user_id != user_id
}

pub open spec fn connected() -> spec_fn(ParticipantResponse) -> bool {
    |p: ParticipantResponse| p.participant.node_id is Some
}

/// What an owner's update of `room` leads to (see `updated_room`).
pub open spec fn room_update_outcome(room: RoomResponse, user_id: i32, data: UpdateRoomDto, r: Result<Room, RoomError>) -> bool {
    &&& !is_owner_in(room.members@, user_id) <==> r == Err::<Room, RoomError>(RoomError::YouDontHavePermissions)
    &&& r matches Err(e) ==> e == RoomError::YouDontHavePermissions || (data.password is Some
        && is_room_unexpected(e, "Failed to hash password"@))
    &&& r matches Ok(u) ==> {
        &&& u.id == room.room.id
        &&& u.title == match data.title { Some(t) => t, None => room.room.title }
        &&& match data.password {
            Some(p) => u.password matches Some(h) && bcrypt_verify_outcome(p@, h@) == Some(true),
            None => u.password == room.room.password,
        }
        &&& u.avatar == match data.avatar { Some(a) => Some(a), None => room.room.avatar }
        &&& u.type_ == match data.room_type { Some(t) => t.code(), None => room.room.type_ }
        &&& u.streaming_protocol == match data.streaming_protocol {
            Some(s) => Some(s.code()),
            None => room.room.streaming_protocol,
        }
        &&& u.capacity == match data.capacity { Some(c) => Some(c), None => room.room.capacity }
        &&& u.status == room.room.status
        &&& u.code == room.room.code
        &&& u.created_at == room.room.created_at
        &&& u.updated_at == room.room.updated_at
        &&& u.deleted_at == room.room.deleted_at
        &&& u.latest_message_id == room.room.latest_message_id
        &&& u.latest_message_created_at == room.room.latest_message_created_at
    }
}

/// The status a listing number names: 1 is inactive, anything else active.
pub open spec fn listed_status(room_status: i32) -> RoomStatusEnum {
    if room_status == 1 { RoomStatusEnum::Inactive } else { RoomStatusEnum::Active }
}

/// What leaving a room decides (see `leaving_member`).
pub open spec fn leave_outcome(room: RoomResponse, user_id: i32, r: Result<i32, RoomError>) -> bool {
    &&& !has_member(room.members@, user_id) ==> (r matches Err(e) && is_room_unexpected(e, "Member not found"@))
    &&& has_member(room.members@, user_id) ==> exists|i: int| {
        &&& #[trigger] first_member_at(room.members@, user_id, i)
        &&& if room.members@[i].member.role == MembersRoleEnum::Owner.code() {
            r matches Err(e) && is_room_unexpected(
                e,
                "Host not allowed to leave the room. You can archive chats if the room no longer active."@,
            )
        } else {
            r == Ok::<i32, RoomError>(room.members@[i].member.id)
        }
    }
}

/// `x` is `room` without the memberships of `user_id`.
pub open spec fn is_without(room: RoomResponse, user_id: i32, x: RoomResponse) -> bool {
    &&& x.room == room.room
    &&& x.members@ == room.members@.filter(other_user(user_id))
    &&& x.participants@ == room.participants@
    &&& x.latest_message == room.latest_message
    &&& x.is_protected == room.is_protected
}

/// `x` is `room` once `participant` joined its call.
pub open spec fn is_joined(room: RoomResponse, participant: ParticipantResponse, x: RoomResponse) -> bool {
    &&& x.room == room.room
    &&& x.members@ == room.members@
    &&& x.participants@ == room.participants@.filter(connected()).push(participant)
    &&& x.latest_message == room.latest_message
    &&& x.is_protected == room.is_protected
}

/// `x` is `room` with `member` added at the end.
pub open spec fn is_with_member(room: RoomResponse, member: MemberResponse, x: RoomResponse) -> bool {
    &&& x.room == room.room
    &&& x.members@ == room.members@.push(member)
    &&& x.participants@ == room.participants@
    &&& x.latest_message == room.latest_message
    &&& x.is_protected == room.is_protected
}

/// What a host's request to add `user_id` decides (see `member_admission`).
pub open spec fn admission_outcome(room: RoomResponse, host_id: i32, user_id: i32, r: Result<(), RoomError>) -> bool {
    &&& has_member(room.members@, user_id) ==> (r matches Err(e) && is_room_unexpected(e, "User already in the room"@))
    &&& !has_member(room.members@, user_id) ==> r == if is_owner_in(room.members@, host_id) {
        Ok::<(), RoomError>(())
    } else {
        Err(RoomError::YouDontHavePermissions)
    }
}

/// What a host's request to remove `user_id` decides (see `removed_member`).
pub open spec fn removal_outcome(room: RoomResponse, host_id: i32, user_id: i32, r: Result<i32, RoomError>) -> bool {
    &&& !has_member(room.members@, user_id) ==> (r matches Err(e) && is_room_unexpected(e, "Member not found"@))
    &&& has_member(room.members@, user_id) && !is_owner_in(room.members@, host_id)
        ==> r == Err::<i32, RoomError>(RoomError::YouDontHavePermissions)
    &&& has_member(room.members@, user_id) && is_owner_in(room.members@, host_id) ==> exists|i: int|
        #[trigger] first_member_at(room.members@, user_id, i) && r == Ok::<i32, RoomError>(room.members@[i].member.id)
}

/// What deactivating `room` on behalf of `user_id` decides (see `deactivated`).
pub open spec fn deactivation_outcome(room: RoomResponse, user_id: i32, r: Result<Room, RoomError>) -> bool {
    &&& !has_member(room.members@, user_id) ==> (r matches Err(e) && is_room_unexpected(e, "Member not found"@))
    &&& has_member(room.members@, user_id) ==> exists|i: int| {
        &&& #[trigger] first_member_at(room.members@, user_id, i)
        &&& if room.members@[i].member.role == MembersRoleEnum::Owner.code() {
            r == Ok::<Room, RoomError>(Room { status: RoomStatusEnum::Inactive.code(), ..room.room })
        } else {
            r == Err::<Room, RoomError>(RoomError::YouDontHavePermissions)
        }
    }
}

/// `q` is `participant` now served by node `node_id`.
pub open spec fn is_on_node(participant: Participant, node_id: Seq<char>, q: Participant) -> bool {
    &&& q == Participant { node_id: q.node_id, ..participant }
    &&& q.node_id matches Some(n) && n@ == node_id
}

/// What hashing a room's password gives: nothing to hash without a password, else a bcrypt
/// hash of it, or an unexpected error.
pub open spec fn room_hash_outcome(password: Option<String>, r: Result<Option<String>, RoomError>) -> bool {
    match password {
        None => r == Ok::<Option<String>, RoomError>(None),
        Some(p) => match r {
            Ok(Some(h)) => bcrypt_verify_outcome(p@, h@) == Some(true),
            Ok(None) => false,
            Err(e) => is_room_unexpected(e, "Failed to hash password"@),
        },
    }
}

/// The row of a new, active room with the requested settings, created at `now`.
pub open spec fn room_row(data: CreateRoomDto, password: Option<String>, code: String, now: i64) -> NewRoom {
    NewRoom {
        title: data.title,
        password,
        code,
        status: RoomStatusEnum::Active.code(),
        created_at: now,
        updated_at: now,
        latest_message_created_at: now,
        type_: data.room_type.code(),
        capacity: data.capacity,
        streaming_protocol: Some(data.streaming_protocol.code()),
    }
}

/// The row of a participant who joins at `now`.
pub open spec fn participant_row(user_id: i32, room_id: i32, now: i64) -> NewParticipant {
    NewParticipant { user_id: Some(user_id), room_id, status: ParticipantsStatusEnum::Active.code(), created_at: now }
}

/// The membership row of an attendee added at `now`.
pub open spec fn attendee_row(room_id: i32, user_id: i32, now: i64) -> NewMember {
    NewMember { room_id, user_id: Some(user_id), role: MembersRoleEnum::Attendee.code(), created_at: now }
}

/// Whether `calls` is `before` followed by one lookup of the user `user_id`, whatever its
/// answer.
pub open spec fn user_looked_up(before: Seq<UserCall>, user_id: i32, calls: Seq<UserCall>) -> bool {
    exists|found: Result<User, UserError>| calls == #[trigger] before.push(UserCall::GetUserById(user_id, found))
}

/// Whether a call asked the store about a well-formed room code.
pub open spec fn is_code_check(c: RoomCall) -> bool {
    c matches RoomCall::ExistsCode(code, _) && is_room_code(code)
}

/// Whether a call asked about a code and the store answered that it is taken.
pub open spec fn answered_taken(c: RoomCall) -> bool {
    c matches RoomCall::ExistsCode(_, Ok(true))
}

/// Whether `log` is the search for a free room code that gives `r`: each call checks a
/// drawn code, every check but the last found it taken, and the last decides. A free code
/// is the answer; a failed check gives "Failed to check room code"; when all
/// `max_attempts` codes were taken, "Failed to generate unique room code".
pub open spec fn code_search(log: Seq<RoomCall>, max_attempts: int, r: Result<String, RoomError>) -> bool {
    &&& log.len() <= max_attempts
    &&& forall|i: int| 0 <= i < log.len() ==> #[trigger] is_code_check(log[i])
    &&& forall|i: int| 0 <= i < log.len() - 1 ==> #[trigger] answered_taken(log[i])
    &&& if log.len() == 0 || answered_taken(log.last()) {
        log.len() == max_attempts && (r matches Err(e) && is_room_unexpected(e, "Failed to generate unique room code"@))
    } else {
        match log.last() {
            RoomCall::ExistsCode(code, Ok(_)) => r matches Ok(c) && c@ == code,
            _ => r matches Err(e) && is_room_unexpected(e, "Failed to check room code"@),
        }
    }
}

/// The first position of a membership of `user_id`, if there is one.
pub fn position_of_member(members: &Vec<MemberResponse>, user_id: i32) -> (r: Option<usize>)
    ensures
        match r {
            Some(i) => first_member_at(members@, user_id, i as int),
            None => !has_member(members@, user_id),
        },
{
    let mut i: usize = 0;
    while i < members.len()
        invariant
            i <= members@.len(),
            forall|j: int| 0 <= j < i ==> (#[trigger] members@[j]).member.user_id != user_id,
        decreases members.len() - i,
    {
        if members[i].member.user_id == user_id {
            return Some(i);
        }
        i = i + 1;
    }
    None
}

/// Whether `user_id` is a member of the room.
pub fn is_member(members: &Vec<MemberResponse>, user_id: i32) -> (r: bool)
    ensures
        r == has_member(members@, user_id),
{
    position_of_member(members, user_id).is_some()
}

/// Whether `user_id` owns the room.
pub fn is_owner(members: &Vec<MemberResponse>, user_id: i32) -> (r: bool)
    ensures
        r == is_owner_in(members@, user_id),
{
    let owner = MembersRoleEnum::Owner.to_i16();
    let mut i: usize = 0;
    while i < members.len()
        invariant
            i <= members@.len(),
            owner == MembersRoleEnum::Owner.code(),
            forall|j: int|
                0 <= j < i ==> !((#[trigger] members@[j]).member.user_id == user_id
                    && members@[j].member.role == owner),
        decreases members.len() - i,
    {
        if members[i].member.user_id == user_id && members[i].member.role == owner {
            return true;
        }
        i = i + 1;
    }
    false
}

/// The memberships of users other than `user_id`, in their order.
pub fn retain_other_members(members: Vec<MemberResponse>, user_id: i32) -> (r: Vec<MemberResponse>)
    ensures
        r@ == members@.filter(other_user(user_id)),
{
    let mut kept: Vec<MemberResponse> = Vec::new();
    let mut i: usize = 0;
    while i < members.len()
        invariant
            i <= members@.len(),
            kept@ == members@.take(i as int).filter(other_user(user_id)),
        decreases members.len() - i,
    {
        proof {
            members@.take(i as int).lemma_filter_push(members@[i as int], other_user(user_id));
            assert(members@.take(i as int).push(members@[i as int]) =~= members@.take(i + 1));
        }
        if members[i].member.user_id != user_id {
            kept.push(members[i].clone());
        }
        i = i + 1;
    }
    assert(members@.take(members@.len() as int) =~= members@);
    kept
}

/// The participants that are served by a media node, in their order.
pub fn retain_connected(participants: Vec<ParticipantResponse>) -> (r: Vec<ParticipantResponse>)
    ensures
        r@ == participants@.filter(connected()),
{
    let mut kept: Vec<ParticipantResponse> = Vec::new();
    let mut i: usize = 0;
    while i < participants.len()
        invariant
            i <= participants@.len(),
            kept@ == participants@.take(i as int).filter(connected()),
        decreases participants.len() - i,
    {
        proof {
            participants@.take(i as int).lemma_filter_push(participants@[i as int], connected());
            assert(participants@.take(i as int).push(participants@[i as int]) =~= participants@.take(i + 1));
        }
        if participants[i].participant.node_id.is_some() {
            kept.push(participants[i].clone());
        }
        i = i + 1;
    }
    assert(participants@.take(participants@.len() as int) =~= participants@);
    kept
}

/// The creator of a room must exist: a failed lookup becomes "User not found".
pub fn require_room_user(user: Result<User, UserError>) -> (r: Result<User, RoomError>)
    ensures
        match user {
            Ok(u) => r == Ok::<User, RoomError>(u),
            Err(_) => r matches Err(e) && is_room_unexpected(e, "User not found"@),
        },
{
    match user {
        Ok(u) => Ok(u),
        Err(_) => Err(room_unexpected("User not found")),
    }
}

/// The stored form of a room password: its bcrypt hash. No password, no hash.
pub fn hash_room_password(password: &Option<String>) -> (r: Result<Option<String>, RoomError>)
    ensures
        room_hash_outcome(*password, r),
{
    match password {
        None => Ok(None),
        Some(p) => match hash_password(p.as_str()) {
            Some(h) => Ok(Some(h)),
            None => Err(room_unexpected("Failed to hash password")),
        },
    }
}

/// The row of a new, active room created at `now`.
pub fn new_room(data: &CreateRoomDto, password: Option<String>, code: String, now: i64) -> (r: NewRoom)
    ensures
        r == room_row(*data, password, code, now),
        r.title == data.title,
        r.type_ == data.room_type.code(),
        r.capacity == data.capacity,
        r.streaming_protocol == Some(data.streaming_protocol.code()),
        r.status == RoomStatusEnum::Active.code(),
        r.password == password,
        r.code == code,
        r.created_at == now,
{
    NewRoom {
        title: data.title.clone(),
        password,
        code,
        status: RoomStatusEnum::Active.to_i16(),
        created_at: now,
        updated_at: now,
        latest_message_created_at: now,
        type_: data.room_type.to_i16(),
        capacity: data.capacity,
        streaming_protocol: Some(data.streaming_protocol.to_i16()),
    }
}

/// The answer to "is this code taken?": a failed check becomes "Failed to check room code".
pub fn check_room_code(taken: Result<bool, RoomError>) -> (r: Result<bool, RoomError>)
    ensures
        match taken {
            Ok(b) => r == Ok::<bool, RoomError>(b),
            Err(_) => r matches Err(e) && is_room_unexpected(e, "Failed to check room code"@),
        },
{
    match taken {
        Ok(b) => Ok(b),
        Err(_) => Err(room_unexpected("Failed to check room code")),
    }
}

/// The room a host's update leads to. Only an owner may update; a given password is stored hashed.
pub fn updated_room(room: RoomResponse, user_id: i32, data: UpdateRoomDto) -> (r: Result<Room, RoomError>)
    ensures
        room_update_outcome(room, user_id, data, r),
{
    if !is_owner(&room.members, user_id) {
        return Err(RoomError::YouDontHavePermissions);
    }
    let mut updated = room.room;
    if let Some(title) = data.title {
        updated.title = title;
    }
    if let Some(password) = data.password {
        match hash_password(password.as_str()) {
            Some(h) => {
                updated.password = Some(h);
            },
            None => {
                return Err(room_unexpected("Failed to hash password"));
            },
        }
    }
    if let Some(avatar) = data.avatar {
        updated.avatar = Some(avatar);
    }
    if let Some(room_type) = data.room_type {
        updated.type_ = room_type.to_i16();
    }
    if let Some(streaming_protocol) = data.streaming_protocol {
        updated.streaming_protocol = Some(streaming_protocol.to_i16());
    }
    if let Some(capacity) = data.capacity {
        updated.capacity = Some(capacity);
    }
    Ok(updated)
}

/// The status a listing asks for; a number that names none lists active rooms.
pub fn room_status_or_active(room_status: i32) -> (r: RoomStatusEnum)
    ensures
        r == listed_status(room_status),
{
    match RoomStatusEnum::try_from(room_status) {
        Ok(s) => s,
        Err(_) => RoomStatusEnum::Active,
    }
}

/// The membership a user gives up when leaving. The owner may not leave.
pub fn leaving_member(room: &RoomResponse, user_id: i32) -> (r: Result<i32, RoomError>)
    ensures
        leave_outcome(*room, user_id, r),
{
    match position_of_member(&room.members, user_id) {
        None => Err(room_unexpected("Member not found")),
        Some(i) => {
            let member = &room.members[i].member;
            if member.role == MembersRoleEnum::Owner.to_i16() {
                Err(room_unexpected(
                    "Host not allowed to leave the room. You can archive chats if the room no longer active.",
                ))
            } else {
                Ok(member.id)
            }
        },
    }
}

/// The room without the memberships of `user_id`.
pub fn without_member(room: RoomResponse, user_id: i32) -> (r: RoomResponse)
    ensures
        is_without(room, user_id, r),
{
    let RoomResponse { room: row, members, participants, latest_message, is_protected } = room;
    RoomResponse { room: row, members: retain_other_members(members, user_id), participants, latest_message, is_protected }
}

/// Whether `password` opens a room whose stored password is `stored`.
pub open spec fn password_opens(stored: Option<String>, password: Option<&str>) -> bool {
    match stored {
        None => true,
        Some(h) => match password {
            Some(p) => bcrypt_verify_outcome(p@, h@) == Some(true),
            None => false,
        },
    }
}

/// The answer to a request to join: members are let in; anyone else while the room has
/// space and with its password.
pub open spec fn join_verdict(room: RoomResponse, user_id: i32, password: Option<&str>) -> Result<(), RoomError> {
    if has_member(room.members@, user_id) {
        Ok(())
    } else if room.room.capacity matches Some(c) && room.members@.len() as i32 >= c {
        Err(RoomError::RoomIsFull)
    } else if !password_opens(room.room.password, password) {
        Err(RoomError::PasswordIncorrect)
    } else {
        Ok(())
    }
}

/// Whether a user may join the call of a room. A member always may; anyone else only while
/// the room has space and with its password.
pub fn join_admission(room: &RoomResponse, user_id: i32, password: Option<&str>) -> (r: Result<(), RoomError>)
    ensures
        r == join_verdict(*room, user_id, password),
{
    if is_member(&room.members, user_id) {
        return Ok(());
    }
    if let Some(capacity) = room.room.capacity {
        if room.members.len() as i32 >= capacity {
            return Err(RoomError::RoomIsFull);
        }
    }
    let opens = match &room.room.password {
        None => true,
        Some(h) => match password {
            Some(p) => match verify_password(p, h.as_str()) {
                Some(ok) => ok,
                None => false,
            },
            None => false,
        },
    };
    if !opens {
        return Err(RoomError::PasswordIncorrect);
    }
    Ok(())
}

/// The row of a participant that joins at `now`.
pub fn new_participant(user_id: i32, room_id: i32, now: i64) -> (r: NewParticipant)
    ensures
        r == participant_row(user_id, room_id, now),
        r.user_id == Some(user_id),
        r.room_id == room_id,
        r.status == ParticipantsStatusEnum::Active.code(),
        r.created_at == now,
{
    NewParticipant { user_id: Some(user_id), room_id, status: ParticipantsStatusEnum::Active.to_i16(), created_at: now }
}

/// The room once a participant joined: participants not served by a node are dropped
/// and the new one comes last.
pub fn with_participant(room: RoomResponse, participant: ParticipantResponse) -> (r: RoomResponse)
    ensures
        is_joined(room, participant, r),
{
    let RoomResponse { room: row, members, participants, latest_message, is_protected } = room;
    let mut kept = retain_connected(participants);
    kept.push(participant);
    RoomResponse { room: row, members, participants: kept, latest_message, is_protected }
}

/// Whether a host may add `user_id` to a room: not when already a member, and only by an owner.
pub fn member_admission(room: &RoomResponse, host_id: i32, user_id: i32) -> (r: Result<(), RoomError>)
    ensures
        admission_outcome(*room, host_id, user_id, r),
{
    if is_member(&room.members, user_id) {
        return Err(room_unexpected("User already in the room"));
    }
    if !is_owner(&room.members, host_id) {
        return Err(RoomError::YouDontHavePermissions);
    }
    Ok(())
}

/// The row of an attendee added at `now`.
pub fn new_attendee(room_id: i32, user_id: i32, now: i64) -> (r: NewMember)
    ensures
        r == attendee_row(room_id, user_id, now),
        r.role == MembersRoleEnum::Attendee.code(),
        r.role != MembersRoleEnum::Owner.code(),
        r.user_id == Some(user_id),
        r.room_id == room_id,
{
    NewMember { room_id, user_id: Some(user_id), role: MembersRoleEnum::Attendee.to_i16(), created_at: now }
}

/// The room with a new membership at the end.
pub fn with_member(room: RoomResponse, member: MemberResponse) -> (r: RoomResponse)
    ensures
        is_with_member(room, member, r),
{
    let mut room = room;
    room.members.push(member);
    room
}

/// The membership a host removes. The user must be a member, and the host an owner.
pub fn removed_member(room: &RoomResponse, host_id: i32, user_id: i32) -> (r: Result<i32, RoomError>)
    ensures
        removal_outcome(*room, host_id, user_id, r),
{
    match position_of_member(&room.members, user_id) {
        None => Err(room_unexpected("Member not found")),
        Some(i) => {
            if !is_owner(&room.members, host_id) {
                return Err(RoomError::YouDontHavePermissions);
            }
            Ok(room.members[i].member.id)
        },
    }
}

/// The room as its owner deactivates it.
pub fn deactivated(room: RoomResponse, user_id: i32) -> (r: Result<Room, RoomError>)
    ensures
        deactivation_outcome(room, user_id, r),
{
    match position_of_member(&room.members, user_id) {
        None => Err(room_unexpected("Member not found")),
        Some(i) => {
            if room.members[i].member.role != MembersRoleEnum::Owner.to_i16() {
                return Err(RoomError::YouDontHavePermissions);
            }
            let mut row = room.room;
            row.status = RoomStatusEnum::Inactive.to_i16();
            Ok(row)
        },
    }
}

/// A participant now served by node `node_id`.
pub fn with_node(participant: Participant, node_id: &str) -> (r: Participant)
    ensures
        is_on_node(participant, node_id@, r),
{
    let mut participant = participant;
    participant.node_id = Some(node_id.to_string());
    participant
}

/// The room service over a room store and a user store.
pub struct RoomServiceImpl<R: RoomRepository, U: UserRepository> {
    rooms: RoomStore<R>,
    users: UserStore<U>,
}

impl<R: RoomRepository, U: UserRepository> RoomServiceImpl<R, U> {
    /// The room store the service reads and writes, with the calls made to it.
    pub closed spec fn rooms(&self) -> RoomStore<R> {
        self.rooms
    }

    /// The user store the service reads, with the calls made to it.
    pub closed spec fn users(&self) -> UserStore<U> {
        self.users
    }

    /// Whether this service works on the same stores as `earlier`.
    pub open spec fn same_stores(&self, earlier: Self) -> bool {
        &&& self.rooms().repository() == earlier.rooms().repository()
        &&& self.users().repository() == earlier.users().repository()
    }

    pub fn new(room_repository: R, user_repository: U) -> (r: Self)
        ensures
            r.rooms().repository() == room_repository,
            r.users().repository() == user_repository,
            r.rooms().calls() == Seq::<RoomCall>::empty(),
            r.users().calls() == Seq::<UserCall>::empty(),
    {
        RoomServiceImpl { rooms: RoomStore::new(room_repository), users: UserStore::new(user_repository) }
    }

    /// Creates a room owned by `user_id`: the user is looked up, the password hashed and a
    /// free code drawn (in ten attempts at most); the store then inserts the room with its
    /// owner, and its answer is the answer. Nothing is written to the room store before that
    /// last call.
    pub fn create_room(&mut self, data: CreateRoomDto, user_id: i32) -> (r: Result<RoomResponse, RoomError>)
        ensures
            final(self).same_stores(*old(self)),
            forall|k: int| old(self).rooms().calls().len() <= k < final(self).rooms().calls().len() ==> match #[trigger] final(self).rooms().calls()[k] {
                RoomCall::CreateRoomWithMember(row, _, _, _) => row.title == data.title && row.type_ == data.room_type.code()
                    && row.capacity == data.capacity && row.streaming_protocol == Some(data.streaming_protocol.code())
                    && row.status == RoomStatusEnum::Active.code() && is_room_code(row.code@),
                RoomCall::ExistsCode(code, _) => is_room_code(code),
                _ => false,
            },
            exists|found: Result<User, UserError>| #[trigger] old(self).users().repository().answers_get_user_by_id(user_id, found) && {
                &&& final(self).users().calls() == old(self).users().calls().push(UserCall::GetUserById(user_id, found))
                &&& match found {
                    Err(_) => (r matches Err(e) && is_room_unexpected(e, "User not found"@))
                        && final(self).rooms().calls() == old(self).rooms().calls(),
                    Ok(user) => exists|h: Result<Option<String>, RoomError>| #[trigger] room_hash_outcome(data.password, h) && match h {
                        Err(e) => r == Err::<RoomResponse, RoomError>(e) && final(self).rooms().calls() == old(self).rooms().calls(),
                        Ok(hashed) => exists|log: Seq<RoomCall>, g: Result<String, RoomError>| #[trigger] code_search(log, 10, g) && match g {
                            Err(e) => r == Err::<RoomResponse, RoomError>(e) && final(self).rooms().calls() == old(self).rooms().calls() + log,
                            Ok(code) => exists|now: i64| final(self).rooms().calls() == (old(self).rooms().calls() + log).push(
                                RoomCall::CreateRoomWithMember(#[trigger] room_row(data, hashed, code, now), user, now, r)),
                        },
                    },
                }
            },
    {
        let found = self.users.get_user_by_id(user_id);
        assert(old(self).users().repository().answers_get_user_by_id(user_id, found));
        let user = match require_room_user(found) {
            Err(e) => { return Err(e); },
            Ok(user) => user,
        };
        let h = hash_room_password(&data.password);
        assert(room_hash_outcome(data.password, h));
        let password_hashed = match h {
            Err(e) => { return Err(e); },
            Ok(hashed) => hashed,
        };
        let ghost before = self.rooms.calls();
        let g = self.generate_unique_room_code(10);
        let ghost log = choose|log: Seq<RoomCall>| self.rooms.calls() == before + log && #[trigger] code_search(log, 10, g);
        proof {
            assert forall|k: int| before.len() <= k < self.rooms.calls().len() implies match #[trigger] self.rooms.calls()[k] {
                RoomCall::ExistsCode(code, _) => is_room_code(code),
                _ => false,
            } by {
                assert(self.rooms.calls()[k] == log[k - before.len()]);
                assert(is_code_check(log[k - before.len()]));
            }
        }
        let code = match g {
            Err(e) => { return Err(e); },
            Ok(code) => code,
        };
        let ghost searched = self.rooms.calls();
        let ghost hashed = password_hashed;
        let ghost drawn = code;
        let ghost owner = user;
        let now = now_micros();
        let row = new_room(&data, password_hashed, code, now);
        assert(row == room_row(data, hashed, drawn, now));
        let r = self.rooms.create_room_with_member(row, user, now);
        assert(self.rooms.calls() == (before + log).push(RoomCall::CreateRoomWithMember(room_row(data, hashed, drawn, now), owner, now, r)));
        proof {
            assert forall|k: int| before.len() <= k < self.rooms.calls().len() - 1 implies self.rooms.calls()[k] == searched[k] by {}
            assert(log.len() > 0);
            assert(is_code_check(log[log.len() - 1]));
            assert(log.last() == log[log.len() - 1]);
            assert(is_room_code(drawn@));
        }
        r
    }

    /// Updates a room's settings on behalf of its owner: the room is looked up, the update
    /// decided, and the store's answer to storing it is the answer. A refused update writes
    /// nothing.
    pub fn update_room(&mut self, data: UpdateRoomDto, room_id: i32, user_id: i32) -> (r: Result<RoomResponse, RoomError>)
        ensures
            final(self).same_stores(*old(self)),
            final(self).users().calls() == old(self).users().calls(),
            exists|found: Result<RoomResponse, RoomError>| #[trigger] old(self).rooms().repository().answers_get_room_by_id(room_id, found) && {
                let looked_up = old(self).rooms().calls().push(RoomCall::GetRoomById(room_id, found));
                match found {
                    Err(e) => r == Err::<RoomResponse, RoomError>(e) && final(self).rooms().calls() == looked_up,
                    Ok(room) => exists|u: Result<Room, RoomError>| #[trigger] room_update_outcome(room, user_id, data, u) && match u {
                        Err(e) => r == Err::<RoomResponse, RoomError>(e) && final(self).rooms().calls() == looked_up,
                        Ok(row) => final(self).rooms().calls() == looked_up.push(RoomCall::UpdateRoom(row, r)),
                    },
                }
            },
    {
        let found = self.rooms.get_room_by_id(room_id);
        assert(old(self).rooms().repository().answers_get_room_by_id(room_id, found));
        match found {
            Err(e) => Err(e),
            Ok(room) => {
                let ghost before = room;
                let u = updated_room(room, user_id, data);
                assert(room_update_outcome(before, user_id, data, u));
                match u {
                    Err(e) => Err(e),
                    Ok(row) => self.rooms.update_room(row),
                }
            },
        }
    }

    /// The rooms of a user with a status; a number that names no status lists the active ones.
    pub fn get_rooms_by_status(&mut self, room_status: i32, user_id: i32, pagination_dto: crate::dtos::PaginationDto) -> (r: Result<Vec<RoomResponse>, RoomError>)
        ensures
            final(self).same_stores(*old(self)),
            final(self).users().calls() == old(self).users().calls(),
            final(self).rooms().calls() == old(self).rooms().calls().push(
                RoomCall::FindAll(user_id, listed_status(room_status), pagination_dto.skip, pagination_dto.limit, r)),
    {
        let status = room_status_or_active(room_status);
        self.rooms.find_all(user_id, status, pagination_dto.skip, pagination_dto.limit)
    }

    /// The store's answer for the room with this id.
    pub fn get_room_by_id(&mut self, room_id: i32) -> (r: Result<RoomResponse, RoomError>)
        ensures
            final(self).same_stores(*old(self)),
            final(self).users().calls() == old(self).users().calls(),
            final(self).rooms().calls() == old(self).rooms().calls().push(RoomCall::GetRoomById(room_id, r)),
    {
        self.rooms.get_room_by_id(room_id)
    }

    /// The store's answer for the room with this code.
    pub fn get_room_by_code(&mut self, room_code: &str) -> (r: Result<RoomResponse, RoomError>)
        ensures
            final(self).same_stores(*old(self)),
            final(self).users().calls() == old(self).users().calls(),
            final(self).rooms().calls() == old(self).rooms().calls().push(RoomCall::GetRoomByCode(room_code@, r)),
    {
        self.rooms.get_room_by_code(room_code)
    }

    /// A member leaves a room; the owner may not. Once the store deleted the membership, the
    /// answer is the room without the user. A refused request deletes nothing.
    pub fn leave_room(&mut self, room_id: i32, user_id: i32) -> (r: Result<RoomResponse, RoomError>)
        ensures
            final(self).same_stores(*old(self)),
            final(self).users().calls() == old(self).users().calls(),
            r matches Ok(room) ==> !has_member(room.members@, user_id),
            exists|found: Result<RoomResponse, RoomError>| #[trigger] old(self).rooms().repository().answers_get_room_by_id(room_id, found) && {
                let looked_up = old(self).rooms().calls().push(RoomCall::GetRoomById(room_id, found));
                match found {
                    Err(e) => r == Err::<RoomResponse, RoomError>(e) && final(self).rooms().calls() == looked_up,
                    Ok(room) => exists|m: Result<i32, RoomError>| #[trigger] leave_outcome(room, user_id, m) && match m {
                        Err(e) => r == Err::<RoomResponse, RoomError>(e) && final(self).rooms().calls() == looked_up,
                        Ok(member_id) => exists|d: Result<(), RoomError>|
                            #[trigger] old(self).rooms().repository().answers_delete_member_by_id(member_id, d)
                            && final(self).rooms().calls() == looked_up.push(RoomCall::DeleteMemberById(member_id, d)) && match d {
                            Err(e) => r == Err::<RoomResponse, RoomError>(e),
                            Ok(_) => r matches Ok(x) && is_without(room, user_id, x),
                        },
                    },
                }
            },
    {
        let found = self.rooms.get_room_by_id(room_id);
        assert(old(self).rooms().repository().answers_get_room_by_id(room_id, found));
        let room = match found {
            Err(e) => { return Err(e); },
            Ok(room) => room,
        };
        let m = leaving_member(&room, user_id);
        assert(leave_outcome(room, user_id, m));
        let member_id = match m {
            Err(e) => { return Err(e); },
            Ok(id) => id,
        };
        let d = self.rooms.delete_member_by_id(member_id);
        assert(old(self).rooms().repository().answers_delete_member_by_id(member_id, d));
        if let Err(e) = d {
            return Err(e);
        }
        proof { lemma_filter_drops_user(room.members@.filter(other_user(user_id)), user_id); }
        let ghost before = room;
        let left = without_member(room, user_id);
        assert(is_without(before, user_id, left));
        Ok(left)
    }

    /// A user joins the call of a room: the user must exist, and a non-member needs space and
    /// the password. The store inserts the participant, and the answer lists it last, after the
    /// participants served by a node. A refused request inserts nothing.
    pub fn join_room(&mut self, user_id: i32, room_id: i32, password: Option<&str>) -> (r: Result<RoomResponse, RoomError>)
        ensures
            final(self).same_stores(*old(self)),
            r matches Ok(room) ==> room.participants@.len() >= 1 && forall|i: int|
                0 <= i < room.participants@.len() - 1 ==> (#[trigger] room.participants@[i]).participant.node_id is Some,
            exists|found: Result<User, UserError>| #[trigger] old(self).users().repository().answers_get_user_by_id(user_id, found) && {
                &&& final(self).users().calls() == old(self).users().calls().push(UserCall::GetUserById(user_id, found))
                &&& match found {
                    Err(_) => (r matches Err(e) && is_room_unexpected(e, "User not found"@))
                        && final(self).rooms().calls() == old(self).rooms().calls(),
                    Ok(_) => exists|got: Result<RoomResponse, RoomError>| #[trigger] old(self).rooms().repository().answers_get_room_by_id(room_id, got) && {
                        let looked_up = old(self).rooms().calls().push(RoomCall::GetRoomById(room_id, got));
                        match got {
                            Err(e) => r == Err::<RoomResponse, RoomError>(e) && final(self).rooms().calls() == looked_up,
                            Ok(room) => match join_verdict(room, user_id, password) {
                                Err(e) => r == Err::<RoomResponse, RoomError>(e) && final(self).rooms().calls() == looked_up,
                                Ok(_) => exists|now: i64, p: Result<ParticipantResponse, RoomError>|
                                    #[trigger] old(self).rooms().repository().answers_create_participant(participant_row(user_id, room.room.id, now), p)
                                    && final(self).rooms().calls() == looked_up.push(RoomCall::CreateParticipant(participant_row(user_id, room.room.id, now), p))
                                    && match p {
                                        Err(e) => r == Err::<RoomResponse, RoomError>(e),
                                        Ok(part) => r matches Ok(x) && is_joined(room, part, x),
                                    },
                            },
                        }
                    },
                }
            },
    {
        let found = self.users.get_user_by_id(user_id);
        assert(old(self).users().repository().answers_get_user_by_id(user_id, found));
        if let Err(e) = require_room_user(found) {
            return Err(e);
        }
        let got = self.rooms.get_room_by_id(room_id);
        assert(old(self).rooms().repository().answers_get_room_by_id(room_id, got));
        let room = match got {
            Err(e) => { return Err(e); },
            Ok(room) => room,
        };
        if let Err(e) = join_admission(&room, user_id, password) {
            return Err(e);
        }
        let now = now_micros();
        let row = new_participant(user_id, room.room.id, now);
        let p = self.rooms.create_participant(row);
        assert(old(self).rooms().repository().answers_create_participant(participant_row(user_id, room.room.id, now), p));
        let participant = match p {
            Err(e) => { return Err(e); },
            Ok(part) => part,
        };
        let ghost before = room;
        let ghost part = participant;
        let room = with_participant(room, participant);
        assert(is_joined(before, part, room));
        proof {
            let kept = room.participants@.drop_last();
            assert forall|i: int| 0 <= i < room.participants@.len() - 1 implies (#[trigger] room.participants@[i]).participant.node_id is Some by {
                assert(room.participants@[i] == kept[i]);
                assert(kept.contains(kept[i]));
            }
        }
        Ok(room)
    }

    /// An owner adds a user as an attendee; the store inserts the membership and the answer
    /// lists it last. A refused request inserts nothing.
    pub fn add_member(&mut self, room_id: i32, host_id: i32, user_id: i32) -> (r: Result<RoomResponse, RoomError>)
        ensures
            final(self).same_stores(*old(self)),
            forall|k: int| old(self).rooms().calls().len() <= k < final(self).rooms().calls().len() ==> match #[trigger] final(self).rooms().calls()[k] {
                RoomCall::CreateMember(row, _) => row.role == MembersRoleEnum::Attendee.code() && row.role != MembersRoleEnum::Owner.code()
                    && row.user_id == Some(user_id),
                RoomCall::GetRoomById(id, _) => id == room_id,
                _ => false,
            },
            exists|found: Result<RoomResponse, RoomError>| #[trigger] old(self).rooms().repository().answers_get_room_by_id(room_id, found) && {
                let looked_up = old(self).rooms().calls().push(RoomCall::GetRoomById(room_id, found));
                match found {
                    Err(e) => r == Err::<RoomResponse, RoomError>(e) && final(self).rooms().calls() == looked_up
                        && final(self).users().calls() == old(self).users().calls(),
                    Ok(room) => exists|a: Result<(), RoomError>| #[trigger] admission_outcome(room, host_id, user_id, a) && match a {
                        Err(e) => r == Err::<RoomResponse, RoomError>(e) && final(self).rooms().calls() == looked_up
                            && final(self).users().calls() == old(self).users().calls(),
                        Ok(_) => exists|now: i64, m: Result<MemberResponse, RoomError>|
                            #[trigger] old(self).rooms().repository().answers_create_member(attendee_row(room.room.id, user_id, now), m)
                            && user_looked_up(old(self).users().calls(), user_id, final(self).users().calls())
                            && final(self).rooms().calls() == looked_up.push(RoomCall::CreateMember(attendee_row(room.room.id, user_id, now), m))
                            && match m {
                                Err(e) => r == Err::<RoomResponse, RoomError>(e),
                                Ok(member) => r matches Ok(x) && is_with_member(room, member, x),
                            },
                    },
                }
            },
    {
        let found = self.rooms.get_room_by_id(room_id);
        assert(old(self).rooms().repository().answers_get_room_by_id(room_id, found));
        let room = match found {
            Err(e) => { return Err(e); },
            Ok(room) => room,
        };
        let a = member_admission(&room, host_id, user_id);
        assert(admission_outcome(room, host_id, user_id, a));
        if let Err(e) = a {
            return Err(e);
        }
        let _ = self.users.get_user_by_id(user_id);
        let now = now_micros();
        let row = new_attendee(room.room.id, user_id, now);
        let m = self.rooms.create_member(row);
        assert(old(self).rooms().repository().answers_create_member(attendee_row(room.room.id, user_id, now), m));
        let member = match m {
            Err(e) => { return Err(e); },
            Ok(member) => member,
        };
        let ghost before = room;
        let ghost added = member;
        let room = with_member(room, member);
        assert(is_with_member(before, added, room));
        Ok(room)
    }

    /// An owner removes a member. Once the store deleted the membership, the answer is the
    /// room without the user. A refused request deletes nothing.
    pub fn remove_member(&mut self, room_id: i32, host_id: i32, user_id: i32) -> (r: Result<RoomResponse, RoomError>)
        ensures
            final(self).same_stores(*old(self)),
            final(self).users().calls() == old(self).users().calls(),
            r matches Ok(room) ==> !has_member(room.members@, user_id),
            exists|found: Result<RoomResponse, RoomError>| #[trigger] old(self).rooms().repository().answers_get_room_by_id(room_id, found) && {
                let looked_up = old(self).rooms().calls().push(RoomCall::GetRoomById(room_id, found));
                match found {
                    Err(e) => r == Err::<RoomResponse, RoomError>(e) && final(self).rooms().calls() == looked_up,
                    Ok(room) => exists|m: Result<i32, RoomError>| #[trigger] removal_outcome(room, host_id, user_id, m) && match m {
                        Err(e) => r == Err::<RoomResponse, RoomError>(e) && final(self).rooms().calls() == looked_up,
                        Ok(member_id) => exists|d: Result<(), RoomError>|
                            #[trigger] old(self).rooms().repository().answers_delete_member_by_id(member_id, d)
                            && final(self).rooms().calls() == looked_up.push(RoomCall::DeleteMemberById(member_id, d)) && match d {
                            Err(e) => r == Err::<RoomResponse, RoomError>(e),
                            Ok(_) => r matches Ok(x) && is_without(room, user_id, x),
                        },
                    },
                }
            },
    {
        let found = self.rooms.get_room_by_id(room_id);
        assert(old(self).rooms().repository().answers_get_room_by_id(room_id, found));
        let room = match found {
            Err(e) => { return Err(e); },
            Ok(room) => room,
        };
        let m = removed_member(&room, host_id, user_id);
        assert(removal_outcome(room, host_id, user_id, m));
        let member_id = match m {
            Err(e) => { return Err(e); },
            Ok(id) => id,
        };
        let d = self.rooms.delete_member_by_id(member_id);
        assert(old(self).rooms().repository().answers_delete_member_by_id(member_id, d));
        if let Err(e) = d {
            return Err(e);
        }
        proof { lemma_filter_drops_user(room.members@.filter(other_user(user_id)), user_id); }
        let ghost before = room;
        let left = without_member(room, user_id);
        assert(is_without(before, user_id, left));
        Ok(left)
    }

    /// The owner deactivates a room; the store's answer to storing it inactive is the answer.
    /// A refused request writes nothing.
    pub fn deactivate_room(&mut self, room_id: i32, user_id: i32) -> (r: Result<RoomResponse, RoomError>)
        ensures
            final(self).same_stores(*old(self)),
            final(self).users().calls() == old(self).users().calls(),
            exists|found: Result<RoomResponse, RoomError>| #[trigger] old(self).rooms().repository().answers_get_room_by_id(room_id, found) && {
                let looked_up = old(self).rooms().calls().push(RoomCall::GetRoomById(room_id, found));
                match found {
                    Err(e) => r == Err::<RoomResponse, RoomError>(e) && final(self).rooms().calls() == looked_up,
                    Ok(room) => exists|u: Result<Room, RoomError>| #[trigger] deactivation_outcome(room, user_id, u) && match u {
                        Err(e) => r == Err::<RoomResponse, RoomError>(e) && final(self).rooms().calls() == looked_up,
                        Ok(row) => final(self).rooms().calls() == looked_up.push(RoomCall::UpdateRoom(row, r)),
                    },
                }
            },
    {
        let found = self.rooms.get_room_by_id(room_id);
        assert(old(self).rooms().repository().answers_get_room_by_id(room_id, found));
        match found {
            Err(e) => Err(e),
            Ok(room) => {
                let ghost before = room;
                let u = deactivated(room, user_id);
                assert(deactivation_outcome(before, user_id, u));
                match u {
                    Err(e) => Err(e),
                    Ok(row) => self.rooms.update_room(row),
                }
            },
        }
    }

    /// Records the media node that serves a participant: the participant is looked up and
    /// stored again with the node.
    pub fn update_participant(&mut self, participant_id: i32, node_id: &str) -> (r: Result<ParticipantResponse, RoomError>)
        ensures
            final(self).same_stores(*old(self)),
            final(self).users().calls() == old(self).users().calls(),
            exists|found: Result<ParticipantResponse, RoomError>| #[trigger] old(self).rooms().repository().answers_get_participant_by_id(participant_id, found) && {
                let looked_up = old(self).rooms().calls().push(RoomCall::GetParticipantById(participant_id, found));
                match found {
                    Err(e) => r == Err::<ParticipantResponse, RoomError>(e) && final(self).rooms().calls() == looked_up,
                    Ok(p) => exists|q: Participant| #[trigger] is_on_node(p.participant, node_id@, q)
                        && final(self).rooms().calls() == looked_up.push(RoomCall::UpdateParticipant(q, r)),
                }
            },
    {
        let found = self.rooms.get_participant_by_id(participant_id);
        assert(old(self).rooms().repository().answers_get_participant_by_id(participant_id, found));
        match found {
            Err(e) => Err(e),
            Ok(p) => {
                let q = with_node(p.participant, node_id);
                self.rooms.update_participant(q)
            },
        }
    }

    /// Deletes a participant; the store's answer is the answer.
    pub fn delete_participant(&mut self, participant_id: i32) -> (r: Result<(), RoomError>)
        ensures
            final(self).same_stores(*old(self)),
            final(self).users().calls() == old(self).users().calls(),
            final(self).rooms().calls() == old(self).rooms().calls().push(RoomCall::DeleteParticipantById(participant_id, r)),
    {
        self.rooms.delete_participant_by_id(participant_id)
    }

    /// Deletes the participants a node serves; the store's answer is the answer.
    pub fn delete_participants_by_node(&mut self, node_id: &str) -> (r: Result<(), RoomError>)
        ensures
            final(self).same_stores(*old(self)),
            final(self).users().calls() == old(self).users().calls(),
            final(self).rooms().calls() == old(self).rooms().calls().push(RoomCall::DeleteParticipantsByNode(node_id@, r)),
    {
        self.rooms.delete_participants_by_node(node_id)
    }

    /// Draws room codes and asks the store whether each is taken, at most `max_attempts`
    /// times: the first code answered free is the answer, a failed check stops the search, and
    /// when every code drawn was taken the search fails.
    pub fn generate_unique_room_code(&mut self, max_attempts: usize) -> (r: Result<String, RoomError>)
        ensures
            final(self).same_stores(*old(self)),
            final(self).users().calls() == old(self).users().calls(),
            exists|log: Seq<RoomCall>| final(self).rooms().calls() == old(self).rooms().calls() + log
                && #[trigger] code_search(log, max_attempts as int, r),
    {
        let ghost start = self.rooms.calls();
        let mut attempt: usize = 0;
        while attempt < max_attempts
            invariant
                attempt <= max_attempts,
                self.same_stores(*old(self)),
                self.users().calls() == old(self).users().calls(),
                start == old(self).rooms().calls(),
                self.rooms.calls().len() == start.len() + attempt,
                self.rooms.calls().subrange(0, start.len() as int) == start,
                forall|i: int| start.len() <= i < self.rooms.calls().len() ==> #[trigger] is_code_check(self.rooms.calls()[i]),
                forall|i: int| start.len() <= i < self.rooms.calls().len() ==> #[trigger] answered_taken(self.rooms.calls()[i]),
            decreases max_attempts - attempt,
        {
            let ghost prior = self.rooms.calls();
            let code = generate_room_code();
            let answer = self.rooms.exists_code(code.as_str());
            assert(self.rooms.calls().subrange(0, start.len() as int) =~= prior.subrange(0, start.len() as int));
            assert(self.rooms.calls()[prior.len() as int] == RoomCall::ExistsCode(code@, answer));
            match check_room_code(answer) {
                Err(e) => {
                    proof { self.lemma_search_ends(start, attempt as int, max_attempts as int, Err(e)); }
                    return Err(e);
                },
                Ok(taken) => {
                    if !taken {
                        proof { self.lemma_search_ends(start, attempt as int, max_attempts as int, Ok(code)); }
                        return Ok(code);
                    }
                },
            }
            attempt = attempt + 1;
        }
        let r = Err(room_unexpected("Failed to generate unique room code"));
        proof {
            let log = self.rooms.calls().subrange(start.len() as int, self.rooms.calls().len() as int);
            assert(self.rooms.calls() =~= start + log);
            assert forall|i: int| 0 <= i < log.len() implies #[trigger] is_code_check(log[i]) && answered_taken(log[i]) by {
                assert(log[i] == self.rooms.calls()[start.len() + i]);
            }
            assert(code_search(log, max_attempts as int, r));
        }
        r
    }

    /// Once a check ended the search (answered free, or failed), the calls since `start` are a
    /// search that gives `r`.
    proof fn lemma_search_ends(&self, start: Seq<RoomCall>, attempt: int, max_attempts: int, r: Result<String, RoomError>)
        requires
            0 <= attempt < max_attempts,
            self.rooms.calls().len() == start.len() + attempt + 1,
            self.rooms.calls().subrange(0, start.len() as int) == start,
            forall|i: int| start.len() <= i < start.len() + attempt ==> #[trigger] is_code_check(self.rooms.calls()[i]),
            forall|i: int| start.len() <= i < start.len() + attempt ==> #[trigger] answered_taken(self.rooms.calls()[i]),
            self.rooms.calls().last() matches RoomCall::ExistsCode(code, answer) && is_room_code(code) && match answer {
                Ok(true) => false,
                Ok(false) => r matches Ok(c) && c@ == code,
                Err(_) => r matches Err(e) && is_room_unexpected(e, "Failed to check room code"@),
            },
        ensures
            exists|log: Seq<RoomCall>| self.rooms.calls() == start + log && #[trigger] code_search(log, max_attempts, r),
    {
        let calls = self.rooms.calls();
        let log = calls.subrange(start.len() as int, calls.len() as int);
        assert forall|i: int| 0 <= i < start.len() implies calls[i] == start[i] by {
            assert(calls.subrange(0, start.len() as int)[i] == calls[i]);
        }
        assert(calls =~= start + log);
        assert(log.last() == calls[calls.len() - 1]);
        assert forall|i: int| 0 <= i < log.len() implies #[trigger] is_code_check(log[i]) by {
            assert(log[i] == calls[start.len() + i]);
        }
        assert forall|i: int| 0 <= i < log.len() - 1 implies #[trigger] answered_taken(log[i]) by {
            assert(log[i] == calls[start.len() + i]);
        }
        assert(code_search(log, max_attempts, r));
    }
}

/// A user who joins a call becomes an active participant of that room.
pub proof fn law_joining_user_is_an_active_participant(user_id: i32, room_id: i32, now: i64)
    ensures
        participant_row(user_id, room_id, now).user_id == Some(user_id),
        participant_row(user_id, room_id, now).room_id == room_id,
        participant_row(user_id, room_id, now).status == ParticipantsStatusEnum::Active.code(),
{
}

/// A created room is the room asked for: its title, type, capacity and streaming protocol are
/// the requested ones, it is active, and it keeps the password and code it is given.
pub proof fn law_created_room_is_as_requested(data: CreateRoomDto, password: Option<String>, code: String, now: i64)
    ensures
        room_row(data, password, code, now).title == data.title,
        room_row(data, password, code, now).type_ == data.room_type.code(),
        room_row(data, password, code, now).capacity == data.capacity,
        room_row(data, password, code, now).streaming_protocol == Some(data.streaming_protocol.code()),
        room_row(data, password, code, now).status == RoomStatusEnum::Active.code(),
        room_row(data, password, code, now).password == password,
        room_row(data, password, code, now).code == code,
{
}

/// A member an owner adds is an attendee, never an owner, and is the user asked for.
pub proof fn law_added_member_is_an_attendee(room_id: i32, user_id: i32, now: i64)
    ensures
        attendee_row(room_id, user_id, now).role == MembersRoleEnum::Attendee.code(),
        attendee_row(room_id, user_id, now).role != MembersRoleEnum::Owner.code(),
        attendee_row(room_id, user_id, now).user_id == Some(user_id),
        attendee_row(room_id, user_id, now).room_id == room_id,
{
}

/// Adding a user who was no member and then removing that user gives back the members
/// there were, in their order.
pub proof fn lemma_add_then_remove_member(members: Seq<MemberResponse>, added: MemberResponse, user_id: i32)
    requires
        !has_member(members, user_id),
        added.member.user_id == user_id,
    ensures
        members.push(added).filter(other_user(user_id)) == members,
{
    members.lemma_filter_push(added, other_user(user_id));
    lemma_filter_keeps_all(members, user_id);
}

/// When `user_id` holds no membership, dropping that user's memberships changes nothing.
pub proof fn lemma_filter_keeps_all(members: Seq<MemberResponse>, user_id: i32)
    requires
        !has_member(members, user_id),
    ensures
        members.filter(other_user(user_id)) == members,
    decreases members.len(),
{
    reveal(Seq::filter);
    if members.len() > 0 {
        let prefix = members.drop_last();
        assert(!has_member(prefix, user_id)) by {
            if has_member(prefix, user_id) {
                let i = choose|i: int| 0 <= i < prefix.len() && (#[trigger] prefix[i]).member.user_id == user_id;
                assert(members[i] == prefix[i]);
            }
        }
        lemma_filter_keeps_all(prefix, user_id);
        assert(members.last().member.user_id != user_id) by {
            assert(members[members.len() - 1] == members.last());
        }
        assert(prefix.push(members.last()) =~= members);
    }
}

/// A member is always let into the call of their room, whatever the capacity or password.
pub proof fn lemma_members_always_join(room: RoomResponse, user_id: i32, password: Option<&str>)
    requires
        has_member(room.members@, user_id),
    ensures
        join_verdict(room, user_id, password) == Ok::<(), RoomError>(()),
{
}

/// No membership of `user_id` survives the filter that drops that user's memberships.
pub proof fn lemma_filter_drops_user(members: Seq<MemberResponse>, user_id: i32)
    requires
        exists|s: Seq<MemberResponse>| members == s.filter(other_user(user_id)),
    ensures
        !has_member(members, user_id),
{
    let s = choose|s: Seq<MemberResponse>| members == s.filter(other_user(user_id));
    if has_member(members, user_id) {
        let i = choose|i: int| 0 <= i < members.len() && (#[trigger] members[i]).member.user_id == user_id;
        s.lemma_filter_pred(other_user(user_id), i);
    }
}

} // verus!
