//! Meetings: creating and updating them, joining their calls, inviting and removing members.
//!
//! Each operation of `MeetingServiceImpl` reads and writes through the repositories and
//! takes its decisions in the public functions beside it, which carry exact contracts.
use vstd::prelude::*;
use crate::dtos::{CreateMeetingDto, PaginationDto, UpdateMeetingDto};
use crate::errors::GeneralError;
use crate::meetings::errors::{is_meeting_unexpected, meeting_unexpected, MeetingError};
use crate::meetings::models::{Meeting, MeetingsStatusEnum, Member, MembersRoleEnum, MembersStatusEnum, NewMeeting, NewMember, NewParticipant, ParticipantsStatusEnum, User};
use crate::meetings::repositories::{MeetingCall, MeetingRepository, MeetingStore, UserCall, UserRepository, UserStore};
use crate::meetings::responses::{MeetingResponse, MemberResponse, ParticipantResponse};
use crate::outside::{bcrypt_verify_outcome, now_micros};
use crate::utils::{hash_password, verify_password};

verus! {

pub open spec fn has_member(members: Seq<MemberResponse>, user_id: i32) -> bool {
    exists|i: int| 0 <= i < members.len() && (#[trigger] members[i]).member.user_id == Some(user_id)
}

pub open spec fn is_host_in(members: Seq<MemberResponse>, user_id: i32) -> bool {
    exists|i: int|
        0 <= i < members.len() && (#[trigger] members[i]).member.user_id == Some(user_id)
            && members[i].member.role == MembersRoleEnum::Host.code()
}

/// `user_id` is a member who accepted the invitation (any status but inviting).
pub open spec fn is_accepted_in(members: Seq<MemberResponse>, user_id: i32) -> bool {
    exists|i: int|
        0 <= i < members.len() && (#[trigger] members[i]).member.user_id == Some(user_id)
            && members[i].member.status != MembersStatusEnum::Inviting.code()
}

/// `i` is the first position of a membership of `user_id`.
pub open spec fn first_member_at(members: Seq<MemberResponse>, user_id: i32, i: int) -> bool {
    &&& 0 <= i < members.len()
    &&& members[i].member.user_id == Some(user_id)
    &&& forall|j: int| 0 <= j < i ==> (#[trigger] members[j]).member.user_id != Some(user_id)
}

pub open spec fn is_invitation_of(m: MemberResponse, user_id: i32) -> bool {
    m.member.user_id == Some(user_id) && m.member.status == MembersStatusEnum::Inviting.code()
}

/// `i` is the first position of a pending invitation of `user_id`.
pub open spec fn first_invitation_at(members: Seq<MemberResponse>, user_id: i32, i: int) -> bool {
    &&& 0 <= i < members.len()
    &&& is_invitation_of(members[i], user_id)
    &&& forall|j: int| 0 <= j < i ==> !is_invitation_of(#[trigger] members[j], user_id)
}

pub open spec fn has_invitation(members: Seq<MemberResponse>, user_id: i32) -> bool {
    exists|i: int| 0 <= i < members.len() && is_invitation_of(#[trigger] members[i], user_id)
}

pub open spec fn other_user(user_id: i32) -> spec_fn(MemberResponse) -> bool {
    |m: MemberResponse| m.member.user_id != Some(user_id)
}

/// A participant whose socket is attached to a CCU.
pub open spec fn attached() -> spec_fn(ParticipantResponse) -> bool {
    |p: ParticipantResponse| p.participant.ccu_id is Some
}

/// Whether `r` is what hashing a meeting password gives: a bcrypt hash of it, or an
/// unexpected error.
pub open spec fn hash_outcome(password: Seq<char>, r: Result<String, MeetingError>) -> bool {
    match r {
        Ok(h) => bcrypt_verify_outcome(password, h@) == Some(true),
        Err(e) => is_meeting_unexpected(e, "Failed to hash password"@),
    }
}

/// The row of a new, active meeting created at `now`.
pub open spec fn meeting_row(data: CreateMeetingDto, password: String, code: i32, now: i64) -> NewMeeting {
    NewMeeting {
        title: data.title,
        password,
        code,
        status: MeetingsStatusEnum::Active.code(),
        created_at: now,
        updated_at: now,
        latest_message_created_at: now,
    }
}

/// The membership row of a meeting's creator: a host who has joined.
pub open spec fn host_row(meeting_id: i32, user_id: i32, now: i64) -> NewMember {
    NewMember {
        meeting_id,
        user_id: Some(user_id),
        status: MembersStatusEnum::Joined.code(),
        role: MembersRoleEnum::Host.code(),
        created_at: now,
    }
}

/// The membership row of an invited attendee.
pub open spec fn invitee_row(meeting_id: i32, user_id: i32, now: i64) -> NewMember {
    NewMember {
        meeting_id,
        user_id: Some(user_id),
        status: MembersStatusEnum::Inviting.code(),
        role: MembersRoleEnum::Attendee.code(),
        created_at: now,
    }
}

/// The row of a participant who joins at `now`, not yet attached to a CCU.
pub open spec fn participant_row(user_id: i32, meeting_id: i32, now: i64) -> NewParticipant {
    NewParticipant {
        user_id: Some(user_id),
        meeting_id,
        status: ParticipantsStatusEnum::Active.code(),
        created_at: now,
        ccu_id: None,
    }
}

/// `x` is `meeting` with `member` as its only member.
pub open spec fn is_with_only_member(meeting: MeetingResponse, member: MemberResponse, x: MeetingResponse) -> bool {
    &&& x.meeting == meeting.meeting
    &&& x.members@ == seq![member]
    &&& x.participants@ == meeting.participants@
    &&& x.latest_message == meeting.latest_message
}

/// `x` is `meeting` without any membership of `user_id`.
pub open spec fn is_without(meeting: MeetingResponse, user_id: i32, x: MeetingResponse) -> bool {
    &&& x.meeting == meeting.meeting
    &&& x.members@ == meeting.members@.filter(other_user(user_id))
    &&& x.participants@ == meeting.participants@
    &&& x.latest_message == meeting.latest_message
}

/// `x` is `meeting` once `participant` joined its call: participants not attached to a CCU
/// are dropped and the new one comes last.
pub open spec fn is_joined(meeting: MeetingResponse, participant: ParticipantResponse, x: MeetingResponse) -> bool {
    &&& x.meeting == meeting.meeting
    &&& x.members@ == meeting.members@
    &&& x.participants@ == meeting.participants@.filter(attached()).push(participant)
    &&& x.latest_message == meeting.latest_message
}

/// `x` is `meeting` with `member` added at the end.
pub open spec fn is_with_member(meeting: MeetingResponse, member: MemberResponse, x: MeetingResponse) -> bool {
    &&& x.meeting == meeting.meeting
    &&& x.members@ == meeting.members@.push(member)
    &&& x.participants@ == meeting.participants@
    &&& x.latest_message == meeting.latest_message
}

/// `x` is `meeting` with the membership at position `i` replaced by `member`.
pub open spec fn is_with_member_at(meeting: MeetingResponse, i: int, member: MemberResponse, x: MeetingResponse) -> bool {
    &&& x.meeting == meeting.meeting
    &&& x.members@ == meeting.members@.update(i, member)
    &&& x.participants@ == meeting.participants@
    &&& x.latest_message == meeting.latest_message
}

/// What a host's update of a meeting decides: only a host may update, and a given password
/// is stored hashed.
pub open spec fn meeting_update_outcome(meeting: MeetingResponse, user_id: i32, data: UpdateMeetingDto, r: Result<Meeting, MeetingError>) -> bool {
    &&& !is_host_in(meeting.members@, user_id) <==> r == Err::<Meeting, MeetingError>(MeetingError::YouDontHavePermissions)
    &&& r matches Err(e) ==> e == MeetingError::YouDontHavePermissions || (data.password is Some
        && is_meeting_unexpected(e, "Failed to hash password"@))
    &&& r matches Ok(u) ==> {
        &&& u.title == match data.title { Some(t) => t, None => meeting.meeting.title }
        &&& match data.password {
            Some(p) => bcrypt_verify_outcome(p@, u.password@) == Some(true),
            None => u.password == meeting.meeting.password,
        }
        &&& u.avatar == match data.avatar { Some(a) => Some(a), None => meeting.meeting.avatar }
        &&& u == Meeting { title: u.title, password: u.password, avatar: u.avatar, ..meeting.meeting }
    }
}

/// The member status a listing asks for; a number that names none lists joined members.
pub open spec fn listed_member_status(member_status: i32) -> MembersStatusEnum {
    if member_status == 0 {
        MembersStatusEnum::Inviting
    } else if member_status == 1 {
        MembersStatusEnum::Invisible
    } else {
        MembersStatusEnum::Joined
    }
}

/// The meeting status a listing asks for; a number that names none lists active meetings.
pub open spec fn listed_meeting_status(meeting_status: i32) -> MeetingsStatusEnum {
    if meeting_status == 1 { MeetingsStatusEnum::Archived } else { MeetingsStatusEnum::Active }
}

/// What a user's request to leave decides: the membership to delete; a host may not leave.
pub open spec fn leave_outcome(meeting: MeetingResponse, user_id: i32, r: Result<i32, MeetingError>) -> bool {
    &&& !has_member(meeting.members@, user_id) ==> (r matches Err(e) && is_meeting_unexpected(e, "Member not found"@))
    &&& has_member(meeting.members@, user_id) ==> exists|i: int| {
        &&& #[trigger] first_member_at(meeting.members@, user_id, i)
        &&& if meeting.members@[i].member.role == MembersRoleEnum::Host.code() {
            r matches Err(e) && is_meeting_unexpected(
                e,
                "Host not allowed to leave the room. You can archive chats if the room no longer active."@,
            )
        } else {
            r == Ok::<i32, MeetingError>(meeting.members@[i].member.id)
        }
    }
}

/// What entering the call without a password decides: only a member who accepted may.
pub open spec fn entry_outcome(meeting: MeetingResponse, user_id: i32, r: Result<(), MeetingError>) -> bool {
    &&& is_accepted_in(meeting.members@, user_id) <==> r is Ok
    &&& r matches Err(e) ==> is_meeting_unexpected(e, "User is not member in the meeting"@)
}

/// What entering the call with a password decides: it must match the stored hash.
pub open spec fn password_outcome(meeting: MeetingResponse, password: Seq<char>) -> Result<(), MeetingError> {
    if bcrypt_verify_outcome(password, meeting.meeting.password@) == Some(true) {
        Ok::<(), MeetingError>(())
    } else {
        Err(MeetingError::PasswordIncorrect)
    }
}

/// What a host's request to invite `user_id` decides.
pub open spec fn admission_outcome(meeting: MeetingResponse, host_id: i32, user_id: i32, r: Result<(), MeetingError>) -> bool {
    &&& has_member(meeting.members@, user_id) ==> (r matches Err(e) && is_meeting_unexpected(e, "User already in the meeting"@))
    &&& !has_member(meeting.members@, user_id) ==> r == if is_host_in(meeting.members@, host_id) {
        Ok::<(), MeetingError>(())
    } else {
        Err(MeetingError::YouDontHavePermissions)
    }
}

/// What a host's request to remove `user_id` decides: the membership to delete.
pub open spec fn removal_outcome(meeting: MeetingResponse, host_id: i32, user_id: i32, r: Result<i32, MeetingError>) -> bool {
    &&& !has_member(meeting.members@, user_id) ==> (r matches Err(e) && is_meeting_unexpected(e, "Member not found"@))
    &&& has_member(meeting.members@, user_id) && !is_host_in(meeting.members@, host_id)
        ==> r == Err::<i32, MeetingError>(MeetingError::YouDontHavePermissions)
    &&& has_member(meeting.members@, user_id) && is_host_in(meeting.members@, host_id) ==> exists|i: int|
        #[trigger] first_member_at(meeting.members@, user_id, i) && r == Ok::<i32, MeetingError>(meeting.members@[i].member.id)
}

/// What accepting a pending invitation decides: its position and the membership now joined.
pub open spec fn acceptance_outcome(meeting: MeetingResponse, user_id: i32, r: Result<(usize, Member), MeetingError>) -> bool {
    &&& !has_invitation(meeting.members@, user_id) <==> r is Err
    &&& r matches Err(e) ==> is_meeting_unexpected(e, "Member not found"@)
    &&& r matches Ok((i, m)) ==> first_invitation_at(meeting.members@, user_id, i as int)
        && m == (Member { status: MembersStatusEnum::Joined.code(), ..meeting.members@[i as int].member })
}

/// What a request to archive a meeting decides: only a host may.
pub open spec fn archive_outcome(meeting: MeetingResponse, user_id: i32, r: Result<Meeting, MeetingError>) -> bool {
    &&& !has_member(meeting.members@, user_id) ==> (r matches Err(e) && is_meeting_unexpected(e, "Member not found"@))
    &&& has_member(meeting.members@, user_id) ==> exists|i: int| {
        &&& #[trigger] first_member_at(meeting.members@, user_id, i)
        &&& if meeting.members@[i].member.role == MembersRoleEnum::Host.code() {
            r == Ok::<Meeting, MeetingError>(Meeting { status: MeetingsStatusEnum::Archived.code(), ..meeting.meeting })
        } else {
            r == Err::<Meeting, MeetingError>(MeetingError::YouDontHavePermissions)
        }
    }
}

/// Whether `calls` is `before` followed by one lookup of the user `user_id`, whatever its
/// answer.
pub open spec fn user_looked_up(before: Seq<UserCall>, user_id: i32, calls: Seq<UserCall>) -> bool {
    exists|found: Result<User, GeneralError>| calls == #[trigger] before.push(UserCall::GetUserById(user_id, found))
}

/// The first position of a membership of `user_id`, if there is one.
pub fn position_of_member(members: &Vec<MemberResponse>, user_id: i32) -> (r: Option<usize>)
    ensures
        match r {
            Some(i) => first_member_at(members@, user_id, i as int),
            None => !has_member(members@, user_id),
        },
{
    let mut i: usize = 0;
    while i < members.len()
        invariant
            i <= members@.len(),
            forall|j: int| 0 <= j < i ==> (#[trigger] members@[j]).member.user_id != Some(user_id),
        decreases members.len() - i,
    {
        if members[i].member.user_id == Some(user_id) {
            return Some(i);
        }
        i = i + 1;
    }
    None
}

/// Whether `user_id` is a member of the meeting.
pub fn is_member(members: &Vec<MemberResponse>, user_id: i32) -> (r: bool)
    ensures
        r == has_member(members@, user_id),
{
    position_of_member(members, user_id).is_some()
}

/// Whether `user_id` hosts the meeting.
pub fn is_host(members: &Vec<MemberResponse>, user_id: i32) -> (r: bool)
    ensures
        r == is_host_in(members@, user_id),
{
    let host = MembersRoleEnum::Host.to_i32();
    let mut i: usize = 0;
    while i < members.len()
        invariant
            i <= members@.len(),
            host == MembersRoleEnum::Host.code(),
            forall|j: int|
                0 <= j < i ==> !((#[trigger] members@[j]).member.user_id == Some(user_id)
                    && members@[j].member.role == host),
        decreases members.len() - i,
    {
        if members[i].member.user_id == Some(user_id) && members[i].member.role == host {
            return true;
        }
        i = i + 1;
    }
    false
}

/// Whether `user_id` is a member who accepted the invitation.
pub fn is_accepted_member(members: &Vec<MemberResponse>, user_id: i32) -> (r: bool)
    ensures
        r == is_accepted_in(members@, user_id),
{
    let inviting = MembersStatusEnum::Inviting.to_i32();
    let mut i: usize = 0;
    while i < members.len()
        invariant
            i <= members@.len(),
            inviting == MembersStatusEnum::Inviting.code(),
            forall|j: int|
                0 <= j < i ==> !((#[trigger] members@[j]).member.user_id == Some(user_id)
                    && members@[j].member.status != inviting),
        decreases members.len() - i,
    {
        if members[i].member.user_id == Some(user_id) && members[i].member.status != inviting {
            return true;
        }
        i = i + 1;
    }
    false
}

/// The first position of a pending invitation of `user_id`, if there is one.
pub fn position_of_invitation(members: &Vec<MemberResponse>, user_id: i32) -> (r: Option<usize>)
    ensures
        match r {
            Some(i) => first_invitation_at(members@, user_id, i as int),
            None => !has_invitation(members@, user_id),
        },
{
    let inviting = MembersStatusEnum::Inviting.to_i32();
    let mut i: usize = 0;
    while i < members.len()
        invariant
            i <= members@.len(),
            inviting == MembersStatusEnum::Inviting.code(),
            forall|j: int| 0 <= j < i ==> !is_invitation_of(#[trigger] members@[j], user_id),
        decreases members.len() - i,
    {
        if members[i].member.user_id == Some(user_id) && members[i].member.status == inviting {
            return Some(i);
        }
        i = i + 1;
    }
    None
}

/// The memberships of users other than `user_id`, in their order.
pub fn retain_other_members(members: Vec<MemberResponse>, user_id: i32) -> (r: Vec<MemberResponse>)
    ensures
        r@ == members@.filter(other_user(user_id)),
{
    let mut kept: Vec<MemberResponse> = Vec::new();
    let mut i: usize = 0;
    while i < members.len()
        invariant
            i <= members@.len(),
            kept@ == members@.take(i as int).filter(other_user(user_id)),
        decreases members.len() - i,
    {
        proof {
            members@.take(i as int).lemma_filter_push(members@[i as int], other_user(user_id));
            assert(members@.take(i as int).push(members@[i as int]) =~= members@.take(i + 1));
        }
        if members[i].member.user_id != Some(user_id) {
            kept.push(members[i].clone());
        }
        i = i + 1;
    }
    assert(members@.take(members@.len() as int) =~= members@);
    kept
}

/// The participants attached to a CCU, in their order.
pub fn retain_attached(participants: Vec<ParticipantResponse>) -> (r: Vec<ParticipantResponse>)
    ensures
        r@ == participants@.filter(attached()),
{
    let mut kept: Vec<ParticipantResponse> = Vec::new();
    let mut i: usize = 0;
    while i < participants.len()
        invariant
            i <= participants@.len(),
            kept@ == participants@.take(i as int).filter(attached()),
        decreases participants.len() - i,
    {
        proof {
            participants@.take(i as int).lemma_filter_push(participants@[i as int], attached());
            assert(participants@.take(i as int).push(participants@[i as int]) =~= participants@.take(i + 1));
        }
        if participants[i].participant.ccu_id.is_some() {
            kept.push(participants[i].clone());
        }
        i = i + 1;
    }
    assert(participants@.take(participants@.len() as int) =~= participants@);
    kept
}

/// The stored form of a meeting password: its bcrypt hash.
pub fn hash_meeting_password(password: &str) -> (r: Result<String, MeetingError>)
    ensures
        hash_outcome(password@, r),
{
    match hash_password(password) {
        Some(h) => Ok(h),
        None => Err(meeting_unexpected("Failed to hash password")),
    }
}

/// The row of a new, active meeting created at `now`.
pub fn new_meeting(data: &CreateMeetingDto, password: String, code: i32, now: i64) -> (r: NewMeeting)
    ensures
        r == meeting_row(*data, password, code, now),
        r.title == data.title,
        r.password == password,
        r.code == code,
        r.status == MeetingsStatusEnum::Active.code(),
{
    NewMeeting {
        title: data.title.clone(),
        password,
        code,
        status: MeetingsStatusEnum::Active.to_i32(),
        created_at: now,
        updated_at: now,
        latest_message_created_at: now,
    }
}

/// The membership of the creator: a host who has joined.
pub fn new_host(meeting_id: i32, user_id: i32, now: i64) -> (r: NewMember)
    ensures
        r == host_row(meeting_id, user_id, now),
        r.role == MembersRoleEnum::Host.code(),
        r.status == MembersStatusEnum::Joined.code(),
        r.user_id == Some(user_id),
        r.meeting_id == meeting_id,
{
    NewMember {
        meeting_id,
        user_id: Some(user_id),
        status: MembersStatusEnum::Joined.to_i32(),
        role: MembersRoleEnum::Host.to_i32(),
        created_at: now,
    }
}

/// A new meeting with its host as only member.
pub fn with_only_member(meeting: MeetingResponse, member: MemberResponse) -> (r: MeetingResponse)
    ensures
        is_with_only_member(meeting, member, r),
{
    let mut meeting = meeting;
    let mut members: Vec<MemberResponse> = Vec::new();
    members.push(member);
    meeting.members = members;
    meeting
}

/// The meeting a host's update leads to. Only a host may update; a given password is stored hashed.
pub fn updated_meeting(meeting: MeetingResponse, user_id: i32, data: UpdateMeetingDto) -> (r: Result<Meeting, MeetingError>)
    ensures
        meeting_update_outcome(meeting, user_id, data, r),
{
    if !is_host(&meeting.members, user_id) {
        return Err(MeetingError::YouDontHavePermissions);
    }
    let mut updated = meeting.meeting;
    if let Some(title) = data.title {
        updated.title = title;
    }
    if let Some(password) = data.password {
        let hashed = hash_meeting_password(password.as_str())?;
        updated.password = hashed;
    }
    if let Some(avatar) = data.avatar {
        updated.avatar = Some(avatar);
    }
    Ok(updated)
}

/// The member status a listing asks for; a number that names none lists joined members.
pub fn member_status_or_joined(member_status: i32) -> (r: MembersStatusEnum)
    ensures
        r == listed_member_status(member_status),
{
    match MembersStatusEnum::try_from(member_status) {
        Ok(s) => s,
        Err(_) => MembersStatusEnum::Joined,
    }
}

/// The meeting status a listing asks for; a number that names none lists active meetings.
pub fn meeting_status_or_active(meeting_status: i32) -> (r: MeetingsStatusEnum)
    ensures
        r == listed_meeting_status(meeting_status),
{
    match MeetingsStatusEnum::try_from(meeting_status) {
        Ok(s) => s,
        Err(_) => MeetingsStatusEnum::Active,
    }
}

/// The membership a user gives up when leaving. A host may not leave.
pub fn leaving_member(meeting: &MeetingResponse, user_id: i32) -> (r: Result<i32, MeetingError>)
    ensures
        leave_outcome(*meeting, user_id, r),
{
    match position_of_member(&meeting.members, user_id) {
        None => Err(meeting_unexpected("Member not found")),
        Some(i) => {
            let member = meeting.members[i].member;
            if member.role == MembersRoleEnum::Host.to_i32() {
                return Err(meeting_unexpected(
                    "Host not allowed to leave the room. You can archive chats if the room no longer active.",
                ));
            }
            Ok(member.id)
        },
    }
}

/// The meeting without any membership of `user_id`.
pub fn without_member(meeting: MeetingResponse, user_id: i32) -> (r: MeetingResponse)
    ensures
        is_without(meeting, user_id, r),
{
    let MeetingResponse { meeting: row, members, participants, latest_message } = meeting;
    let members = retain_other_members(members, user_id);
    MeetingResponse { meeting: row, members, participants, latest_message }
}

/// The user who joins must exist: a failed lookup becomes "User not found".
pub fn require_user(user: Result<User, GeneralError>) -> (r: Result<User, MeetingError>)
    ensures
        match user {
            Ok(u) => r == Ok::<User, MeetingError>(u),
            Err(_) => r matches Err(e) && is_meeting_unexpected(e, "User not found"@),
        },
{
    match user {
        Ok(u) => Ok(u),
        Err(_) => Err(meeting_unexpected("User not found")),
    }
}

/// Whether a user may join the call without a password: only a member who accepted.
pub fn member_entry(meeting: &MeetingResponse, user_id: i32) -> (r: Result<(), MeetingError>)
    ensures
        entry_outcome(*meeting, user_id, r),
{
    if !is_accepted_member(&meeting.members, user_id) {
        return Err(meeting_unexpected("User is not member in the meeting"));
    }
    Ok(())
}

/// Whether a password opens a meeting: it must match the stored hash. A malformed hash
/// opens nothing.
pub fn password_entry(meeting: &MeetingResponse, password: &str) -> (r: Result<(), MeetingError>)
    ensures
        r == password_outcome(*meeting, password@),
{
    match verify_password(password, meeting.meeting.password.as_str()) {
        Some(true) => Ok(()),
        _ => Err(MeetingError::PasswordIncorrect),
    }
}

/// The row of a participant who joins at `now`, not yet attached to a CCU.
pub fn new_participant(user_id: i32, meeting_id: i32, now: i64) -> (r: NewParticipant)
    ensures
        r == participant_row(user_id, meeting_id, now),
        r.user_id == Some(user_id),
        r.meeting_id == meeting_id,
        r.status == ParticipantsStatusEnum::Active.code(),
        r.ccu_id is None,
{
    NewParticipant {
        user_id: Some(user_id),
        meeting_id,
        status: ParticipantsStatusEnum::Active.to_i32(),
        created_at: now,
        ccu_id: None,
    }
}

/// The meeting once a participant joined: participants not attached to a CCU are dropped
/// and the new one comes last.
pub fn with_participant(meeting: MeetingResponse, participant: ParticipantResponse) -> (r: MeetingResponse)
    ensures
        is_joined(meeting, participant, r),
{
    let MeetingResponse { meeting: row, members, participants, latest_message } = meeting;
    let mut kept = retain_attached(participants);
    kept.push(participant);
    MeetingResponse { meeting: row, members, participants: kept, latest_message }
}

/// Whether a host may invite `user_id`: not when already a member, and only by a host.
pub fn member_admission(meeting: &MeetingResponse, host_id: i32, user_id: i32) -> (r: Result<(), MeetingError>)
    ensures
        admission_outcome(*meeting, host_id, user_id, r),
{
    if is_member(&meeting.members, user_id) {
        return Err(meeting_unexpected("User already in the meeting"));
    }
    if !is_host(&meeting.members, host_id) {
        return Err(MeetingError::YouDontHavePermissions);
    }
    Ok(())
}

/// The membership of an invited attendee, added at `now`.
pub fn new_invitee(meeting_id: i32, user_id: i32, now: i64) -> (r: NewMember)
    ensures
        r == invitee_row(meeting_id, user_id, now),
        r.role == MembersRoleEnum::Attendee.code(),
        r.role != MembersRoleEnum::Host.code(),
        r.status == MembersStatusEnum::Inviting.code(),
        r.user_id == Some(user_id),
        r.meeting_id == meeting_id,
{
    NewMember {
        meeting_id,
        user_id: Some(user_id),
        status: MembersStatusEnum::Inviting.to_i32(),
        role: MembersRoleEnum::Attendee.to_i32(),
        created_at: now,
    }
}

/// The meeting with a new membership at the end.
pub fn with_member(meeting: MeetingResponse, member: MemberResponse) -> (r: MeetingResponse)
    ensures
        is_with_member(meeting, member, r),
{
    let mut meeting = meeting;
    meeting.members.push(member);
    meeting
}

/// The membership a host removes. The user must be a member, and the host a host.
pub fn removed_member(meeting: &MeetingResponse, host_id: i32, user_id: i32) -> (r: Result<i32, MeetingError>)
    ensures
        removal_outcome(*meeting, host_id, user_id, r),
{
    match position_of_member(&meeting.members, user_id) {
        None => Err(meeting_unexpected("Member not found")),
        Some(i) => {
            if !is_host(&meeting.members, host_id) {
                return Err(MeetingError::YouDontHavePermissions);
            }
            Ok(meeting.members[i].member.id)
        },
    }
}

/// The membership of a user who accepts a pending invitation, with its position: the
/// invitation now joined.
pub fn accepted_invitation(meeting: &MeetingResponse, user_id: i32) -> (r: Result<(usize, Member), MeetingError>)
    ensures
        acceptance_outcome(*meeting, user_id, r),
{
    match position_of_invitation(&meeting.members, user_id) {
        None => Err(meeting_unexpected("Member not found")),
        Some(i) => {
            let mut member = meeting.members[i].member;
            member.status = MembersStatusEnum::Joined.to_i32();
            Ok((i, member))
        },
    }
}

/// The meeting with the membership at position `i` replaced.
pub fn with_member_at(meeting: MeetingResponse, i: usize, member: MemberResponse) -> (r: MeetingResponse)
    requires
        i < meeting.members@.len(),
    ensures
        is_with_member_at(meeting, i as int, member, r),
{
    let mut meeting = meeting;
    meeting.members.set(i, member);
    meeting
}

/// The meeting as its host archives it.
pub fn archived(meeting: MeetingResponse, user_id: i32) -> (r: Result<Meeting, MeetingError>)
    ensures
        archive_outcome(meeting, user_id, r),
{
    match position_of_member(&meeting.members, user_id) {
        None => Err(meeting_unexpected("Member not found")),
        Some(i) => {
            if meeting.members[i].member.role != MembersRoleEnum::Host.to_i32() {
                return Err(MeetingError::YouDontHavePermissions);
            }
            let mut row = meeting.meeting;
            row.status = MeetingsStatusEnum::Archived.to_i32();
            Ok(row)
        },
    }
}

/// The meeting service over a meeting store and a user store.
pub struct MeetingServiceImpl<M: MeetingRepository, U: UserRepository> {
    meetings: MeetingStore<M>,
    users: UserStore<U>,
}

impl<M: MeetingRepository, U: UserRepository> MeetingServiceImpl<M, U> {
    /// The meeting store the service reads and writes, with the calls made to it.
    pub closed spec fn meetings(&self) -> MeetingStore<M> {
        self.meetings
    }

    /// The user store the service reads, with the calls made to it.
    pub closed spec fn users(&self) -> UserStore<U> {
        self.users
    }

    /// Whether this service works on the same stores as `earlier`.
    pub open spec fn same_stores(&self, earlier: Self) -> bool {
        &&& self.meetings().repository() == earlier.meetings().repository()
        &&& self.users().repository() == earlier.users().repository()
    }

    /// Whether this service is `earlier` once `user_id` joined the call of `meeting` with the
    /// answer `r`: the store was asked to create the participant, and the meeting then lists it
    /// last, after the participants attached to a CCU.
    pub open spec fn joins_call(&self, earlier: Self, before: Seq<MeetingCall>, meeting: MeetingResponse, user_id: i32, r: Result<MeetingResponse, MeetingError>) -> bool {
        exists|now: i64, c: Result<ParticipantResponse, MeetingError>|
            #[trigger] earlier.meetings().repository().answers_create_participant(participant_row(user_id, meeting.meeting.id, now), c) && {
                &&& self.meetings().calls() == before.push(MeetingCall::CreateParticipant(participant_row(user_id, meeting.meeting.id, now), c))
                &&& match c {
                    Err(e) => r == Err::<MeetingResponse, MeetingError>(e),
                    Ok(participant) => r matches Ok(x) && is_joined(meeting, participant, x),
                }
            }
    }

    pub fn new(meeting_repository: M, user_repository: U) -> (r: Self)
        ensures
            r.meetings().repository() == meeting_repository,
            r.users().repository() == user_repository,
            r.meetings().calls() == Seq::<MeetingCall>::empty(),
            r.users().calls() == Seq::<UserCall>::empty(),
    {
        MeetingServiceImpl { meetings: MeetingStore::new(meeting_repository), users: UserStore::new(user_repository) }
    }

    /// Creates a meeting with the code `code`, hosted by `user_id`: the password is hashed, the
    /// store creates the meeting and then the host's membership, and the answer lists the host
    /// as only member.
    pub fn create_meeting(&mut self, data: CreateMeetingDto, user_id: i32, code: i32) -> (r: Result<MeetingResponse, MeetingError>)
        ensures
            final(self).same_stores(*old(self)),
            final(self).users().calls() == old(self).users().calls(),
            r matches Ok(m) ==> m.members@.len() == 1,
            exists|h: Result<String, MeetingError>| #[trigger] hash_outcome(data.password@, h) && match h {
                Err(e) => r == Err::<MeetingResponse, MeetingError>(e) && final(self).meetings().calls() == old(self).meetings().calls(),
                Ok(hashed) => exists|now: i64, c: Result<MeetingResponse, MeetingError>|
                    #[trigger] old(self).meetings().repository().answers_create_meeting(meeting_row(data, hashed, code, now), c) && {
                    let created = old(self).meetings().calls().push(MeetingCall::CreateMeeting(meeting_row(data, hashed, code, now), c));
                    match c {
                        Err(e) => r == Err::<MeetingResponse, MeetingError>(e) && final(self).meetings().calls() == created,
                        Ok(meeting) => exists|m: Result<MemberResponse, MeetingError>|
                            #[trigger] old(self).meetings().repository().answers_create_member(host_row(meeting.meeting.id, user_id, now), m)
                            && final(self).meetings().calls() == created.push(MeetingCall::CreateMember(host_row(meeting.meeting.id, user_id, now), m))
                            && match m {
                                Err(e) => r == Err::<MeetingResponse, MeetingError>(e),
                                Ok(member) => r matches Ok(x) && is_with_only_member(meeting, member, x),
                            },
                    }
                },
            },
    {
        let now = now_micros();
        let h = hash_meeting_password(data.password.as_str());
        assert(hash_outcome(data.password@, h));
        let password_hashed = match h {
            Err(e) => { return Err(e); },
            Ok(hashed) => hashed,
        };
        let row = new_meeting(&data, password_hashed, code, now);
        let ghost row_ = row;
        let c = self.meetings.create_meeting(row);
        assert(old(self).meetings().repository().answers_create_meeting(row_, c));
        let meeting = match c {
            Err(e) => { return Err(e); },
            Ok(meeting) => meeting,
        };
        let host = new_host(meeting.meeting.id, user_id, now);
        let m = self.meetings.create_member(host);
        assert(old(self).meetings().repository().answers_create_member(host_row(meeting.meeting.id, user_id, now), m));
        match m {
            Err(e) => Err(e),
            Ok(member) => Ok(with_only_member(meeting, member)),
        }
    }

    /// Updates a meeting's title, password or avatar on behalf of its host: the meeting is
    /// looked up by its code, the update decided, and the store's answer to storing it is the
    /// answer. A refused update writes nothing.
    pub fn update_meeting(&mut self, data: UpdateMeetingDto, user_id: i32) -> (r: Result<MeetingResponse, MeetingError>)
        ensures
            final(self).same_stores(*old(self)),
            final(self).users().calls() == old(self).users().calls(),
            exists|found: Result<MeetingResponse, MeetingError>| #[trigger] old(self).meetings().repository().answers_get_meeting_by_code(data.code, found) && {
                let looked_up = old(self).meetings().calls().push(MeetingCall::GetMeetingByCode(data.code, found));
                match found {
                    Err(e) => r == Err::<MeetingResponse, MeetingError>(e) && final(self).meetings().calls() == looked_up,
                    Ok(meeting) => exists|u: Result<Meeting, MeetingError>| #[trigger] meeting_update_outcome(meeting, user_id, data, u) && match u {
                        Err(e) => r == Err::<MeetingResponse, MeetingError>(e) && final(self).meetings().calls() == looked_up,
                        Ok(row) => final(self).meetings().calls() == looked_up.push(MeetingCall::UpdateMeeting(row, r)),
                    },
                }
            },
    {
        let ghost d = data;
        let found = self.meetings.get_meeting_by_code(data.code);
        assert(old(self).meetings().repository().answers_get_meeting_by_code(d.code, found));
        match found {
            Err(e) => Err(e),
            Ok(meeting) => {
                let ghost before = meeting;
                let u = updated_meeting(meeting, user_id, data);
                assert(meeting_update_outcome(before, user_id, d, u));
                match u {
                    Err(e) => Err(e),
                    Ok(row) => self.meetings.update_meeting(row),
                }
            },
        }
    }

    /// The meetings of a user by member and meeting status; numbers that name no status list
    /// joined members of active meetings.
    pub fn get_meetings_by_status(&mut self, member_status: i32, meeting_status: i32, user_id: i32, pagination_dto: PaginationDto) -> (r: Result<Vec<MeetingResponse>, MeetingError>)
        ensures
            final(self).same_stores(*old(self)),
            final(self).users().calls() == old(self).users().calls(),
            final(self).meetings().calls() == old(self).meetings().calls().push(MeetingCall::FindAll(user_id,
                listed_member_status(member_status), listed_meeting_status(meeting_status), pagination_dto.skip, pagination_dto.limit, r)),
    {
        let member_status = member_status_or_joined(member_status);
        let meeting_status = meeting_status_or_active(meeting_status);
        self.meetings.find_all(user_id, member_status, meeting_status, pagination_dto.skip, pagination_dto.limit)
    }

    /// The store's answer for the meeting with this id.
    pub fn get_meeting_by_id(&mut self, meeting_id: i32) -> (r: Result<MeetingResponse, MeetingError>)
        ensures
            final(self).same_stores(*old(self)),
            final(self).users().calls() == old(self).users().calls(),
            final(self).meetings().calls() == old(self).meetings().calls().push(MeetingCall::GetMeetingById(meeting_id, r)),
    {
        self.meetings.get_meeting_by_id(meeting_id)
    }

    /// The store's answer for the meeting with this code.
    pub fn get_meeting_by_code(&mut self, meeting_code: i32) -> (r: Result<MeetingResponse, MeetingError>)
        ensures
            final(self).same_stores(*old(self)),
            final(self).users().calls() == old(self).users().calls(),
            final(self).meetings().calls() == old(self).meetings().calls().push(MeetingCall::GetMeetingByCode(meeting_code, r)),
    {
        self.meetings.get_meeting_by_code(meeting_code)
    }

    /// A member leaves a meeting; a host may not. Once the store deleted the membership, the
    /// answer is the meeting without the user. A refused request deletes nothing.
    pub fn leave_meeting(&mut self, meeting_code: i32, user_id: i32) -> (r: Result<MeetingResponse, MeetingError>)
        ensures
            final(self).same_stores(*old(self)),
            final(self).users().calls() == old(self).users().calls(),
            r matches Ok(m) ==> !has_member(m.members@, user_id),
            exists|found: Result<MeetingResponse, MeetingError>| #[trigger] old(self).meetings().repository().answers_get_meeting_by_code(meeting_code, found) && {
                let looked_up = old(self).meetings().calls().push(MeetingCall::GetMeetingByCode(meeting_code, found));
                match found {
                    Err(e) => r == Err::<MeetingResponse, MeetingError>(e) && final(self).meetings().calls() == looked_up,
                    Ok(meeting) => exists|l: Result<i32, MeetingError>| #[trigger] leave_outcome(meeting, user_id, l) && match l {
                        Err(e) => r == Err::<MeetingResponse, MeetingError>(e) && final(self).meetings().calls() == looked_up,
                        Ok(member_id) => exists|d: Result<(), MeetingError>|
                            #[trigger] old(self).meetings().repository().answers_delete_member_by_id(member_id, d)
                            && final(self).meetings().calls() == looked_up.push(MeetingCall::DeleteMemberById(member_id, d)) && match d {
                            Err(e) => r == Err::<MeetingResponse, MeetingError>(e),
                            Ok(_) => r matches Ok(x) && is_without(meeting, user_id, x),
                        },
                    },
                }
            },
    {
        let found = self.meetings.get_meeting_by_code(meeting_code);
        assert(old(self).meetings().repository().answers_get_meeting_by_code(meeting_code, found));
        let meeting = match found {
            Err(e) => { return Err(e); },
            Ok(meeting) => meeting,
        };
        let l = leaving_member(&meeting, user_id);
        assert(leave_outcome(meeting, user_id, l));
        let member_id = match l {
            Err(e) => { return Err(e); },
            Ok(id) => id,
        };
        let d = self.meetings.delete_member_by_id(member_id);
        assert(old(self).meetings().repository().answers_delete_member_by_id(member_id, d));
        if let Err(e) = d {
            return Err(e);
        }
        proof { lemma_filter_drops_member(meeting.members@, user_id); }
        Ok(without_member(meeting, user_id))
    }

    /// A member who accepted joins the call without a password: the user and the meeting are
    /// looked up, the membership checked, and the call joined. A refused request creates no
    /// participant.
    pub fn join_meeting_without_password(&mut self, user_id: i32, meeting_code: i32) -> (r: Result<MeetingResponse, MeetingError>)
        ensures
            final(self).same_stores(*old(self)),
            r matches Ok(m) ==> m.participants@.len() >= 1 && forall|i: int|
                0 <= i < m.participants@.len() - 1 ==> (#[trigger] m.participants@[i]).participant.ccu_id is Some,
            exists|user: Result<User, GeneralError>| #[trigger] old(self).users().repository().answers_get_user_by_id(user_id, user) && {
                &&& final(self).users().calls() == old(self).users().calls().push(UserCall::GetUserById(user_id, user))
                &&& match user {
                    Err(_) => (r matches Err(e) && is_meeting_unexpected(e, "User not found"@))
                        && final(self).meetings().calls() == old(self).meetings().calls(),
                    Ok(_) => exists|found: Result<MeetingResponse, MeetingError>| #[trigger] old(self).meetings().repository().answers_get_meeting_by_code(meeting_code, found) && {
                        let looked_up = old(self).meetings().calls().push(MeetingCall::GetMeetingByCode(meeting_code, found));
                        match found {
                            Err(e) => r == Err::<MeetingResponse, MeetingError>(e) && final(self).meetings().calls() == looked_up,
                            Ok(meeting) => exists|g: Result<(), MeetingError>| #[trigger] entry_outcome(meeting, user_id, g) && match g {
                                Err(e) => r == Err::<MeetingResponse, MeetingError>(e) && final(self).meetings().calls() == looked_up,
                                Ok(_) => final(self).joins_call(*old(self), looked_up, meeting, user_id, r),
                            },
                        }
                    },
                }
            },
    {
        let user = self.users.get_user_by_id(user_id);
        assert(old(self).users().repository().answers_get_user_by_id(user_id, user));
        if let Err(e) = require_user(user) {
            return Err(e);
        }
        let found = self.meetings.get_meeting_by_code(meeting_code);
        assert(old(self).meetings().repository().answers_get_meeting_by_code(meeting_code, found));
        let meeting = match found {
            Err(e) => { return Err(e); },
            Ok(meeting) => meeting,
        };
        let g = member_entry(&meeting, user_id);
        assert(entry_outcome(meeting, user_id, g));
        if let Err(e) = g {
            return Err(e);
        }
        self.join_call(meeting, user_id)
    }

    /// Anyone with the meeting's password joins the call: the user and the meeting are looked
    /// up, the password checked against the stored hash, and the call joined. A wrong password
    /// creates no participant.
    pub fn join_with_password(&mut self, user_id: i32, meeting_code: i32, password: &str) -> (r: Result<MeetingResponse, MeetingError>)
        ensures
            final(self).same_stores(*old(self)),
            r matches Ok(m) ==> m.participants@.len() >= 1 && forall|i: int|
                0 <= i < m.participants@.len() - 1 ==> (#[trigger] m.participants@[i]).participant.ccu_id is Some,
            exists|user: Result<User, GeneralError>| #[trigger] old(self).users().repository().answers_get_user_by_id(user_id, user) && {
                &&& final(self).users().calls() == old(self).users().calls().push(UserCall::GetUserById(user_id, user))
                &&& match user {
                    Err(_) => (r matches Err(e) && is_meeting_unexpected(e, "User not found"@))
                        && final(self).meetings().calls() == old(self).meetings().calls(),
                    Ok(_) => exists|found: Result<MeetingResponse, MeetingError>| #[trigger] old(self).meetings().repository().answers_get_meeting_by_code(meeting_code, found) && {
                        let looked_up = old(self).meetings().calls().push(MeetingCall::GetMeetingByCode(meeting_code, found));
                        match found {
                            Err(e) => r == Err::<MeetingResponse, MeetingError>(e) && final(self).meetings().calls() == looked_up,
                            Ok(meeting) => match password_outcome(meeting, password@) {
                                Err(e) => r == Err::<MeetingResponse, MeetingError>(e) && final(self).meetings().calls() == looked_up,
                                Ok(_) => final(self).joins_call(*old(self), looked_up, meeting, user_id, r),
                            },
                        }
                    },
                }
            },
    {
        let user = self.users.get_user_by_id(user_id);
        assert(old(self).users().repository().answers_get_user_by_id(user_id, user));
        if let Err(e) = require_user(user) {
            return Err(e);
        }
        let found = self.meetings.get_meeting_by_code(meeting_code);
        assert(old(self).meetings().repository().answers_get_meeting_by_code(meeting_code, found));
        let meeting = match found {
            Err(e) => { return Err(e); },
            Ok(meeting) => meeting,
        };
        if let Err(e) = password_entry(&meeting, password) {
            return Err(e);
        }
        self.join_call(meeting, user_id)
    }

    fn join_call(&mut self, meeting: MeetingResponse, user_id: i32) -> (r: Result<MeetingResponse, MeetingError>)
        ensures
            final(self).same_stores(*old(self)),
            final(self).users().calls() == old(self).users().calls(),
            r matches Ok(m) ==> m.participants@.len() >= 1 && forall|i: int|
                0 <= i < m.participants@.len() - 1 ==> (#[trigger] m.participants@[i]).participant.ccu_id is Some,
            final(self).joins_call(*old(self), old(self).meetings().calls(), meeting, user_id, r),
    {
        let now = now_micros();
        let row = new_participant(user_id, meeting.meeting.id, now);
        let c = self.meetings.create_participant(row);
        assert(old(self).meetings().repository().answers_create_participant(participant_row(user_id, meeting.meeting.id, now), c));
        let participant = match c {
            Err(e) => { return Err(e); },
            Ok(participant) => participant,
        };
        proof { lemma_kept_are_attached(meeting.participants@); }
        Ok(with_participant(meeting, participant))
    }

    /// A host invites `user_id`, who becomes an attendee with a pending invitation: the meeting
    /// is looked up by its code, the invitation decided, and the store creates the membership,
    /// which the answer lists last. A refused request creates nothing.
    pub fn add_member(&mut self, code: i32, host_id: i32, user_id: i32) -> (r: Result<MeetingResponse, MeetingError>)
        ensures
            final(self).same_stores(*old(self)),
            exists|found: Result<MeetingResponse, MeetingError>| #[trigger] old(self).meetings().repository().answers_get_meeting_by_code(code, found) && {
                let looked_up = old(self).meetings().calls().push(MeetingCall::GetMeetingByCode(code, found));
                match found {
                    Err(e) => r == Err::<MeetingResponse, MeetingError>(e) && final(self).meetings().calls() == looked_up
                        && final(self).users().calls() == old(self).users().calls(),
                    Ok(meeting) => exists|a: Result<(), MeetingError>| #[trigger] admission_outcome(meeting, host_id, user_id, a) && match a {
                        Err(e) => r == Err::<MeetingResponse, MeetingError>(e) && final(self).meetings().calls() == looked_up
                            && final(self).users().calls() == old(self).users().calls(),
                        Ok(_) => exists|now: i64, c: Result<MemberResponse, MeetingError>|
                            #[trigger] old(self).meetings().repository().answers_create_member(invitee_row(meeting.meeting.id, user_id, now), c)
                            && user_looked_up(old(self).users().calls(), user_id, final(self).users().calls())
                            && final(self).meetings().calls() == looked_up.push(MeetingCall::CreateMember(invitee_row(meeting.meeting.id, user_id, now), c))
                            && match c {
                                Err(e) => r == Err::<MeetingResponse, MeetingError>(e),
                                Ok(member) => r matches Ok(x) && is_with_member(meeting, member, x),
                            },
                    },
                }
            },
    {
        let found = self.meetings.get_meeting_by_code(code);
        assert(old(self).meetings().repository().answers_get_meeting_by_code(code, found));
        let meeting = match found {
            Err(e) => { return Err(e); },
            Ok(meeting) => meeting,
        };
        let a = member_admission(&meeting, host_id, user_id);
        assert(admission_outcome(meeting, host_id, user_id, a));
        if let Err(e) = a {
            return Err(e);
        }
        let _ = self.users.get_user_by_id(user_id);
        let now = now_micros();
        let row = new_invitee(meeting.meeting.id, user_id, now);
        let c = self.meetings.create_member(row);
        assert(old(self).meetings().repository().answers_create_member(invitee_row(meeting.meeting.id, user_id, now), c));
        match c {
            Err(e) => Err(e),
            Ok(member) => Ok(with_member(meeting, member)),
        }
    }

    /// A host removes a member. Once the store deleted the membership, the answer is the
    /// meeting without the user. A refused request deletes nothing.
    pub fn remove_member(&mut self, code: i32, host_id: i32, user_id: i32) -> (r: Result<MeetingResponse, MeetingError>)
        ensures
            final(self).same_stores(*old(self)),
            final(self).users().calls() == old(self).users().calls(),
            r matches Ok(m) ==> !has_member(m.members@, user_id),
            exists|found: Result<MeetingResponse, MeetingError>| #[trigger] old(self).meetings().repository().answers_get_meeting_by_code(code, found) && {
                let looked_up = old(self).meetings().calls().push(MeetingCall::GetMeetingByCode(code, found));
                match found {
                    Err(e) => r == Err::<MeetingResponse, MeetingError>(e) && final(self).meetings().calls() == looked_up,
                    Ok(meeting) => exists|m: Result<i32, MeetingError>| #[trigger] removal_outcome(meeting, host_id, user_id, m) && match m {
                        Err(e) => r == Err::<MeetingResponse, MeetingError>(e) && final(self).meetings().calls() == looked_up,
                        Ok(member_id) => exists|d: Result<(), MeetingError>|
                            #[trigger] old(self).meetings().repository().answers_delete_member_by_id(member_id, d)
                            && final(self).meetings().calls() == looked_up.push(MeetingCall::DeleteMemberById(member_id, d)) && match d {
                            Err(e) => r == Err::<MeetingResponse, MeetingError>(e),
                            Ok(_) => r matches Ok(x) && is_without(meeting, user_id, x),
                        },
                    },
                }
            },
    {
        let found = self.meetings.get_meeting_by_code(code);
        assert(old(self).meetings().repository().answers_get_meeting_by_code(code, found));
        let meeting = match found {
            Err(e) => { return Err(e); },
            Ok(meeting) => meeting,
        };
        let m = removed_member(&meeting, host_id, user_id);
        assert(removal_outcome(meeting, host_id, user_id, m));
        let member_id = match m {
            Err(e) => { return Err(e); },
            Ok(id) => id,
        };
        let d = self.meetings.delete_member_by_id(member_id);
        assert(old(self).meetings().repository().answers_delete_member_by_id(member_id, d));
        if let Err(e) = d {
            return Err(e);
        }
        proof { lemma_filter_drops_member(meeting.members@, user_id); }
        Ok(without_member(meeting, user_id))
    }

    /// An invited user accepts the invitation: the meeting is looked up by its id, the
    /// membership is stored as joined, and the stored membership takes its place in the answer.
    /// Without a pending invitation nothing is written.
    pub fn accept_invitation(&mut self, meeting_id: i32, user_id: i32) -> (r: Result<MeetingResponse, MeetingError>)
        ensures
            final(self).same_stores(*old(self)),
            final(self).users().calls() == old(self).users().calls(),
            exists|found: Result<MeetingResponse, MeetingError>| #[trigger] old(self).meetings().repository().answers_get_meeting_by_id(meeting_id, found) && {
                let looked_up = old(self).meetings().calls().push(MeetingCall::GetMeetingById(meeting_id, found));
                match found {
                    Err(e) => r == Err::<MeetingResponse, MeetingError>(e) && final(self).meetings().calls() == looked_up,
                    Ok(meeting) => exists|a: Result<(usize, Member), MeetingError>| #[trigger] acceptance_outcome(meeting, user_id, a) && match a {
                        Err(e) => r == Err::<MeetingResponse, MeetingError>(e) && final(self).meetings().calls() == looked_up,
                        Ok((i, member)) => exists|u: Result<MemberResponse, MeetingError>|
                            #[trigger] old(self).meetings().repository().answers_update_member(member, u)
                            && final(self).meetings().calls() == looked_up.push(MeetingCall::UpdateMember(member, u)) && match u {
                            Err(e) => r == Err::<MeetingResponse, MeetingError>(e),
                            Ok(stored) => r matches Ok(x) && is_with_member_at(meeting, i as int, stored, x),
                        },
                    },
                }
            },
    {
        let found = self.meetings.get_meeting_by_id(meeting_id);
        assert(old(self).meetings().repository().answers_get_meeting_by_id(meeting_id, found));
        let meeting = match found {
            Err(e) => { return Err(e); },
            Ok(meeting) => meeting,
        };
        let a = accepted_invitation(&meeting, user_id);
        assert(acceptance_outcome(meeting, user_id, a));
        let (i, member) = match a {
            Err(e) => { return Err(e); },
            Ok(pair) => pair,
        };
        let ghost member_ = member;
        let u = self.meetings.update_member(member);
        assert(old(self).meetings().repository().answers_update_member(member_, u));
        match u {
            Err(e) => Err(e),
            Ok(stored) => Ok(with_member_at(meeting, i, stored)),
        }
    }

    /// The host archives a meeting: the meeting is looked up by its code, and the store's
    /// answer to storing it archived is the answer. A refused request writes nothing.
    pub fn archived_meeting(&mut self, meeting_code: i32, user_id: i32) -> (r: Result<MeetingResponse, MeetingError>)
        ensures
            final(self).same_stores(*old(self)),
            final(self).users().calls() == old(self).users().calls(),
            exists|found: Result<MeetingResponse, MeetingError>| #[trigger] old(self).meetings().repository().answers_get_meeting_by_code(meeting_code, found) && {
                let looked_up = old(self).meetings().calls().push(MeetingCall::GetMeetingByCode(meeting_code, found));
                match found {
                    Err(e) => r == Err::<MeetingResponse, MeetingError>(e) && final(self).meetings().calls() == looked_up,
                    Ok(meeting) => exists|a: Result<Meeting, MeetingError>| #[trigger] archive_outcome(meeting, user_id, a) && match a {
                        Err(e) => r == Err::<MeetingResponse, MeetingError>(e) && final(self).meetings().calls() == looked_up,
                        Ok(row) => final(self).meetings().calls() == looked_up.push(MeetingCall::UpdateMeeting(row, r)),
                    },
                }
            },
    {
        let found = self.meetings.get_meeting_by_code(meeting_code);
        assert(old(self).meetings().repository().answers_get_meeting_by_code(meeting_code, found));
        match found {
            Err(e) => Err(e),
            Ok(meeting) => {
                let ghost before = meeting;
                let a = archived(meeting, user_id);
                assert(archive_outcome(before, user_id, a));
                match a {
                    Err(e) => Err(e),
                    Ok(row) => self.meetings.update_meeting(row),
                }
            },
        }
    }
}

/// The rows a meeting's service writes are those its requests ask for: a new meeting is active
/// with the title, password and code given; its creator is a host who has joined; an invited
/// user is an attendee whose invitation is pending; a user joining the call is an active
/// participant not yet attached to a media session.
pub proof fn law_meeting_rows_are_as_requested(data: CreateMeetingDto, password: String, code: i32, now: i64, meeting_id: i32, user_id: i32)
    ensures
        meeting_row(data, password, code, now).title == data.title,
        meeting_row(data, password, code, now).password == password,
        meeting_row(data, password, code, now).code == code,
        meeting_row(data, password, code, now).status == MeetingsStatusEnum::Active.code(),
        host_row(meeting_id, user_id, now).role == MembersRoleEnum::Host.code(),
        host_row(meeting_id, user_id, now).status == MembersStatusEnum::Joined.code(),
        host_row(meeting_id, user_id, now).user_id == Some(user_id),
        invitee_row(meeting_id, user_id, now).role == MembersRoleEnum::Attendee.code(),
        invitee_row(meeting_id, user_id, now).status == MembersStatusEnum::Inviting.code(),
        invitee_row(meeting_id, user_id, now).user_id == Some(user_id),
        participant_row(user_id, meeting_id, now).user_id == Some(user_id),
        participant_row(user_id, meeting_id, now).status == ParticipantsStatusEnum::Active.code(),
        participant_row(user_id, meeting_id, now).ccu_id is None,
{
}

/// After removing a user's memberships, none of them is left.
pub proof fn lemma_filter_drops_member(members: Seq<MemberResponse>, user_id: i32)
    ensures
        !has_member(members.filter(other_user(user_id)), user_id),
{
    let kept = members.filter(other_user(user_id));
    if has_member(kept, user_id) {
        let i = choose|i: int| 0 <= i < kept.len() && (#[trigger] kept[i]).member.user_id == Some(user_id);
        members.lemma_filter_pred(other_user(user_id), i);
    }
}

/// Every participant kept by the attachment filter is attached to a CCU.
pub proof fn lemma_kept_are_attached(participants: Seq<ParticipantResponse>)
    ensures
        forall|i: int| 0 <= i < participants.filter(attached()).len()
            ==> (#[trigger] participants.filter(attached())[i]).participant.ccu_id is Some,
{
    assert forall|i: int| 0 <= i < participants.filter(attached()).len()
        implies (#[trigger] participants.filter(attached())[i]).participant.ccu_id is Some by {
        participants.lemma_filter_pred(attached(), i);
    }
}

/// When `user_id` holds no membership, dropping that user's memberships changes nothing.
pub proof fn lemma_filter_keeps_all(members: Seq<MemberResponse>, user_id: i32)
    requires
        !has_member(members, user_id),
    ensures
        members.filter(other_user(user_id)) == members,
    decreases members.len(),
{
    reveal(Seq::filter);
    if members.len() > 0 {
        let prefix = members.drop_last();
        assert(!has_member(prefix, user_id)) by {
            if has_member(prefix, user_id) {
                let i = choose|i: int| 0 <= i < prefix.len() && (#[trigger] prefix[i]).member.user_id == Some(user_id);
                assert(members[i] == prefix[i]);
            }
        }
        lemma_filter_keeps_all(prefix, user_id);
        assert(members.last().member.user_id != Some(user_id)) by {
            assert(members[members.len() - 1] == members.last());
        }
        assert(prefix.push(members.last()) =~= members);
    }
}

/// Inviting a user who was no member and then removing that user gives back the members
/// there were, in their order.
pub proof fn lemma_invite_then_remove(members: Seq<MemberResponse>, invited: MemberResponse, user_id: i32)
    requires
        !has_member(members, user_id),
        invited.member.user_id == Some(user_id),
    ensures
        members.push(invited).filter(other_user(user_id)) == members,
{
    members.lemma_filter_push(invited, other_user(user_id));
    lemma_filter_keeps_all(members, user_id);
}

/// Once an invitation is accepted and the joined membership takes its place, the user is a
/// member who accepted: they may join the call without a password and read the chat.
pub proof fn lemma_accepted_invitation_admits(members: Seq<MemberResponse>, user_id: i32, i: int, accepted: MemberResponse)
    requires
        0 <= i < members.len(),
        accepted.member.user_id == Some(user_id),
        accepted.member.status == MembersStatusEnum::Joined.code(),
    ensures
        is_accepted_in(members.update(i, accepted), user_id),
{
    assert(members.update(i, accepted)[i] == accepted);
}

} // verus!
