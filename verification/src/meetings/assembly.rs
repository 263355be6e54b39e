//! Putting meetings together from the rows the database gives back.
//!
//! A meeting looked up by id or code arrives either as the rows of one join (the meeting
//! repeated on each row, with at most one member and one participant and their users), or
//! as the matching meetings with their members and participants loaded apart and grouped
//! under them. A listing arrives as meetings with their latest message and its author.
use vstd::prelude::*;
use crate::grouping::{flattened, group_at, grouped_by, groups, Child};
use crate::meetings::errors::MeetingError;
use crate::meetings::models::{Meeting, Member, Message, Participant, User};
use crate::meetings::responses::{MeetingResponse, MemberResponse, MessageResponse, ParticipantResponse};

verus! {

impl Child for MemberResponse {
    open spec fn parent_key(&self) -> Option<i32> {
        self.member.meeting_id
    }

    fn key(&self) -> (r: Option<i32>) {
        self.member.meeting_id
    }

    fn duplicate(&self) -> (r: Self) {
        self.clone()
    }
}

impl Child for ParticipantResponse {
    open spec fn parent_key(&self) -> Option<i32> {
        self.participant.meeting_id
    }

    fn key(&self) -> (r: Option<i32>) {
        self.participant.meeting_id
    }

    fn duplicate(&self) -> (r: Self) {
        self.clone()
    }
}

/// One row of the join of a meeting with its members, its participants and their users.
#[derive(Debug, PartialEq)]
pub struct JoinedMeetingRow {
    pub meeting: Meeting,
    pub member: Option<Member>,
    pub participant: Option<Participant>,
    pub member_user: Option<User>,
    pub participant_user: Option<User>,
}

/// The members the joined rows carry: one for each row with both a member and its user,
/// in row order (a member repeats on as many rows as the join gave it).
pub open spec fn joined_members(rows: Seq<JoinedMeetingRow>) -> Seq<MemberResponse>
    decreases rows.len(),
{
    if rows.len() == 0 {
        Seq::empty()
    } else {
        let before = joined_members(rows.drop_last());
        let row = rows.last();
        match (row.member, row.member_user) {
            (Some(m), Some(u)) => before.push(MemberResponse { member: m, user: Some(u) }),
            _ => before,
        }
    }
}

/// The participants the joined rows carry, in the same way as the members.
pub open spec fn joined_participants(rows: Seq<JoinedMeetingRow>) -> Seq<ParticipantResponse>
    decreases rows.len(),
{
    if rows.len() == 0 {
        Seq::empty()
    } else {
        let before = joined_participants(rows.drop_last());
        let row = rows.last();
        match (row.participant, row.participant_user) {
            (Some(p), Some(u)) => before.push(ParticipantResponse { participant: p, user: Some(u) }),
            _ => before,
        }
    }
}

/// Whether a row of the join carries a member together with that member's user.
pub open spec fn carries_member() -> spec_fn(JoinedMeetingRow) -> bool {
    |row: JoinedMeetingRow| row.member is Some && row.member_user is Some
}

/// Whether a row of the join carries a participant together with that participant's user.
pub open spec fn carries_participant() -> spec_fn(JoinedMeetingRow) -> bool {
    |row: JoinedMeetingRow| row.participant is Some && row.participant_user is Some
}

/// Every row that carries a member with its user gives one member, in the rows' order: the
/// members are exactly those rows' members, one for each, and likewise the participants.
pub proof fn law_each_joined_row_gives_its_member(rows: Seq<JoinedMeetingRow>)
    ensures
        joined_members(rows).len() == rows.filter(carries_member()).len(),
        forall|k: int| 0 <= k < joined_members(rows).len() ==> {
            let row = #[trigger] rows.filter(carries_member())[k];
            row.member matches Some(m) && row.member_user matches Some(u)
                && joined_members(rows)[k] == (MemberResponse { member: m, user: Some(u) })
        },
        joined_participants(rows).len() == rows.filter(carries_participant()).len(),
        forall|k: int| 0 <= k < joined_participants(rows).len() ==> {
            let row = #[trigger] rows.filter(carries_participant())[k];
            row.participant matches Some(p) && row.participant_user matches Some(u)
                && joined_participants(rows)[k] == (ParticipantResponse { participant: p, user: Some(u) })
        },
    decreases rows.len(),
{
    if rows.len() > 0 {
        let prefix = rows.drop_last();
        law_each_joined_row_gives_its_member(prefix);
        assert(prefix.push(rows.last()) =~= rows);
        prefix.lemma_filter_push(rows.last(), carries_member());
        prefix.lemma_filter_push(rows.last(), carries_participant());
        let kept = rows.filter(carries_member());
        let before = prefix.filter(carries_member());
        assert forall|k: int| 0 <= k < joined_members(rows).len() implies {
            let row = #[trigger] kept[k];
            row.member matches Some(m) && row.member_user matches Some(u)
                && joined_members(rows)[k] == (MemberResponse { member: m, user: Some(u) })
        } by {
            if k < before.len() {
                assert(kept[k] == before[k]);
                assert(joined_members(rows)[k] == joined_members(prefix)[k]);
            }
        }
        let seen = rows.filter(carries_participant());
        let earlier = prefix.filter(carries_participant());
        assert forall|k: int| 0 <= k < joined_participants(rows).len() implies {
            let row = #[trigger] seen[k];
            row.participant matches Some(p) && row.participant_user matches Some(u)
                && joined_participants(rows)[k] == (ParticipantResponse { participant: p, user: Some(u) })
        } by {
            if k < earlier.len() {
                assert(seen[k] == earlier[k]);
                assert(joined_participants(rows)[k] == joined_participants(prefix)[k]);
            }
        }
    }
}

/// A row of the join that carries a member with its user has that member in the meeting's
/// members, and likewise a participant.
pub proof fn law_no_joined_member_is_lost(rows: Seq<JoinedMeetingRow>, j: int)
    requires
        0 <= j < rows.len(),
    ensures
        rows[j].member is Some && rows[j].member_user is Some
            ==> joined_members(rows).contains(MemberResponse { member: rows[j].member->Some_0, user: rows[j].member_user }),
        rows[j].participant is Some && rows[j].participant_user is Some
            ==> joined_participants(rows).contains(ParticipantResponse { participant: rows[j].participant->Some_0, user: rows[j].participant_user }),
{
    law_each_joined_row_gives_its_member(rows);
    if rows[j].member is Some && rows[j].member_user is Some {
        rows.lemma_filter_contains(carries_member(), j);
        let kept = rows.filter(carries_member());
        let k = choose|k: int| 0 <= k < kept.len() && kept[k] == rows[j];
        assert(kept[k] == rows[j]);
        assert(joined_members(rows)[k] == (MemberResponse { member: rows[j].member->Some_0, user: rows[j].member_user }));
        assert(joined_members(rows).contains(joined_members(rows)[k]));
        assert(rows[j].member_user == Some(rows[j].member_user->Some_0));
        assert(joined_members(rows).contains(MemberResponse { member: rows[j].member->Some_0, user: Some(rows[j].member_user->Some_0) }));
    }
    if rows[j].participant is Some && rows[j].participant_user is Some {
        rows.lemma_filter_contains(carries_participant(), j);
        let seen = rows.filter(carries_participant());
        let k = choose|k: int| 0 <= k < seen.len() && seen[k] == rows[j];
        assert(seen[k] == rows[j]);
        assert(joined_participants(rows)[k] == (ParticipantResponse { participant: rows[j].participant->Some_0, user: rows[j].participant_user }));
        assert(joined_participants(rows).contains(joined_participants(rows)[k]));
        assert(rows[j].participant_user == Some(rows[j].participant_user->Some_0));
        assert(joined_participants(rows).contains(ParticipantResponse { participant: rows[j].participant->Some_0, user: Some(rows[j].participant_user->Some_0) }));
    }
}

/// A meeting from the rows of its join: the meeting of the first row, with the members and
/// participants the rows carry. No row: `not_found`.
pub fn meeting_response_from_joined_rows(rows: Vec<JoinedMeetingRow>, not_found: MeetingError) -> (r: Result<MeetingResponse, MeetingError>)
    ensures
        rows@.len() == 0 ==> r == Err::<MeetingResponse, MeetingError>(not_found),
        rows@.len() > 0 ==> (r matches Ok(x) && {
            &&& x.meeting == rows@[0].meeting
            &&& x.members@ == joined_members(rows@)
            &&& x.participants@ == joined_participants(rows@)
            &&& x.latest_message is None
            &&& x.members@.len() == rows@.filter(carries_member()).len()
            &&& x.participants@.len() == rows@.filter(carries_participant()).len()
            &&& forall|j: int| 0 <= j < rows@.len() ==> ((#[trigger] rows@[j]).member is Some && rows@[j].member_user is Some
                ==> x.members@.contains(MemberResponse { member: rows@[j].member->Some_0, user: rows@[j].member_user }))
            &&& forall|j: int| 0 <= j < rows@.len() ==> ((#[trigger] rows@[j]).participant is Some && rows@[j].participant_user is Some
                ==> x.participants@.contains(ParticipantResponse { participant: rows@[j].participant->Some_0, user: rows@[j].participant_user }))
        }),
{
    let mut members: Vec<MemberResponse> = Vec::new();
    let mut participants: Vec<ParticipantResponse> = Vec::new();
    let mut i: usize = 0;
    while i < rows.len()
        invariant
            i <= rows@.len(),
            members@ == joined_members(rows@.take(i as int)),
            participants@ == joined_participants(rows@.take(i as int)),
        decreases rows.len() - i,
    {
        let row = &rows[i];
        proof {
            assert(rows@.take(i + 1).drop_last() =~= rows@.take(i as int));
            assert(rows@.take(i + 1).last() == rows@[i as int]);
        }
        match (&row.member, &row.member_user) {
            (Some(m), Some(u)) => {
                members.push(MemberResponse { member: *m, user: Some(u.clone()) });
            },
            _ => {},
        }
        match (&row.participant, &row.participant_user) {
            (Some(p), Some(u)) => {
                participants.push(ParticipantResponse { participant: *p, user: Some(u.clone()) });
            },
            _ => {},
        }
        i = i + 1;
    }
    assert(rows@.take(rows@.len() as int) =~= rows@);
    proof {
        law_each_joined_row_gives_its_member(rows@);
        assert forall|j: int| 0 <= j < rows@.len() implies ((#[trigger] rows@[j]).member is Some && rows@[j].member_user is Some
            ==> members@.contains(MemberResponse { member: rows@[j].member->Some_0, user: rows@[j].member_user })) by {
            law_no_joined_member_is_lost(rows@, j);
        }
        assert forall|j: int| 0 <= j < rows@.len() implies ((#[trigger] rows@[j]).participant is Some && rows@[j].participant_user is Some
            ==> participants@.contains(ParticipantResponse { participant: rows@[j].participant->Some_0, user: rows@[j].participant_user })) by {
            law_no_joined_member_is_lost(rows@, j);
        }
    }
    if rows.len() == 0 {
        return Err(not_found);
    }
    let meeting = rows[0].meeting.clone();
    Ok(MeetingResponse { meeting, members, participants, latest_message: None })
}

/// Whether a row of the join is one of the meeting with this id and this code.
pub open spec fn of_meeting(row: JoinedMeetingRow, meeting_id: i32, code: i32) -> bool {
    row.meeting.id == meeting_id && row.meeting.code == code
}

/// A row with only a member and a participant of meeting `meeting_id` kept.
pub open spec fn trimmed(row: JoinedMeetingRow, meeting_id: i32) -> JoinedMeetingRow {
    JoinedMeetingRow {
        member: match row.member {
            Some(m) => if m.meeting_id == Some(meeting_id) { Some(m) } else { None },
            None => None,
        },
        participant: match row.participant {
            Some(p) => if p.meeting_id == Some(meeting_id) { Some(p) } else { None },
            None => None,
        },
        ..row
    }
}

/// The rows of the meeting with this id and code, in their order, each trimmed to that
/// meeting's member and participant.
pub open spec fn rows_of_meeting(rows: Seq<JoinedMeetingRow>, meeting_id: i32, code: i32) -> Seq<JoinedMeetingRow>
    decreases rows.len(),
{
    if rows.len() == 0 {
        Seq::empty()
    } else {
        let before = rows_of_meeting(rows.drop_last(), meeting_id, code);
        if of_meeting(rows.last(), meeting_id, code) {
            before.push(trimmed(rows.last(), meeting_id))
        } else {
            before
        }
    }
}

/// Whether `x` is the meeting the rows give for its own id and code: one of the rows'
/// meetings, with the members and participants of its rows, each with its user and each of
/// that meeting, and no latest message.
pub open spec fn assembled_from(rows: Seq<JoinedMeetingRow>, x: MeetingResponse) -> bool {
    &&& exists|i: int| 0 <= i < rows.len() && rows[i].meeting == x.meeting
    &&& x.latest_message is None
    &&& x.members@ == joined_members(rows_of_meeting(rows, x.meeting.id, x.meeting.code))
    &&& x.participants@ == joined_participants(rows_of_meeting(rows, x.meeting.id, x.meeting.code))
    &&& forall|j: int| 0 <= j < x.members@.len() ==> (#[trigger] x.members@[j]).member.meeting_id == Some(x.meeting.id)
        && x.members@[j].user is Some
    &&& forall|j: int| 0 <= j < x.participants@.len() ==> (#[trigger] x.participants@[j]).participant.meeting_id == Some(x.meeting.id)
        && x.participants@[j].user is Some
}

/// Every row kept for a meeting is one of the input's rows for that meeting, with a member and
/// a participant of that meeting only; a matching row at `k` puts the first kept row before it
/// or at it.
proof fn lemma_rows_of_meeting(rows: Seq<JoinedMeetingRow>, meeting_id: i32, code: i32)
    ensures
        forall|j: int| 0 <= j < rows_of_meeting(rows, meeting_id, code).len() ==> {
            let row = #[trigger] rows_of_meeting(rows, meeting_id, code)[j];
            &&& of_meeting(row, meeting_id, code)
            &&& exists|i: int| 0 <= i < rows.len() && rows[i].meeting == row.meeting
            &&& row.member matches Some(m) ==> m.meeting_id == Some(meeting_id)
            &&& row.participant matches Some(p) ==> p.meeting_id == Some(meeting_id)
        },
        (exists|i: int| 0 <= i < rows.len() && of_meeting(#[trigger] rows[i], meeting_id, code))
            ==> rows_of_meeting(rows, meeting_id, code).len() > 0,
    decreases rows.len(),
{
    if rows.len() > 0 {
        let prefix = rows.drop_last();
        lemma_rows_of_meeting(prefix, meeting_id, code);
        let kept = rows_of_meeting(rows, meeting_id, code);
        assert forall|j: int| 0 <= j < kept.len() implies {
            let row = #[trigger] kept[j];
            &&& of_meeting(row, meeting_id, code)
            &&& exists|i: int| 0 <= i < rows.len() && rows[i].meeting == row.meeting
            &&& row.member matches Some(m) ==> m.meeting_id == Some(meeting_id)
            &&& row.participant matches Some(p) ==> p.meeting_id == Some(meeting_id)
        } by {
            let before = rows_of_meeting(prefix, meeting_id, code);
            if j < before.len() {
                assert(kept[j] == before[j]);
                let i = choose|i: int| 0 <= i < prefix.len() && prefix[i].meeting == before[j].meeting;
                assert(rows[i] == prefix[i]);
            } else {
                assert(kept[j] == trimmed(rows.last(), meeting_id));
                assert(rows[rows.len() - 1] == rows.last());
            }
        }
        if exists|i: int| 0 <= i < rows.len() && of_meeting(#[trigger] rows[i], meeting_id, code) {
            let i = choose|i: int| 0 <= i < rows.len() && of_meeting(#[trigger] rows[i], meeting_id, code);
            if i < rows.len() - 1 {
                assert(prefix[i] == rows[i]);
            } else {
                assert(rows[i] == rows.last());
            }
        }
    }
}

/// The members the rows carry are of meeting `meeting_id`, each with its user, when every
/// row's member is.
proof fn lemma_joined_of_meeting(rows: Seq<JoinedMeetingRow>, meeting_id: i32)
    requires
        forall|j: int| 0 <= j < rows.len() ==> ((#[trigger] rows[j]).member matches Some(m) ==> m.meeting_id == Some(meeting_id)),
        forall|j: int| 0 <= j < rows.len() ==> ((#[trigger] rows[j]).participant matches Some(p) ==> p.meeting_id == Some(meeting_id)),
    ensures
        forall|k: int| 0 <= k < joined_members(rows).len() ==> (#[trigger] joined_members(rows)[k]).member.meeting_id == Some(meeting_id)
            && joined_members(rows)[k].user is Some,
        forall|k: int| 0 <= k < joined_participants(rows).len() ==> (#[trigger] joined_participants(rows)[k]).participant.meeting_id == Some(meeting_id)
            && joined_participants(rows)[k].user is Some,
    decreases rows.len(),
{
    if rows.len() > 0 {
        let prefix = rows.drop_last();
        assert forall|j: int| 0 <= j < prefix.len() implies ((#[trigger] prefix[j]).member matches Some(m) ==> m.meeting_id == Some(meeting_id)) by {
            assert(prefix[j] == rows[j]);
        }
        assert forall|j: int| 0 <= j < prefix.len() implies ((#[trigger] prefix[j]).participant matches Some(p) ==> p.meeting_id == Some(meeting_id)) by {
            assert(prefix[j] == rows[j]);
        }
        lemma_joined_of_meeting(prefix, meeting_id);
        assert(rows[rows.len() - 1] == rows.last());
    }
}

/// The rows of the meeting with this id and code, trimmed to its members and participants.
fn keep_rows_of_meeting(rows: &Vec<JoinedMeetingRow>, meeting_id: i32, code: i32) -> (r: Vec<JoinedMeetingRow>)
    ensures
        r@ == rows_of_meeting(rows@, meeting_id, code),
{
    let mut kept: Vec<JoinedMeetingRow> = Vec::new();
    let mut i: usize = 0;
    while i < rows.len()
        invariant
            i <= rows@.len(),
            kept@ == rows_of_meeting(rows@.take(i as int), meeting_id, code),
        decreases rows.len() - i,
    {
        let row = &rows[i];
        proof {
            assert(rows@.take(i + 1).drop_last() =~= rows@.take(i as int));
            assert(rows@.take(i + 1).last() == rows@[i as int]);
        }
        if row.meeting.id == meeting_id && row.meeting.code == code {
            let member = match row.member {
                Some(m) => if m.meeting_id == Some(meeting_id) { Some(m) } else { None },
                None => None,
            };
            let participant = match row.participant {
                Some(p) => if p.meeting_id == Some(meeting_id) { Some(p) } else { None },
                None => None,
            };
            let member_user = match &row.member_user {
                Some(u) => Some(u.clone()),
                None => None,
            };
            let participant_user = match &row.participant_user {
                Some(u) => Some(u.clone()),
                None => None,
            };
            kept.push(JoinedMeetingRow { meeting: row.meeting.clone(), member, participant, member_user, participant_user });
        }
        i = i + 1;
    }
    assert(rows@.take(rows@.len() as int) =~= rows@);
    kept
}

/// The first row whose meeting has this id (or, with `by_code`, this code).
fn first_row_of(rows: &Vec<JoinedMeetingRow>, by_code: bool, key: i32) -> (r: Option<usize>)
    ensures
        match r {
            Some(i) => i < rows@.len() && (if by_code { rows@[i as int].meeting.code == key } else { rows@[i as int].meeting.id == key }),
            None => forall|i: int| 0 <= i < rows@.len() ==> (if by_code { (#[trigger] rows@[i]).meeting.code != key } else { rows@[i].meeting.id != key }),
        },
{
    let mut i: usize = 0;
    while i < rows.len()
        invariant
            i <= rows@.len(),
            forall|j: int| 0 <= j < i ==> (if by_code { (#[trigger] rows@[j]).meeting.code != key } else { rows@[j].meeting.id != key }),
        decreases rows.len() - i,
    {
        let hit = if by_code { rows[i].meeting.code == key } else { rows[i].meeting.id == key };
        if hit {
            return Some(i);
        }
        i = i + 1;
    }
    None
}

/// The meeting the rows of the join give for a meeting looked up by id: the first row with
/// that id fixes the meeting, and only its rows, members and participants are taken. No such
/// row: `MeetingNotFound(meeting_id)`.
pub fn meeting_by_id_from_rows(meeting_id: i32, rows: Vec<JoinedMeetingRow>) -> (r: Result<MeetingResponse, MeetingError>)
    ensures
        (forall|i: int| 0 <= i < rows@.len() ==> (#[trigger] rows@[i]).meeting.id != meeting_id) <==> r is Err,
        r matches Err(e) ==> e == MeetingError::MeetingNotFound(meeting_id),
        r matches Ok(x) ==> x.meeting.id == meeting_id && assembled_from(rows@, x),
{
    match first_row_of(&rows, false, meeting_id) {
        None => Err(MeetingError::MeetingNotFound(meeting_id)),
        Some(i) => {
            let code = rows[i].meeting.code;
            let kept = keep_rows_of_meeting(&rows, meeting_id, code);
            proof {
                assert(of_meeting(rows@[i as int], meeting_id, code));
                lemma_rows_of_meeting(rows@, meeting_id, code);
                lemma_joined_of_meeting(kept@, meeting_id);
            }
            meeting_response_from_joined_rows(kept, MeetingError::MeetingNotFound(meeting_id))
        },
    }
}

/// The meeting the rows of the join give for a meeting looked up by code: the first row with
/// that code fixes the meeting, and only its rows, members and participants are taken. No
/// such row: `MeetingNotFound(meeting_code)`.
pub fn meeting_by_code_from_rows(meeting_code: i32, rows: Vec<JoinedMeetingRow>) -> (r: Result<MeetingResponse, MeetingError>)
    ensures
        (forall|i: int| 0 <= i < rows@.len() ==> (#[trigger] rows@[i]).meeting.code != meeting_code) <==> r is Err,
        r matches Err(e) ==> e == MeetingError::MeetingNotFound(meeting_code),
        r matches Ok(x) ==> x.meeting.code == meeting_code && assembled_from(rows@, x),
{
    match first_row_of(&rows, true, meeting_code) {
        None => Err(MeetingError::MeetingNotFound(meeting_code)),
        Some(i) => {
            let meeting_id = rows[i].meeting.id;
            let kept = keep_rows_of_meeting(&rows, meeting_id, meeting_code);
            proof {
                assert(of_meeting(rows@[i as int], meeting_id, meeting_code));
                lemma_rows_of_meeting(rows@, meeting_id, meeting_code);
                lemma_joined_of_meeting(kept@, meeting_id);
            }
            meeting_response_from_joined_rows(kept, MeetingError::MeetingNotFound(meeting_code))
        },
    }
}

pub open spec fn meeting_ids(meetings: Seq<Meeting>) -> Seq<i32> {
    meetings.map_values(|m: Meeting| m.id)
}

fn ids_of_meetings(meetings: &Vec<Meeting>) -> (r: Vec<i32>)
    ensures
        r@ == meeting_ids(meetings@),
{
    let mut ids: Vec<i32> = Vec::new();
    let mut i: usize = 0;
    while i < meetings.len()
        invariant
            i <= meetings@.len(),
            ids@ == meeting_ids(meetings@.take(i as int)),
        decreases meetings.len() - i,
    {
        ids.push(meetings[i].id);
        assert(meeting_ids(meetings@.take(i + 1)) =~= meeting_ids(meetings@.take(i as int)).push(meetings@[i as int].id));
        i = i + 1;
    }
    assert(meetings@.take(meetings@.len() as int) =~= meetings@);
    ids
}

/// A meeting looked up by id or by code, from the meetings that matched, their members and
/// their participants (each grouped under its meeting). No meeting matched: `not_found`.
pub fn meeting_response_from_rows(
    meetings: Vec<Meeting>,
    members: Vec<MemberResponse>,
    participants: Vec<ParticipantResponse>,
    not_found: MeetingError,
) -> (r: Result<MeetingResponse, MeetingError>)
    ensures
        meetings@.len() == 0 ==> r == Err::<MeetingResponse, MeetingError>(not_found),
        meetings@.len() > 0 ==> (r matches Ok(x) && {
            &&& x.meeting == meetings@[0]
            &&& x.members@ == groups(meeting_ids(meetings@), members@).flatten()
            &&& x.participants@ == groups(meeting_ids(meetings@), participants@).flatten()
            &&& x.latest_message is None
        }),
{
    let ids = ids_of_meetings(&meetings);
    let member_groups = grouped_by(&members, &ids);
    let participant_groups = grouped_by(&participants, &ids);
    let member_list = flattened(member_groups, Ghost(groups(ids@, members@)));
    let participant_list = flattened(participant_groups, Ghost(groups(ids@, participants@)));
    if meetings.len() == 0 {
        return Err(not_found);
    }
    let meeting = meetings[0].clone();
    Ok(MeetingResponse { meeting, members: member_list, participants: participant_list, latest_message: None })
}

/// A meeting as the listing query returns it: with its latest message and that message's author.
#[derive(Debug, PartialEq)]
pub struct MeetingWithLatest {
    pub meeting: Meeting,
    pub latest_message: Option<Message>,
    pub message_author: Option<User>,
}

pub open spec fn listed_ids(rows: Seq<MeetingWithLatest>) -> Seq<i32> {
    rows.map_values(|r: MeetingWithLatest| r.meeting.id)
}

/// The latest message of a listed meeting, with its author and without its meeting.
pub open spec fn latest_of(row: MeetingWithLatest) -> Option<MessageResponse> {
    match row.latest_message {
        Some(m) => Some(MessageResponse { message: m, created_by: row.message_author, meeting: None }),
        None => None,
    }
}

fn ids_of_listed(rows: &Vec<MeetingWithLatest>) -> (r: Vec<i32>)
    ensures
        r@ == listed_ids(rows@),
{
    let mut ids: Vec<i32> = Vec::new();
    let mut i: usize = 0;
    while i < rows.len()
        invariant
            i <= rows@.len(),
            ids@ == listed_ids(rows@.take(i as int)),
        decreases rows.len() - i,
    {
        ids.push(rows[i].meeting.id);
        assert(listed_ids(rows@.take(i + 1)) =~= listed_ids(rows@.take(i as int)).push(rows@[i as int].meeting.id));
        i = i + 1;
    }
    assert(rows@.take(rows@.len() as int) =~= rows@);
    ids
}

/// The meetings of a listing, each with its members, its participants and its latest message.
pub fn meeting_responses_from_rows(
    rows: Vec<MeetingWithLatest>,
    members: Vec<MemberResponse>,
    participants: Vec<ParticipantResponse>,
) -> (r: Vec<MeetingResponse>)
    ensures
        r@.len() == rows@.len(),
        forall|i: int| 0 <= i < rows@.len() ==> {
            &&& (#[trigger] r@[i]).meeting == rows@[i].meeting
            &&& r@[i].members@ == group_at(listed_ids(rows@), members@, i)
            &&& r@[i].participants@ == group_at(listed_ids(rows@), participants@, i)
            &&& r@[i].latest_message == latest_of(rows@[i])
        },
{
    let ids = ids_of_listed(&rows);
    let member_groups = grouped_by(&members, &ids);
    let participant_groups = grouped_by(&participants, &ids);
    let mut out: Vec<MeetingResponse> = Vec::new();
    let mut i: usize = 0;
    while i < rows.len()
        invariant
            i <= rows@.len(),
            ids@ == listed_ids(rows@),
            member_groups@.len() == rows@.len(),
            participant_groups@.len() == rows@.len(),
            forall|k: int| 0 <= k < rows@.len() ==> (#[trigger] member_groups@[k])@ == group_at(ids@, members@, k),
            forall|k: int| 0 <= k < rows@.len() ==> (#[trigger] participant_groups@[k])@ == group_at(ids@, participants@, k),
            out@.len() == i,
            forall|k: int| 0 <= k < i ==> {
                &&& (#[trigger] out@[k]).meeting == rows@[k].meeting
                &&& out@[k].members@ == group_at(listed_ids(rows@), members@, k)
                &&& out@[k].participants@ == group_at(listed_ids(rows@), participants@, k)
                &&& out@[k].latest_message == latest_of(rows@[k])
            },
        decreases rows.len() - i,
    {
        let row = &rows[i];
        let latest_message = match &row.latest_message {
            Some(m) => Some(MessageResponse { message: m.clone(), created_by: row.message_author.clone(), meeting: None }),
            None => None,
        };
        let member_list = member_groups[i].clone();
        let participant_list = participant_groups[i].clone();
        assert(member_list@ =~= member_groups@[i as int]@);
        assert(participant_list@ =~= participant_groups@[i as int]@);
        out.push(MeetingResponse {
            meeting: row.meeting.clone(),
            members: member_list,
            participants: participant_list,
            latest_message,
        });
        i = i + 1;
    }
    out
}

/// A member row (with its user) as the repository answers a lookup of one: the first row,
/// or "Member not found" when there is none.
pub fn first_member(rows: Vec<(Member, Option<User>)>) -> (r: Result<MemberResponse, MeetingError>)
    ensures
        rows@.len() == 0 ==> (r matches Err(e) && crate::meetings::errors::is_meeting_unexpected(e, "Member not found"@)),
        rows@.len() > 0 ==> r == Ok::<MemberResponse, MeetingError>(MemberResponse { member: rows@[0].0, user: rows@[0].1 }),
{
    if rows.len() == 0 {
        return Err(crate::meetings::errors::meeting_unexpected("Member not found"));
    }
    let (member, user) = &rows[0];
    Ok(MemberResponse { member: *member, user: user.clone() })
}

/// A participant row (with its user) as the repository answers a lookup of one: the first
/// row, or "Participant not found" when there is none.
pub fn first_participant(rows: Vec<(Participant, Option<User>)>) -> (r: Result<ParticipantResponse, MeetingError>)
    ensures
        rows@.len() == 0 ==> (r matches Err(e) && crate::meetings::errors::is_meeting_unexpected(e, "Participant not found"@)),
        rows@.len() > 0 ==> r == Ok::<ParticipantResponse, MeetingError>(ParticipantResponse { participant: rows@[0].0, user: rows@[0].1 }),
{
    if rows.len() == 0 {
        return Err(crate::meetings::errors::meeting_unexpected("Participant not found"));
    }
    let (participant, user) = &rows[0];
    Ok(ParticipantResponse { participant: *participant, user: user.clone() })
}

} // verus!
