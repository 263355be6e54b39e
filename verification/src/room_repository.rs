//! Putting rooms together from the rows the database gives back: each room with its
//! members, its participants and its latest message.
use vstd::prelude::*;
use crate::entities::{Member, MembersRoleEnum, Message, NewMember, Participant, Room, RoomStatusEnum, User};
use crate::errors::{is_room_unexpected, room_unexpected};
use crate::errors::RoomError;
use crate::grouping::{belongs_to, flattened, group_at, grouped_by, groups, last_with_key, Child};
use crate::responses::{MemberResponse, MessageResponse, ParticipantResponse, RoomResponse};

verus! {

impl Child for MemberResponse {
    open spec fn parent_key(&self) -> Option<i32> {
        Some(self.member.room_id)
    }

    fn key(&self) -> (r: Option<i32>) {
        Some(self.member.room_id)
    }

    fn duplicate(&self) -> (r: Self) {
        self.clone()
    }
}

impl Child for ParticipantResponse {
    open spec fn parent_key(&self) -> Option<i32> {
        Some(self.participant.room_id)
    }

    fn key(&self) -> (r: Option<i32>) {
        Some(self.participant.room_id)
    }

    fn duplicate(&self) -> (r: Self) {
        self.clone()
    }
}

/// A room as the listing query returns it: with its latest message and that message's author.
#[derive(Debug, PartialEq)]
pub struct RoomWithLatest {
    pub room: Room,
    pub latest_message: Option<Message>,
    pub message_author: Option<User>,
}

pub open spec fn room_ids(rooms: Seq<Room>) -> Seq<i32> {
    rooms.map_values(|r: Room| r.id)
}

pub open spec fn row_ids(rows: Seq<RoomWithLatest>) -> Seq<i32> {
    rows.map_values(|r: RoomWithLatest| r.room.id)
}

/// The latest message of a listed room, with its author and without its room.
pub open spec fn latest_of(row: RoomWithLatest) -> Option<MessageResponse> {
    match row.latest_message {
        Some(m) => Some(MessageResponse { message: m, created_by: row.message_author, room: None }),
        None => None,
    }
}

fn ids_of_rooms(rooms: &Vec<Room>) -> (r: Vec<i32>)
    ensures
        r@ == room_ids(rooms@),
{
    let mut ids: Vec<i32> = Vec::new();
    let mut i: usize = 0;
    while i < rooms.len()
        invariant
            i <= rooms@.len(),
            ids@ == room_ids(rooms@.take(i as int)),
        decreases rooms.len() - i,
    {
        ids.push(rooms[i].id);
        assert(room_ids(rooms@.take(i + 1)) =~= room_ids(rooms@.take(i as int)).push(rooms@[i as int].id));
        i = i + 1;
    }
    assert(rooms@.take(rooms@.len() as int) =~= rooms@);
    ids
}

fn ids_of_rows(rows: &Vec<RoomWithLatest>) -> (r: Vec<i32>)
    ensures
        r@ == row_ids(rows@),
{
    let mut ids: Vec<i32> = Vec::new();
    let mut i: usize = 0;
    while i < rows.len()
        invariant
            i <= rows@.len(),
            ids@ == row_ids(rows@.take(i as int)),
        decreases rows.len() - i,
    {
        ids.push(rows[i].room.id);
        assert(row_ids(rows@.take(i + 1)) =~= row_ids(rows@.take(i as int)).push(rows@[i as int].room.id));
        i = i + 1;
    }
    assert(rows@.take(rows@.len() as int) =~= rows@);
    ids
}

/// A room looked up by id or by code, from the rows that matched (`rooms`), their members and
/// their participants. `not_found` answers when no room matched.
pub fn room_response_from_rows(
    rooms: Vec<Room>,
    members: Vec<MemberResponse>,
    participants: Vec<ParticipantResponse>,
    not_found: RoomError,
) -> (r: Result<RoomResponse, RoomError>)
    ensures
        rooms@.len() == 0 ==> r == Err::<RoomResponse, RoomError>(not_found),
        rooms@.len() > 0 ==> (r matches Ok(x) && {
            &&& x.room == rooms@[0]
            &&& x.members@ == groups(room_ids(rooms@), members@).flatten()
            &&& x.participants@ == groups(room_ids(rooms@), participants@).flatten()
            &&& x.latest_message is None
            &&& x.is_protected is None
        }),
{
    let ids = ids_of_rooms(&rooms);
    let member_groups = grouped_by(&members, &ids);
    let participant_groups = grouped_by(&participants, &ids);
    let member_list = flattened(member_groups, Ghost(groups(ids@, members@)));
    let participant_list = flattened(participant_groups, Ghost(groups(ids@, participants@)));
    if rooms.len() == 0 {
        return Err(not_found);
    }
    let room = rooms[0].clone();
    Ok(RoomResponse { room, members: member_list, participants: participant_list, latest_message: None, is_protected: None })
}

/// The place of a room in a listing: by the instant of its latest message, newest first; a
/// room without one comes first, where a descending order puts what is missing.
pub open spec fn room_rank(room: Room) -> int {
    match room.latest_message_created_at {
        Some(t) => t as int,
        None => i64::MAX as int + 1,
    }
}

fn rank_of(room: &Room) -> (r: i128)
    ensures
        r as int == room_rank(*room),
{
    match room.latest_message_created_at {
        Some(t) => t as i128,
        None => i64::MAX as i128 + 1,
    }
}

/// Whether the loaded memberships make `user_id` a member of room `room_id`.
pub open spec fn member_of(members: Seq<MemberResponse>, user_id: i32, room_id: i32) -> bool {
    exists|k: int| 0 <= k < members.len() && (#[trigger] members[k]).member.room_id == room_id && members[k].member.user_id == user_id
}

/// Whether candidate row `i` may be listed: its room has the status asked for, the user is a
/// member of it, and no earlier row is of the same room.
pub open spec fn listable(rows: Seq<RoomWithLatest>, members: Seq<MemberResponse>, user_id: i32, status: i16, i: int) -> bool {
    &&& 0 <= i < rows.len()
    &&& rows[i].room.status == status
    &&& member_of(members, user_id, rows[i].room.id)
    &&& forall|j: int| 0 <= j < i ==> (#[trigger] rows[j]).room.id != rows[i].room.id
}

/// Whether `order` (positions of candidate rows) is the listing of the candidates: listable
/// rows, newest first, one for each instant of latest message that a listable row has (the
/// first listable row with it).
pub open spec fn listing_order(rows: Seq<RoomWithLatest>, members: Seq<MemberResponse>, user_id: i32, status: i16, order: Seq<usize>) -> bool {
    &&& forall|k: int| 0 <= k < order.len() ==> listable(rows, members, user_id, status, #[trigger] order[k] as int)
    &&& forall|k: int, j: int| #![trigger order[k], listable(rows, members, user_id, status, j)]
        0 <= k < order.len() && 0 <= j < order[k] && listable(rows, members, user_id, status, j)
            ==> room_rank(rows[j].room) != room_rank(rows[order[k] as int].room)
    &&& forall|k: int, l: int| #![trigger order[k], order[l]]
        0 <= k < l < order.len() ==> room_rank(rows[order[k] as int].room) > room_rank(rows[order[l] as int].room)
    &&& forall|i: int| #[trigger] listable(rows, members, user_id, status, i)
        ==> exists|k: int| 0 <= k < order.len() && room_rank(rows[#[trigger] order[k] as int].room) == room_rank(rows[i].room)
}

fn is_member_of(members: &Vec<MemberResponse>, user_id: i32, room_id: i32) -> (r: bool)
    ensures
        r == member_of(members@, user_id, room_id),
{
    let mut k: usize = 0;
    while k < members.len()
        invariant
            k <= members@.len(),
            forall|q: int| 0 <= q < k ==> !((#[trigger] members@[q]).member.room_id == room_id && members@[q].member.user_id == user_id),
        decreases members.len() - k,
    {
        if members[k].member.room_id == room_id && members[k].member.user_id == user_id {
            return true;
        }
        k = k + 1;
    }
    false
}

fn listable_flags(rows: &Vec<RoomWithLatest>, members: &Vec<MemberResponse>, user_id: i32, status: i16) -> (r: Vec<bool>)
    ensures
        r@.len() == rows@.len(),
        forall|i: int| 0 <= i < rows@.len() ==> r@[i] == listable(rows@, members@, user_id, status, i),
{
    let mut flags: Vec<bool> = Vec::new();
    let mut i: usize = 0;
    while i < rows.len()
        invariant
            i <= rows@.len(),
            flags@.len() == i,
            forall|q: int| 0 <= q < i ==> flags@[q] == listable(rows@, members@, user_id, status, q),
        decreases rows.len() - i,
    {
        let id = rows[i].room.id;
        let mut first = true;
        let mut j: usize = 0;
        while j < i
            invariant
                i < rows@.len(),
                j <= i,
                id == rows@[i as int].room.id,
                first == forall|q: int| 0 <= q < j ==> (#[trigger] rows@[q]).room.id != id,
            decreases i - j,
        {
            if rows[j].room.id == id {
                first = false;
            }
            j = j + 1;
        }
        let ok = rows[i].room.status == status && first && is_member_of(members, user_id, id);
        flags.push(ok);
        i = i + 1;
    }
    flags
}

/// The listing order of the candidate rows.
fn order_rows(rows: &Vec<RoomWithLatest>, members: &Vec<MemberResponse>, user_id: i32, status: i16) -> (order: Vec<usize>)
    ensures
        listing_order(rows@, members@, user_id, status, order@),
{
    let flags = listable_flags(rows, members, user_id, status);
    let mut order: Vec<usize> = Vec::new();
    let mut prev: i128 = i64::MAX as i128 + 2;
    let mut searching = true;
    while searching
        invariant
            flags@.len() == rows@.len(),
            forall|i: int| 0 <= i < rows@.len() ==> flags@[i] == listable(rows@, members@, user_id, status, i),
            i64::MIN as int <= prev as int <= i64::MAX as int + 2,
            forall|k: int| 0 <= k < order@.len() ==> listable(rows@, members@, user_id, status, #[trigger] order@[k] as int),
            forall|k: int| 0 <= k < order@.len() ==> room_rank(rows@[#[trigger] order@[k] as int].room) >= prev,
            order@.len() > 0 ==> room_rank(rows@[order@.last() as int].room) == prev,
            forall|k: int, j: int| #![trigger order@[k], listable(rows@, members@, user_id, status, j)]
                0 <= k < order@.len() && 0 <= j < order@[k] && listable(rows@, members@, user_id, status, j)
                    ==> room_rank(rows@[j].room) != room_rank(rows@[order@[k] as int].room),
            forall|k: int, l: int| #![trigger order@[k], order@[l]]
                0 <= k < l < order@.len() ==> room_rank(rows@[order@[k] as int].room) > room_rank(rows@[order@[l] as int].room),
            forall|i: int| #[trigger] listable(rows@, members@, user_id, status, i) && room_rank(rows@[i].room) >= prev
                ==> exists|k: int| 0 <= k < order@.len() && room_rank(rows@[#[trigger] order@[k] as int].room) == room_rank(rows@[i].room),
            !searching ==> forall|i: int| #[trigger] listable(rows@, members@, user_id, status, i) ==> room_rank(rows@[i].room) >= prev,
        decreases prev as int - i64::MIN as int + (if searching { 1int } else { 0int }),
    {
        let mut best: Option<usize> = None;
        let mut best_rank: i128 = 0;
        let mut i: usize = 0;
        while i < rows.len()
            invariant
                i <= rows@.len(),
                flags@.len() == rows@.len(),
                forall|q: int| 0 <= q < rows@.len() ==> flags@[q] == listable(rows@, members@, user_id, status, q),
                match best {
                    Some(b) => {
                        &&& b < i
                        &&& listable(rows@, members@, user_id, status, b as int)
                        &&& best_rank as int == room_rank(rows@[b as int].room)
                        &&& best_rank < prev
                        &&& forall|q: int| 0 <= q < i && #[trigger] listable(rows@, members@, user_id, status, q) && room_rank(rows@[q].room) < prev
                            ==> room_rank(rows@[q].room) <= best_rank
                        &&& forall|q: int| 0 <= q < b && #[trigger] listable(rows@, members@, user_id, status, q) && room_rank(rows@[q].room) < prev
                            ==> room_rank(rows@[q].room) < best_rank
                    },
                    None => forall|q: int| 0 <= q < i && #[trigger] listable(rows@, members@, user_id, status, q) ==> room_rank(rows@[q].room) >= prev,
                },
            decreases rows.len() - i,
        {
            if flags[i] {
                let rank = rank_of(&rows[i].room);
                let better = match best {
                    None => true,
                    Some(_) => rank > best_rank,
                };
                if rank < prev && better {
                    best = Some(i);
                    best_rank = rank;
                }
            }
            i = i + 1;
        }
        match best {
            None => {
                searching = false;
            },
            Some(b) => {
                let ghost old_order = order@;
                let ghost old_prev = prev;
                order.push(b);
                prev = best_rank;
                proof {
                    assert forall|q: int| #[trigger] listable(rows@, members@, user_id, status, q) && room_rank(rows@[q].room) >= prev
                        implies exists|k: int| 0 <= k < order@.len() && room_rank(rows@[#[trigger] order@[k] as int].room) == room_rank(rows@[q].room) by {
                        if room_rank(rows@[q].room) >= old_prev {
                            let k = choose|k: int| 0 <= k < old_order.len() && room_rank(rows@[#[trigger] old_order[k] as int].room) == room_rank(rows@[q].room);
                            assert(order@[k] == old_order[k]);
                        } else {
                            assert(order@[old_order.len() as int] == b);
                        }
                    }
                    assert forall|k: int, j: int| #![trigger order@[k], listable(rows@, members@, user_id, status, j)]
                        0 <= k < order@.len() && 0 <= j < order@[k] && listable(rows@, members@, user_id, status, j)
                            implies room_rank(rows@[j].room) != room_rank(rows@[order@[k] as int].room) by {
                        if k < old_order.len() {
                            assert(order@[k] == old_order[k]);
                        }
                    }
                    assert forall|k: int, l: int| #![trigger order@[k], order@[l]]
                        0 <= k < l < order@.len() implies room_rank(rows@[order@[k] as int].room) > room_rank(rows@[order@[l] as int].room) by {
                        assert(order@[k] == old_order[k]);
                        if l < old_order.len() {
                            assert(order@[l] == old_order[l]);
                        }
                    }
                }
            },
        }
    }
    order
}

/// The rooms of a listing, each with its members, its participants and its latest message.
pub fn room_responses_from_rows(
    rows: Vec<RoomWithLatest>,
    members: Vec<MemberResponse>,
    participants: Vec<ParticipantResponse>,
) -> (r: Vec<RoomResponse>)
    ensures
        r@.len() == rows@.len(),
        forall|i: int| 0 <= i < rows@.len() ==> {
            &&& (#[trigger] r@[i]).room == rows@[i].room
            &&& r@[i].members@ == group_at(row_ids(rows@), members@, i)
            &&& r@[i].participants@ == group_at(row_ids(rows@), participants@, i)
            &&& r@[i].latest_message == latest_of(rows@[i])
            &&& r@[i].is_protected is None
        },
        forall|i: int| 0 <= i < rows@.len() ==> match rows@[i].latest_message {
            Some(m) => (#[trigger] r@[i]).latest_message == Some(MessageResponse { message: m, created_by: rows@[i].message_author, room: None }),
            None => r@[i].latest_message is None,
        },
{
    let ids = ids_of_rows(&rows);
    let member_groups = grouped_by(&members, &ids);
    let participant_groups = grouped_by(&participants, &ids);
    let mut out: Vec<RoomResponse> = Vec::new();
    let mut i: usize = 0;
    while i < rows.len()
        invariant
            i <= rows@.len(),
            ids@ == row_ids(rows@),
            member_groups@.len() == rows@.len(),
            participant_groups@.len() == rows@.len(),
            forall|k: int| 0 <= k < rows@.len() ==> (#[trigger] member_groups@[k])@ == group_at(ids@, members@, k),
            forall|k: int| 0 <= k < rows@.len() ==> (#[trigger] participant_groups@[k])@ == group_at(ids@, participants@, k),
            out@.len() == i,
            forall|k: int| 0 <= k < i ==> {
                &&& (#[trigger] out@[k]).room == rows@[k].room
                &&& out@[k].members@ == group_at(row_ids(rows@), members@, k)
                &&& out@[k].participants@ == group_at(row_ids(rows@), participants@, k)
                &&& out@[k].latest_message == latest_of(rows@[k])
                &&& out@[k].is_protected is None
            },
        decreases rows.len() - i,
    {
        let row = &rows[i];
        let latest_message = match &row.latest_message {
            Some(m) => Some(MessageResponse { message: m.clone(), created_by: row.message_author.clone(), room: None }),
            None => None,
        };
        let member_list = member_groups[i].clone();
        let participant_list = participant_groups[i].clone();
        assert(member_list@ =~= member_groups@[i as int]@);
        assert(participant_list@ =~= participant_groups@[i as int]@);
        out.push(RoomResponse {
            room: row.room.clone(),
            members: member_list,
            participants: participant_list,
            latest_message,
            is_protected: None,
        });
        i = i + 1;
    }
    out
}

/// Whether `v` is the page from `skip`, at most `limit` long, of the listing `order`: each room
/// with its members, its participants and its latest message.
pub open spec fn listed_page(
    rows: Seq<RoomWithLatest>,
    members: Seq<MemberResponse>,
    participants: Seq<ParticipantResponse>,
    order: Seq<usize>,
    skip: int,
    limit: int,
    v: Seq<RoomResponse>,
) -> bool {
    let from = if skip < order.len() { skip } else { order.len() as int };
    let to = if skip + limit < order.len() { skip + limit } else { order.len() as int };
    &&& v.len() == to - from
    &&& forall|i: int| 0 <= i < v.len() ==> {
        let row = rows[order[from + i] as int];
        &&& (#[trigger] v[i]).room == row.room
        &&& v[i].members@ == members.filter(belongs_to::<MemberResponse>(row.room.id))
        &&& v[i].participants@ == participants.filter(belongs_to::<ParticipantResponse>(row.room.id))
        &&& v[i].latest_message == latest_of(row)
        &&& v[i].is_protected is None
    }
}

/// What every listing keeps: at most `limit` rooms, newest first, no room twice, each with the
/// status asked for, the user among its members, and only its own members and participants.
pub open spec fn listing_laws(v: Seq<RoomResponse>, user_id: i32, status: i16, limit: int) -> bool {
    &&& v.len() <= limit
    &&& forall|k: int, l: int| 0 <= k < l < v.len() ==> room_rank((#[trigger] v[k]).room) > room_rank((#[trigger] v[l]).room)
    &&& forall|k: int, l: int| 0 <= k < l < v.len() ==> (#[trigger] v[k]).room.id != (#[trigger] v[l]).room.id
    &&& forall|i: int| 0 <= i < v.len() ==> {
        &&& (#[trigger] v[i]).room.status == status
        &&& member_of(v[i].members@, user_id, v[i].room.id)
        &&& forall|j: int| 0 <= j < v[i].members@.len() ==> (#[trigger] v[i].members@[j]).member.room_id == v[i].room.id
        &&& forall|j: int| 0 <= j < v[i].participants@.len() ==> (#[trigger] v[i].participants@[j]).participant.room_id == v[i].room.id
    }
}

/// A listed room carries the latest message of its candidate row, with that message's
/// author: a row with a latest message gives a room that shows it, and a row without one a
/// room without one.
pub proof fn law_listed_room_carries_its_latest_message(
    rows: Seq<RoomWithLatest>,
    members: Seq<MemberResponse>,
    participants: Seq<ParticipantResponse>,
    order: Seq<usize>,
    skip: int,
    limit: int,
    v: Seq<RoomResponse>,
    i: int,
)
    requires
        0 <= skip,
        0 <= limit,
        forall|k: int| 0 <= k < order.len() ==> (#[trigger] order[k] as int) < rows.len(),
        listed_page(rows, members, participants, order, skip, limit, v),
        0 <= i < v.len(),
    ensures
        exists|j: int| 0 <= j < rows.len() && (#[trigger] rows[j]).room == v[i].room && match rows[j].latest_message {
            Some(m) => v[i].latest_message == Some(MessageResponse { message: m, created_by: rows[j].message_author, room: None }),
            None => v[i].latest_message is None,
        },
{
    let from = if skip < order.len() { skip } else { order.len() as int };
    let j = order[from + i] as int;
    assert(v[i].room == rows[j].room);
    assert(0 <= j < rows.len());
}

fn copy_row(row: &RoomWithLatest) -> (r: RoomWithLatest)
    ensures
        r == *row,
{
    let latest_message = match &row.latest_message {
        Some(m) => Some(m.clone()),
        None => None,
    };
    let message_author = match &row.message_author {
        Some(u) => Some(u.clone()),
        None => None,
    };
    RoomWithLatest { room: row.room.clone(), latest_message, message_author }
}

/// The rooms a user lists: from the candidate rows (rooms with their latest message and its
/// author, in any order), the rooms with the status asked for of which the user is a member,
/// one per room, newest first and one per instant of latest message, from `skip` and at most
/// `limit` of them, each with its members and participants. A negative `skip` or `limit` is
/// refused, as the database refuses it.
pub fn room_listing(
    user_id: i32,
    room_status: RoomStatusEnum,
    skip: i64,
    limit: i64,
    rows: Vec<RoomWithLatest>,
    members: Vec<MemberResponse>,
    participants: Vec<ParticipantResponse>,
) -> (r: Result<Vec<RoomResponse>, RoomError>)
    ensures
        (skip < 0 || limit < 0) <==> r is Err,
        r matches Err(e) ==> is_room_unexpected(e, "Failed to find rooms"@),
        r matches Ok(v) ==> exists|order: Seq<usize>| #[trigger] listing_order(rows@, members@, user_id, room_status.code(), order)
            && listed_page(rows@, members@, participants@, order, skip as int, limit as int, v@),
        r matches Ok(v) ==> listing_laws(v@, user_id, room_status.code(), limit as int),
        r matches Ok(v) ==> forall|i: int| #![trigger v@[i]] 0 <= i < v@.len() ==> exists|j: int| 0 <= j < rows@.len() && (#[trigger] rows@[j]).room == v@[i].room
            && match rows@[j].latest_message {
                Some(m) => v@[i].latest_message == Some(MessageResponse { message: m, created_by: rows@[j].message_author, room: None }),
                None => v@[i].latest_message is None,
            },
{
    if skip < 0 || limit < 0 {
        return Err(room_unexpected("Failed to find rooms"));
    }
    let status = room_status.to_i16();
    let order = order_rows(&rows, &members, user_id, status);
    let len = order.len();
    let from: usize = if (skip as i128) < (len as i128) { skip as usize } else { len };
    let end: i128 = skip as i128 + limit as i128;
    let to: usize = if end < (len as i128) { end as usize } else { len };
    let mut page: Vec<RoomWithLatest> = Vec::new();
    let mut k: usize = from;
    while k < to
        invariant
            from <= k <= to,
            to <= order@.len(),
            page@.len() == k - from,
            forall|q: int| 0 <= q < page@.len() ==> #[trigger] page@[q] == rows@[order@[from + q] as int],
            forall|q: int| 0 <= q < order@.len() ==> (#[trigger] order@[q] as int) < rows@.len(),
        decreases to - k,
    {
        page.push(copy_row(&rows[order[k]]));
        k = k + 1;
    }
    let ghost page_rows = page@;
    let ghost member_rows = members@;
    let ghost participant_rows = participants@;
    proof {
        assert forall|a: int, b: int| 0 <= a < b < page_rows.len() implies (#[trigger] page_rows[a]).room.id != (#[trigger] page_rows[b]).room.id by {
            let pa = order@[from + a] as int;
            let pb = order@[from + b] as int;
            assert(room_rank(rows@[pa].room) > room_rank(rows@[pb].room));
            assert(listable(rows@, members@, user_id, status, pa));
            assert(listable(rows@, members@, user_id, status, pb));
            if pa < pb {
                assert(rows@[pa].room.id != rows@[pb].room.id);
            } else {
                assert(rows@[pb].room.id != rows@[pa].room.id);
            }
        }
    }
    let v = room_responses_from_rows(page, members, participants);
    proof {
        let ids = row_ids(page_rows);
        assert forall|i: int| 0 <= i < v@.len() implies {
            &&& v@[i].members@ == member_rows.filter(belongs_to::<MemberResponse>(page_rows[i].room.id))
            &&& v@[i].participants@ == participant_rows.filter(belongs_to::<ParticipantResponse>(page_rows[i].room.id))
        } by {
            assert(ids[i] == page_rows[i].room.id);
            assert forall|j: int| i < j < ids.len() implies ids[j] != ids[i] by {
                assert(ids[j] == page_rows[j].room.id);
            }
            assert(last_with_key(ids, i));
        }
        assert(listed_page(rows@, member_rows, participant_rows, order@, skip as int, limit as int, v@));
        assert forall|i: int| #![trigger v@[i]] 0 <= i < v@.len() implies exists|j: int| 0 <= j < rows@.len() && (#[trigger] rows@[j]).room == v@[i].room
            && match rows@[j].latest_message {
                Some(m) => v@[i].latest_message == Some(MessageResponse { message: m, created_by: rows@[j].message_author, room: None }),
                None => v@[i].latest_message is None,
            } by {
            law_listed_room_carries_its_latest_message(rows@, member_rows, participant_rows, order@, skip as int, limit as int, v@, i);
        }
        assert forall|i: int| 0 <= i < v@.len() implies {
            &&& (#[trigger] v@[i]).room.status == status
            &&& member_of(v@[i].members@, user_id, v@[i].room.id)
            &&& forall|j: int| 0 <= j < v@[i].members@.len() ==> (#[trigger] v@[i].members@[j]).member.room_id == v@[i].room.id
            &&& forall|j: int| 0 <= j < v@[i].participants@.len() ==> (#[trigger] v@[i].participants@[j]).participant.room_id == v@[i].room.id
        } by {
            let p = order@[from + i] as int;
            let id = rows@[p].room.id;
            assert(listable(rows@, member_rows, user_id, status, p));
            let m = choose|m: int| 0 <= m < member_rows.len() && (#[trigger] member_rows[m]).member.room_id == id && member_rows[m].member.user_id == user_id;
            member_rows.lemma_filter_contains(belongs_to::<MemberResponse>(id), m);
            let kept = member_rows.filter(belongs_to::<MemberResponse>(id));
            let n = choose|n: int| 0 <= n < kept.len() && kept[n] == member_rows[m];
            assert(kept[n].member.room_id == id && kept[n].member.user_id == user_id);
            assert forall|j: int| 0 <= j < kept.len() implies (#[trigger] kept[j]).member.room_id == id by {
                member_rows.lemma_filter_pred(belongs_to::<MemberResponse>(id), j);
            }
            let seen = participant_rows.filter(belongs_to::<ParticipantResponse>(id));
            assert forall|j: int| 0 <= j < seen.len() implies (#[trigger] seen[j]).participant.room_id == id by {
                participant_rows.lemma_filter_pred(belongs_to::<ParticipantResponse>(id), j);
            }
        }
        assert forall|a: int, b: int| 0 <= a < b < v@.len() implies room_rank((#[trigger] v@[a]).room) > room_rank((#[trigger] v@[b]).room) by {
            assert(v@[a].room == page_rows[a].room);
            assert(v@[b].room == page_rows[b].room);
        }
        assert forall|a: int, b: int| 0 <= a < b < v@.len() implies (#[trigger] v@[a]).room.id != (#[trigger] v@[b]).room.id by {
            assert(v@[a].room == page_rows[a].room);
            assert(v@[b].room == page_rows[b].room);
        }
    }
    Ok(v)
}

/// A member row (with its user) as the repository answers a lookup of one: the first row,
/// or "Member not found" when there is none.
pub fn first_member(rows: Vec<(Member, Option<User>)>) -> (r: Result<MemberResponse, RoomError>)
    ensures
        rows@.len() == 0 ==> (r matches Err(e) && is_room_unexpected(e, "Member not found"@)),
        rows@.len() > 0 ==> r == Ok::<MemberResponse, RoomError>(MemberResponse { member: rows@[0].0, user: rows@[0].1 }),
{
    if rows.len() == 0 {
        return Err(room_unexpected("Member not found"));
    }
    let (member, user) = &rows[0];
    Ok(MemberResponse { member: member.clone(), user: user.clone() })
}

/// A participant row (with its user) as the repository answers a lookup of one: the first
/// row, or "Participant not found" when there is none.
pub fn first_participant(rows: Vec<(Participant, Option<User>)>) -> (r: Result<ParticipantResponse, RoomError>)
    ensures
        rows@.len() == 0 ==> (r matches Err(e) && is_room_unexpected(e, "Participant not found"@)),
        rows@.len() > 0 ==> r == Ok::<ParticipantResponse, RoomError>(ParticipantResponse { participant: rows@[0].0, user: rows@[0].1 }),
{
    if rows.len() == 0 {
        return Err(room_unexpected("Participant not found"));
    }
    let (participant, user) = &rows[0];
    Ok(ParticipantResponse { participant: participant.clone(), user: user.clone() })
}

/// The answer to deleting one participant: deleting no row is an error.
pub fn participant_deletion(deleted_rows: usize) -> (r: Result<(), RoomError>)
    ensures
        deleted_rows == 0 <==> r is Err,
        r matches Err(e) ==> is_room_unexpected(e, "No participant found to delete"@),
{
    if deleted_rows == 0 {
        return Err(room_unexpected("No participant found to delete"));
    }
    Ok(())
}

/// The membership of a room's creator, its owner, inserted together with the room.
pub fn new_owner(room_id: i32, user_id: i32, created_at: i64) -> (r: NewMember)
    ensures
        r == (NewMember { room_id, user_id: Some(user_id), role: MembersRoleEnum::Owner.code(), created_at }),
{
    NewMember { room_id, user_id: Some(user_id), role: MembersRoleEnum::Owner.to_i16(), created_at }
}

/// A room just created with its owner: the owner's membership with its user, and nothing else.
pub fn created_room_response(room: Room, member: Member, user: User) -> (r: RoomResponse)
    ensures
        r.room == room,
        r.members@ == seq![MemberResponse { member, user: Some(user) }],
        r.participants@.len() == 0,
        r.latest_message is None,
        r.is_protected is None,
{
    let mut members: Vec<MemberResponse> = Vec::new();
    members.push(MemberResponse { member, user: Some(user) });
    RoomResponse { room, members, participants: Vec::new(), latest_message: None, is_protected: None }
}

/// A room just created on its own: no member, no participant.
pub fn bare_room_response(room: Room) -> (r: RoomResponse)
    ensures
        r.room == room,
        r.members@.len() == 0,
        r.participants@.len() == 0,
        r.latest_message is None,
        r.is_protected is None,
{
    RoomResponse { room, members: Vec::new(), participants: Vec::new(), latest_message: None, is_protected: None }
}

} // verus!
