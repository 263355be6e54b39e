//! The media side of meetings: the session (CCU) of each connected socket, and attaching a
//! participant to the session of the socket that publishes its media.
use vstd::prelude::*;
use crate::meetings::errors::{is_meeting_unexpected, meeting_unexpected, CcuError, MeetingError};
use crate::meetings::models::{Ccu, NewCcu, Participant};
use crate::meetings::repositories::{CcuCall, CcuRepository, CcuStore, MeetingCall, MeetingRepository, MeetingStore};
use crate::meetings::responses::ParticipantResponse;
use crate::outside::now_micros;

verus! {

/// The pod every session is recorded on.
pub const POD_NAME: &'static str = "pod_name_1";

/// Whether `r` is the row of the session of socket `socket_id`, opened by `user_id` on the pod.
pub open spec fn is_ccu_row(r: NewCcu, socket_id: Seq<char>, user_id: i32) -> bool {
    &&& r.socket_id@ == socket_id
    &&& r.pod_name@ == POD_NAME@
    &&& r.user_id == Some(user_id)
}

/// The row of the session of socket `socket_id`, opened by `user_id` at `now`.
pub fn new_ccu(socket_id: &str, user_id: i32, now: i64) -> (r: NewCcu)
    ensures
        is_ccu_row(r, socket_id@, user_id),
        r.created_at == now,
{
    NewCcu { socket_id: socket_id.to_string(), pod_name: POD_NAME.to_string(), user_id: Some(user_id), created_at: now }
}

/// The session of a socket must exist: a failed lookup becomes "CCU not found".
pub fn require_ccu(ccu: Result<Ccu, CcuError>) -> (r: Result<Ccu, MeetingError>)
    ensures
        match ccu {
            Ok(c) => r == Ok::<Ccu, MeetingError>(c),
            Err(_) => r matches Err(e) && is_meeting_unexpected(e, "CCU not found"@),
        },
{
    match ccu {
        Ok(c) => Ok(c),
        Err(_) => Err(meeting_unexpected("CCU not found")),
    }
}

/// A participant attached to the session `ccu_id`.
pub fn attached_to(participant: Participant, ccu_id: i32) -> (r: Participant)
    ensures
        r == (Participant { ccu_id: Some(ccu_id), ..participant }),
{
    let mut participant = participant;
    participant.ccu_id = Some(ccu_id);
    participant
}

/// The media service over a session store and a meeting store.
pub struct SfuServiceImpl<C: CcuRepository, M: MeetingRepository> {
    ccus: CcuStore<C>,
    meetings: MeetingStore<M>,
}

impl<C: CcuRepository, M: MeetingRepository> SfuServiceImpl<C, M> {
    /// The session store the service reads and writes, with the calls made to it.
    pub closed spec fn ccus(&self) -> CcuStore<C> {
        self.ccus
    }

    /// The meeting store the service reads and writes, with the calls made to it.
    pub closed spec fn meetings(&self) -> MeetingStore<M> {
        self.meetings
    }

    /// Whether this service works on the same stores as `earlier`.
    pub open spec fn same_stores(&self, earlier: Self) -> bool {
        &&& self.ccus().repository() == earlier.ccus().repository()
        &&& self.meetings().repository() == earlier.meetings().repository()
    }

    pub fn new(ccu_repository: C, meeting_repository: M) -> (r: Self)
        ensures
            r.ccus().repository() == ccu_repository,
            r.meetings().repository() == meeting_repository,
            r.ccus().calls() == Seq::<CcuCall>::empty(),
            r.meetings().calls() == Seq::<MeetingCall>::empty(),
    {
        SfuServiceImpl { ccus: CcuStore::new(ccu_repository), meetings: MeetingStore::new(meeting_repository) }
    }

    /// Opens the session of a socket: the store's answer to creating its row is the answer.
    pub fn create_ccu(&mut self, socket_id: &str, user_id: i32) -> (r: Result<Ccu, CcuError>)
        ensures
            final(self).same_stores(*old(self)),
            final(self).meetings().calls() == old(self).meetings().calls(),
            exists|row: NewCcu| #[trigger] old(self).ccus().repository().answers_create_ccu(row, r) && is_ccu_row(row, socket_id@, user_id)
                && final(self).ccus().calls() == old(self).ccus().calls().push(CcuCall::CreateCcu(row, r)),
    {
        let now = now_micros();
        let row = new_ccu(socket_id, user_id, now);
        let ghost row_ = row;
        let r = self.ccus.create_ccu(row);
        assert(old(self).ccus().repository().answers_create_ccu(row_, r));
        r
    }

    /// Closes the session of a socket: the store's answer is the answer.
    pub fn delete_ccu(&mut self, socket_id: &str) -> (r: Result<(), CcuError>)
        ensures
            final(self).same_stores(*old(self)),
            final(self).meetings().calls() == old(self).meetings().calls(),
            final(self).ccus().calls() == old(self).ccus().calls().push(CcuCall::DeleteCcuBySocketId(socket_id@, r)),
    {
        self.ccus.delete_ccu_by_socket_id(socket_id)
    }

    /// The store's answer for the session with this id.
    pub fn get_ccu_by_id(&mut self, ccu_id: i32) -> (r: Result<Ccu, CcuError>)
        ensures
            final(self).same_stores(*old(self)),
            final(self).meetings().calls() == old(self).meetings().calls(),
            final(self).ccus().calls() == old(self).ccus().calls().push(CcuCall::GetCcuById(ccu_id, r)),
    {
        self.ccus.get_ccu_by_id(ccu_id)
    }

    /// Attaches a participant to the session of the socket `socket_id`: the session and the
    /// participant are looked up, and the store's answer to storing the participant attached
    /// is the answer. Without a session the meeting store is not asked.
    pub fn update_participant(&mut self, participant_id: i32, socket_id: &str) -> (r: Result<ParticipantResponse, MeetingError>)
        ensures
            final(self).same_stores(*old(self)),
            exists|found: Result<Ccu, CcuError>| #[trigger] old(self).ccus().repository().answers_get_ccu_by_socket_id(socket_id@, found) && {
                &&& final(self).ccus().calls() == old(self).ccus().calls().push(CcuCall::GetCcuBySocketId(socket_id@, found))
                &&& match found {
                    Err(_) => (r matches Err(e) && is_meeting_unexpected(e, "CCU not found"@))
                        && final(self).meetings().calls() == old(self).meetings().calls(),
                    Ok(ccu) => exists|p: Result<ParticipantResponse, MeetingError>|
                        #[trigger] old(self).meetings().repository().answers_get_participant_by_id(participant_id, p) && {
                        let looked_up = old(self).meetings().calls().push(MeetingCall::GetParticipantById(participant_id, p));
                        match p {
                            Err(e) => r == Err::<ParticipantResponse, MeetingError>(e) && final(self).meetings().calls() == looked_up,
                            Ok(participant) => final(self).meetings().calls() == looked_up.push(MeetingCall::UpdateParticipant(
                                Participant { ccu_id: Some(ccu.id), ..participant.participant }, r)),
                        }
                    },
                }
            },
    {
        let found = self.ccus.get_ccu_by_socket_id(socket_id);
        assert(old(self).ccus().repository().answers_get_ccu_by_socket_id(socket_id@, found));
        let ccu = match require_ccu(found) {
            Err(e) => { return Err(e); },
            Ok(ccu) => ccu,
        };
        let p = self.meetings.get_participant_by_id(participant_id);
        assert(old(self).meetings().repository().answers_get_participant_by_id(participant_id, p));
        let participant = match p {
            Err(e) => { return Err(e); },
            Ok(participant) => participant,
        };
        self.meetings.update_participant(attached_to(participant.participant, ccu.id))
    }

    /// Removes a participant who left the call: the store's answer is the answer.
    pub fn delete_participant(&mut self, participant_id: i32) -> (r: Result<(), MeetingError>)
        ensures
            final(self).same_stores(*old(self)),
            final(self).ccus().calls() == old(self).ccus().calls(),
            final(self).meetings().calls() == old(self).meetings().calls().push(MeetingCall::DeleteParticipantById(participant_id, r)),
    {
        self.meetings.delete_participant_by_id(participant_id)
    }
}

} // verus!
