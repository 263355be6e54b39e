//! What the socket handlers decide. The handlers themselves (in the server) read the event,
//! call these functions, and then talk to the media manager, the services and the socket.
use vstd::prelude::*;
use crate::parsing::{lemma_parse_i32_of_decimal, parse_i32, parsed_i32};
use crate::strings::decimal;
use crate::socket::dtos::{JoinRoomDto, SetScreenSharingDto};
use crate::socket::responses::{CameraTypeResponse, EnabledResponse, HandleRaisingResponse, ParticipantHasLeftResponse, ScreenSharingResponse, SubscriberRenegotiationResponse};

verus! {

/// The media manager's record of a connected client: which participant it publishes for, in
/// which meeting's call.
#[derive(Debug, Clone, PartialEq)]
pub struct ClientInfo {
    pub participant_id: String,
    pub room_id: String,
}

/// The user a connecting socket authenticated as, read from the token's id. `None` (the
/// socket is then left without handlers) when the id is not an `i32`.
pub fn connected_user(user_id: &str) -> (r: Option<i32>)
    ensures
        r == parsed_i32(user_id@),
{
    parse_i32(user_id)
}

/// The participant a publishing client stands for; `None` (nothing is published) when the
/// id is not an `i32`.
pub fn publishing_participant(data: &JoinRoomDto) -> (r: Option<i32>)
    ensures
        r == parsed_i32(data.participant_id@),
{
    parse_i32(data.participant_id.as_str())
}

/// The camera type as the media manager takes it: the number when it fits in a `u8`.
pub fn camera_type_code(type_: i32) -> (r: Option<u8>)
    ensures
        0 <= type_ <= 255 <==> r == Some(type_ as u8),
        (type_ < 0 || type_ > 255) <==> r is None,
{
    if 0 <= type_ && type_ <= 255 {
        Some(type_ as u8)
    } else {
        None
    }
}

/// What a handler broadcasts, and to which call.
#[derive(Debug, Clone, PartialEq)]
pub struct Broadcast<T> {
    pub room_id: String,
    pub notice: T,
}

/// A switch of a client's, told to the rest of its call.
pub fn enabled_broadcast(client: &ClientInfo, is_enabled: bool) -> (r: Broadcast<EnabledResponse>)
    ensures
        r.room_id@ == client.room_id@,
        r.notice.participant_id@ == client.participant_id@,
        r.notice.is_enabled == is_enabled,
{
    Broadcast {
        room_id: client.room_id.clone(),
        notice: EnabledResponse { participant_id: client.participant_id.clone(), is_enabled },
    }
}

/// A raised or lowered hand, told to the rest of the call.
pub fn hand_raising_broadcast(client: &ClientInfo, is_raising: bool) -> (r: Broadcast<HandleRaisingResponse>)
    ensures
        r.room_id@ == client.room_id@,
        r.notice.participant_id@ == client.participant_id@,
        r.notice.is_raising == is_raising,
{
    Broadcast {
        room_id: client.room_id.clone(),
        notice: HandleRaisingResponse { participant_id: client.participant_id.clone(), is_raising },
    }
}

/// A screen share, told to the rest of the call with the track that carries it.
pub fn screen_sharing_broadcast(client: &ClientInfo, data: SetScreenSharingDto) -> (r: Broadcast<ScreenSharingResponse>)
    ensures
        r.room_id@ == client.room_id@,
        r.notice.participant_id@ == client.participant_id@,
        r.notice.is_sharing == data.is_sharing,
        r.notice.screen_track_id == data.screen_track_id,
{
    Broadcast {
        room_id: client.room_id.clone(),
        notice: ScreenSharingResponse {
            participant_id: client.participant_id.clone(),
            is_sharing: data.is_sharing,
            screen_track_id: data.screen_track_id,
        },
    }
}

/// A camera switch: the code for the media manager and the notice for the call, or nothing
/// at all when the number does not fit in a `u8`.
pub fn camera_type_change(client: &ClientInfo, type_: i32) -> (r: Option<(u8, Broadcast<CameraTypeResponse>)>)
    ensures
        (0 <= type_ <= 255) <==> r is Some,
        r matches Some((code, b)) ==> {
            &&& code == type_
            &&& b.room_id@ == client.room_id@
            &&& b.notice.participant_id@ == client.participant_id@
            &&& b.notice.type_ == type_
        },
{
    match camera_type_code(type_) {
        Some(code) => Some((
            code,
            Broadcast {
                room_id: client.room_id.clone(),
                notice: CameraTypeResponse { participant_id: client.participant_id.clone(), type_ },
            },
        )),
        None => None,
    }
}

/// A new offer for the subscriber of `target_id`.
pub fn renegotiation_notice(target_id: &str, sdp: String) -> (r: SubscriberRenegotiationResponse)
    ensures
        r.target_id@ == target_id@,
        r.sdp == sdp,
{
    SubscriberRenegotiationResponse { target_id: target_id.to_string(), sdp }
}

/// What follows a client's leaving: the notice to its call, the participant row to delete
/// (when its id is an `i32`) and whether the socket's session goes too (on disconnect).
#[derive(Debug, Clone, PartialEq)]
pub struct LeavePlan {
    pub left: Broadcast<ParticipantHasLeftResponse>,
    pub participant_to_delete: Option<i32>,
    pub remove_ccu: bool,
}

/// The plan for a client that leaves its call; `disconnected` when its socket went away.
pub fn leave_plan(client: &ClientInfo, disconnected: bool) -> (r: LeavePlan)
    ensures
        r.left.room_id@ == client.room_id@,
        r.left.notice.target_id@ == client.participant_id@,
        r.participant_to_delete == parsed_i32(client.participant_id@),
        r.remove_ccu == disconnected,
{
    LeavePlan {
        left: Broadcast {
            room_id: client.room_id.clone(),
            notice: ParticipantHasLeftResponse { target_id: client.participant_id.clone() },
        },
        participant_to_delete: parse_i32(client.participant_id.as_str()),
        remove_ccu: disconnected,
    }
}

/// What the media manager needs to publish a client's media.
#[derive(Debug, Clone, PartialEq)]
pub struct PublishRequest {
    pub sdp: String,
    pub is_audio_enabled: bool,
    pub is_video_enabled: bool,
    pub is_e2ee_enabled: bool,
    pub total_tracks: u8,
}

/// What publishing to a call takes: the client's record for the media manager, the
/// participant to attach to the socket's session (when its id is an `i32`; otherwise nothing
/// is published) and the request to publish with.
#[derive(Debug, Clone, PartialEq)]
pub struct JoinPlan {
    pub client: ClientInfo,
    pub participant: Option<i32>,
    pub request: PublishRequest,
}

/// The plan for a client that publishes to a call.
pub fn join_plan(data: JoinRoomDto) -> (r: JoinPlan)
    ensures
        r.client.participant_id == data.participant_id,
        r.client.room_id == data.room_id,
        r.participant == parsed_i32(data.participant_id@),
        r.request == (PublishRequest {
            sdp: data.sdp,
            is_audio_enabled: data.is_audio_enabled,
            is_video_enabled: data.is_video_enabled,
            is_e2ee_enabled: data.is_e2ee_enabled,
            total_tracks: data.total_tracks,
        }),
{
    let participant = publishing_participant(&data);
    let JoinRoomDto { sdp, room_id, participant_id, is_video_enabled, is_audio_enabled, is_e2ee_enabled, total_tracks } = data;
    JoinPlan {
        client: ClientInfo { participant_id, room_id },
        participant,
        request: PublishRequest { sdp, is_audio_enabled, is_video_enabled, is_e2ee_enabled, total_tracks },
    }
}

/// A socket whose token was issued for user `n` carries `n` written in decimal as its id,
/// and is attributed to user `n` again.
pub proof fn lemma_token_user_reads_back(n: i32)
    ensures
        parsed_i32(decimal(n as int)) == Some(n),
{
    lemma_parse_i32_of_decimal(n);
}

} // verus!
