//! What clients send over the socket.
use vstd::prelude::*;

verus! {

/// A client publishes its media to a meeting's call.
#[derive(Debug, Clone, PartialEq)]
pub struct JoinRoomDto {
    pub sdp: String,
    pub room_id: String,
    pub participant_id: String,
    pub is_video_enabled: bool,
    pub is_audio_enabled: bool,
    pub is_e2ee_enabled: bool,
    pub total_tracks: u8,
}

/// A client subscribes to the media of another participant.
#[derive(Debug, Clone, PartialEq)]
pub struct SubscribeDto {
    pub target_id: String,
    pub room_id: String,
    pub participant_id: String,
}

/// A client's answer to the offer of a subscription.
#[derive(Debug, Clone, PartialEq)]
pub struct AnswerSubscribeDto {
    pub target_id: String,
    pub sdp: String,
}

/// A new offer of a publisher, or the answer sent back to it.
#[derive(Debug, Clone, PartialEq)]
pub struct PublisherRenegotiationDto {
    pub sdp: String,
}

/// An ICE candidate.
#[derive(Debug, Clone, PartialEq)]
pub struct CandidateDto {
    pub candidate: String,
    pub sdp_mid: Option<String>,
    pub sdp_m_line_index: Option<u16>,
}

/// An ICE candidate of a subscription.
#[derive(Debug, Clone, PartialEq)]
pub struct SubscriberCandidateDto {
    pub target_id: String,
    pub candidate: CandidateDto,
}

/// A switch turned on or off (video, audio, end-to-end encryption, subtitles).
#[derive(Debug, Clone, Copy, PartialEq)]
pub struct SetEnabledDto {
    pub is_enabled: bool,
}

/// A screen share started or stopped, with the track that carries it.
#[derive(Debug, Clone, PartialEq)]
pub struct SetScreenSharingDto {
    pub is_sharing: bool,
    pub screen_track_id: Option<String>,
}

/// The camera a client switched to, as a number.
#[derive(Debug, Clone, Copy, PartialEq)]
pub struct SetCameraTypeDto {
    pub type_: i32,
}

/// A hand raised or lowered.
#[derive(Debug, Clone, Copy, PartialEq)]
pub struct SetHandRaisingDto {
    pub is_raising: bool,
}

/// A whiteboard opened in a meeting.
#[derive(Debug, Clone, PartialEq)]
pub struct StartWhiteBoardDto {
    pub room_id: String,
}

/// A whiteboard wiped in a meeting.
#[derive(Debug, Clone, PartialEq)]
pub struct CleanWhiteBoardDto {
    pub room_id: String,
}

/// The tool a whiteboard stroke was drawn with.
#[derive(Debug, Clone, Copy, PartialEq, Eq, Structural)]
pub enum PaintType {
    Normal,
    Polygon,
    Circle,
    Square,
    Line,
    Eraser,
}

/// The name a paint type travels under.
pub open spec fn paint_type_name(t: PaintType) -> Seq<char> {
    match t {
        PaintType::Normal => "normal"@,
        PaintType::Polygon => "polygon"@,
        PaintType::Circle => "circle"@,
        PaintType::Square => "square"@,
        PaintType::Line => "line"@,
        PaintType::Eraser => "eraser"@,
    }
}

impl PaintType {
    /// The name the type travels under.
    pub fn name(&self) -> (r: &'static str)
        ensures
            r@ == paint_type_name(*self),
    {
        match self {
            PaintType::Normal => "normal",
            PaintType::Polygon => "polygon",
            PaintType::Circle => "circle",
            PaintType::Square => "square",
            PaintType::Line => "line",
            PaintType::Eraser => "eraser",
        }
    }
}

/// What an update does to a whiteboard's strokes.
#[derive(Debug, Clone, Copy, PartialEq, Eq, Structural)]
pub enum WhiteBoardAction {
    Add,
    Remove,
    Update,
}

/// The name a whiteboard action travels under.
pub open spec fn action_name(a: WhiteBoardAction) -> Seq<char> {
    match a {
        WhiteBoardAction::Add => "add"@,
        WhiteBoardAction::Remove => "remove"@,
        WhiteBoardAction::Update => "update"@,
    }
}

impl WhiteBoardAction {
    /// The name the action travels under.
    pub fn name(&self) -> (r: &'static str)
        ensures
            r@ == action_name(*self),
    {
        match self {
            WhiteBoardAction::Add => "add",
            WhiteBoardAction::Remove => "remove",
            WhiteBoardAction::Update => "update",
        }
    }
}

/// A test message echoed to every client.
#[derive(Debug, Clone, PartialEq)]
pub struct MsgDto {
    pub my_msg: String,
}

} // verus!
