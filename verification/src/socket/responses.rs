//! The notices the server broadcasts to the other clients of a meeting.
use vstd::prelude::*;

verus! {

/// A participant left the call.
#[derive(Debug, Clone, PartialEq)]
pub struct ParticipantHasLeftResponse {
    pub target_id: String,
}

/// A participant raised or lowered a hand.
#[derive(Debug, Clone, PartialEq)]
pub struct HandleRaisingResponse {
    pub participant_id: String,
    pub is_raising: bool,
}

/// A participant started or stopped sharing a screen.
#[derive(Debug, Clone, PartialEq)]
pub struct ScreenSharingResponse {
    pub participant_id: String,
    pub is_sharing: bool,
    pub screen_track_id: Option<String>,
}

/// A participant turned a switch on or off.
#[derive(Debug, Clone, PartialEq)]
pub struct EnabledResponse {
    pub participant_id: String,
    pub is_enabled: bool,
}

/// A participant switched cameras.
#[derive(Debug, Clone, PartialEq)]
pub struct CameraTypeResponse {
    pub participant_id: String,
    pub type_: i32,
}

/// A new offer for a subscriber, after the publisher's media changed.
#[derive(Debug, Clone, PartialEq)]
pub struct SubscriberRenegotiationResponse {
    pub target_id: String,
    pub sdp: String,
}

} // verus!
