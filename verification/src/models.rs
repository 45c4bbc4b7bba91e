//! Meeting and participant records exchanged between the Telemost REST API,
//! the signaling layer and the user interface.

use vstd::prelude::*;

verus! {

/// Role of a participant in a meeting.
#[derive(Clone, Copy, Debug, PartialEq, Eq, Hash)]
pub enum ParticipantRole {
    Host,
    Participant,
}

/// One entry of the participants panel.
#[derive(Clone, Debug, PartialEq)]
pub struct TelemostParticipant {
    pub id: String,
    pub name: Option<String>,
    pub avatar_id: Option<String>,
    pub role: ParticipantRole,
    pub audio_enabled: Option<bool>,
    pub video_enabled: Option<bool>,
    pub screen_share: Option<bool>,
    /// Unix seconds of joining, when known.
    pub joined_at: Option<u64>,
}

/// Join credentials returned by `start_meeting_call`.
#[derive(Clone, Debug, PartialEq)]
pub struct MeetingCall {
    pub room_id: Option<String>,
    pub credentials: Option<String>,
    pub participant_id: Option<String>,
}

/// The room to join: the call's `room_id` when present and non-empty,
/// otherwise the meeting id.
pub open spec fn effective_room(call: MeetingCall, meeting_id: Seq<char>) -> Seq<char> {
    match call.room_id {
        Some(r) => if r@.len() > 0 { r@ } else { meeting_id },
        None => meeting_id,
    }
}

impl MeetingCall {
    pub fn effective_room_id<'a>(&'a self, meeting_id: &'a str) -> (r: &'a str)
        ensures
            r@ == effective_room(*self, meeting_id@),
    {
        match &self.room_id {
            Some(room) => {
                let s = room.as_str();
                if s.is_empty() {
                    meeting_id
                } else {
                    s
                }
            },
            None => meeting_id,
        }
    }
}


/// A personal meeting returned by `create_personal_meeting`.
#[derive(Clone, Debug, PartialEq)]
pub struct PersonalMeeting {
    pub meeting_id: String,
    pub join_url: Option<String>,
}

/// One entry of a `UserErrors` envelope.
#[derive(Clone, Debug, PartialEq)]
pub struct MeetingUserError {
    pub code: Option<String>,
    pub message: Option<String>,
}

} // verus!
