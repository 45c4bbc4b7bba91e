//! Call controller: binds Goloom signaling to the two media engines.
//!
//! - publisher `LocalOffer` → `PublisherSdpOffer`; the server's
//!   `PublisherSdpAnswer` goes back to the publisher;
//! - server `SubscriberSdpOffer` → subscriber → `LocalAnswer` →
//!   `SubscriberSdpAnswer` with the **same** `pc_seq`;
//! - ICE trickles per direction: outgoing candidates are tagged with the
//!   engine they came from, incoming ones are routed by their tag.
//!
//! [`CallCore`] takes every input of the call (UI commands, signaling
//! events, engine events, engine start results) and returns the actions to
//! carry out; the caller owns the engines, the signaling handle and the
//! event channel.

use vstd::prelude::*;

use crate::goloom::{
    self, IceTarget, MediaTrackKind, PublisherTrackDescription, PublisherTrackTransport,
    WebrtcIceCandidate,
};
use crate::goloom_client::{GoloomEvent, GoloomParams, IceServerInfo};
use crate::goloom_media::{EngineRole, IceServer, MediaEvent, MediaKind, MediaTrack, PeerState, VideoFrame};
use crate::models::{MeetingCall, TelemostParticipant};
use crate::text::{self, decimal, push_decimal, push_signed, seq_lt, signed_decimal, str_lt};

verus! {

// ── call parameters ─────────────────────────────────────────────────

/// Parameters for one call. `room_id` and `credentials` come from the
/// Telemost REST API (`create_personal_meeting` / `start_meeting_call`).
#[derive(Clone, Debug)]
pub struct CallParams {
    pub room_id: String,
    pub participant_id: String,
    pub credentials: Option<String>,
    pub display_name: Option<String>,
    pub send_audio: bool,
    pub send_video: bool,
    pub send_sharing: bool,
    pub app_version: String,
    pub oauth_token: Option<String>,
    pub cookies: Option<String>,
    /// Override for the signaling URL.
    pub ws_url: Option<String>,
}

/// 32 random lower-case hex digits (`uuid::Uuid::new_v4().simple()`).
#[verifier::external_body]
pub(crate) fn random_hex32() -> (s: String)
    ensures
        s@.len() == 32,
        forall|i: int| 0 <= i < 32 ==> goloom::is_lower_hex(#[trigger] s@[i]),
{
    uuid::Uuid::new_v4().simple().to_string()
}

fn clone_opt(s: &Option<String>) -> (r: Option<String>)
    ensures
        r == *s,
{
    match s {
        Some(v) => Some(v.clone()),
        None => None,
    }
}

impl CallParams {
    /// Call parameters for a started meeting: the call's room (or the
    /// meeting id), its participant id or `desktop-` and eight random hex
    /// digits, its credentials; audio and video on, sharing off.
    pub fn from_meeting(
        meeting_id: &str,
        call: &MeetingCall,
        display_name: Option<String>,
        app_version: &str,
    ) -> (p: Self)
        ensures
            p.room_id@ == crate::models::effective_room(*call, meeting_id@),
            match call.participant_id {
                Some(id) => p.participant_id == id,
                None => p.participant_id@.len() == 16 && p.participant_id@.take(8) == "desktop-"@
                    && forall|i: int| 8 <= i < 16 ==> goloom::is_lower_hex(#[trigger] p.participant_id@[i]),
            },
            p.credentials == call.credentials,
            p.display_name == display_name,
            p.send_audio,
            p.send_video,
            !p.send_sharing,
            p.app_version@ == app_version@,
            p.oauth_token is None,
            p.cookies is None,
            p.ws_url is None,
    {
        let participant_id = match &call.participant_id {
            Some(id) => id.clone(),
            None => {
                let hex = text::chars_of(random_hex32().as_str());
                let mut id = "desktop-".to_owned();
                let short = text::string_from_range(&hex, 0, 8);
                id.append(short.as_str());
                proof {
                    reveal_strlit("desktop-");
                    assert(id@.take(8) =~= "desktop-"@);
                    assert forall|i: int| 8 <= i < 16 implies goloom::is_lower_hex(#[trigger] id@[i]) by {
                        assert(id@[i] == hex@[i - 8]);
                    }
                }
                id
            },
        };
        CallParams {
            room_id: call.effective_room_id(meeting_id).to_owned(),
            participant_id,
            credentials: clone_opt(&call.credentials),
            display_name,
            send_audio: true,
            send_video: true,
            send_sharing: false,
            app_version: app_version.to_owned(),
            oauth_token: None,
            cookies: None,
            ws_url: None,
        }
    }

    /// Signaling parameters: the defaults of [`GoloomParams::new`] with this
    /// call's credentials, name, send flags, transport auth and URL override.
    pub fn goloom_params(&self) -> (g: GoloomParams)
        ensures
            g.ws_url@ == match self.ws_url {
                Some(u) => u@,
                None => crate::config::GOLOOM_WS_URL@,
            },
            g.room_id@ == self.room_id@,
            g.participant_id@ == self.participant_id@,
            g.app_version@ == self.app_version@,
            g.credentials == self.credentials,
            g.display_name == self.display_name,
            g.send_audio == self.send_audio,
            g.send_video == self.send_video,
            g.send_sharing == self.send_sharing,
            g.oauth_token == self.oauth_token,
            g.cookies == self.cookies,
            g.max_attempts == crate::config::WS_MAX_RECONNECT_ATTEMPTS,
    {
        let mut p = GoloomParams::new(
            self.room_id.as_str(),
            self.participant_id.as_str(),
            self.app_version.as_str(),
        );
        p.credentials = clone_opt(&self.credentials);
        p.display_name = clone_opt(&self.display_name);
        p.send_audio = self.send_audio;
        p.send_video = self.send_video;
        p.send_sharing = self.send_sharing;
        p.oauth_token = clone_opt(&self.oauth_token);
        p.cookies = clone_opt(&self.cookies);
        if let Some(url) = &self.ws_url {
            p.ws_url = url.clone();
        }
        p
    }
}

// ── states, events, commands, actions ───────────────────────────────

#[derive(Clone, Debug, PartialEq)]
pub enum CallState {
    Joining,
    Joined,
    InCall,
    Reconnecting,
    Ended { reason: String },
    Failed { reason: String },
}

/// Events for the call window.
#[derive(Clone, Debug)]
pub enum CallEvent {
    State(CallState),
    /// Participants, ordered by id.
    Roster(Vec<TelemostParticipant>),
    Media(PeerState),
    RemoteFrame(VideoFrame),
    PreviewFrame(VideoFrame),
    Error(String),
}

/// UI requests.
#[derive(Clone, Debug, PartialEq)]
pub enum CallCommand {
    MuteAudio(bool),
    MuteVideo(bool),
    Share(bool),
    End,
}

/// Operation on one media engine.
#[derive(Clone, Debug)]
pub enum EngineOp {
    SetIceServers(Vec<IceServer>),
    /// Build the pipeline and start; report the result to
    /// [`CallCore::on_start_result`].
    Start,
    Stop,
    HandleRemoteOffer(String),
    HandleRemoteAnswer(String),
    AddRemoteIce { mline_index: u32, candidate: String },
    SetAudioEnabled(bool),
    SetVideoEnabled(bool),
    SetSharingEnabled(bool),
}

/// Message to the signaling session.
#[derive(Clone, Debug)]
pub enum SignalOp {
    PublisherOffer { pc_seq: u32, sdp: String, tracks: Vec<PublisherTrackDescription> },
    SubscriberAnswer { pc_seq: u32, sdp: String },
    Ice(WebrtcIceCandidate),
    UpdateMe { send_audio: bool, send_video: bool, send_sharing: bool },
    Shutdown,
}

/// One thing for the caller to do, in order.
#[derive(Clone, Debug)]
pub enum CallAction {
    Emit(CallEvent),
    Engine(EngineRole, EngineOp),
    Signal(SignalOp),
}

/// Actions produced by one input; `exit` ends the call task.
#[derive(Clone, Debug)]
pub struct CallStep {
    pub actions: Vec<CallAction>,
    pub exit: bool,
}

// ── roster ──────────────────────────────────────────────────────────

/// Participant ids strictly increase along the roster.
pub open spec fn ids_sorted(r: Seq<TelemostParticipant>) -> bool {
    forall|i: int, j: int| 0 <= i < j < r.len() ==> seq_lt(#[trigger] r[i].id@, #[trigger] r[j].id@)
}

/// Number of leading entries whose id sorts before `key`.
pub open spec fn lead_less(r: Seq<TelemostParticipant>, key: Seq<char>) -> nat
    decreases r.len(),
{
    if r.len() > 0 && seq_lt(r[0].id@, key) {
        1 + lead_less(r.drop_first(), key)
    } else {
        0
    }
}

/// Roster with `p` inserted at its place, replacing an entry with its id.
pub open spec fn roster_upsert(r: Seq<TelemostParticipant>, p: TelemostParticipant) -> Seq<TelemostParticipant> {
    let k = lead_less(r, p.id@) as int;
    let rest = if k < r.len() && r[k].id@ == p.id@ {
        r.skip(k + 1)
    } else {
        r.skip(k)
    };
    r.take(k) + seq![p] + rest
}

/// Roster without the entry whose id is `key`.
pub open spec fn roster_remove(r: Seq<TelemostParticipant>, key: Seq<char>) -> Seq<TelemostParticipant> {
    let k = lead_less(r, key) as int;
    if k < r.len() && r[k].id@ == key {
        r.take(k) + r.skip(k + 1)
    } else {
        r
    }
}

proof fn lemma_lead_less(r: Seq<TelemostParticipant>, key: Seq<char>)
    ensures
        lead_less(r, key) <= r.len(),
        forall|j: int| 0 <= j < lead_less(r, key) ==> seq_lt(#[trigger] r[j].id@, key),
        lead_less(r, key) < r.len() ==> !seq_lt(r[lead_less(r, key) as int].id@, key),
    decreases r.len(),
{
    if r.len() > 0 && seq_lt(r[0].id@, key) {
        let t = r.drop_first();
        lemma_lead_less(t, key);
        assert forall|j: int| 0 <= j < lead_less(r, key) implies seq_lt(#[trigger] r[j].id@, key) by {
            if j > 0 {
                assert(r[j] == t[j - 1]);
            }
        }
        if lead_less(r, key) < r.len() {
            assert(r[lead_less(r, key) as int] == t[lead_less(t, key) as int]);
        }
    }
}

/// Inserting keeps the roster ordered and free of duplicate ids.
pub proof fn roster_upsert_keeps_order(r: Seq<TelemostParticipant>, p: TelemostParticipant)
    requires
        ids_sorted(r),
    ensures
        ids_sorted(roster_upsert(r, p)),
        roster_upsert(r, p).contains(p),
{
    lemma_lead_less(r, p.id@);
    let k = lead_less(r, p.id@) as int;
    let key = p.id@;
    let skip = if k < r.len() && r[k].id@ == key { k + 1 } else { k };
    let u = roster_upsert(r, p);
    // every entry from `skip` on sorts after `key`
    assert forall|j: int| skip <= j < r.len() implies seq_lt(key, #[trigger] r[j].id@) by {
        text::lemma_seq_lt_total(r[k].id@, key);
        if r[k].id@ == key {
            assert(seq_lt(r[k].id@, r[j].id@));
        } else {
            if j > k {
                assert(seq_lt(r[k].id@, r[j].id@));
                text::lemma_seq_lt_transitive(key, r[k].id@, r[j].id@);
            }
        }
    }
    assert forall|i: int, j: int| 0 <= i < j < u.len() implies seq_lt(#[trigger] u[i].id@, #[trigger] u[j].id@) by {
        if j < k {
            assert(u[i] == r[i] && u[j] == r[j]);
        } else if j == k {
            assert(u[j] == p && u[i] == r[i]);
        } else if i < k {
            assert(u[i] == r[i]);
            assert(u[j] == r[skip + j - k - 1]);
            text::lemma_seq_lt_transitive(r[i].id@, key, r[skip + j - k - 1].id@);
        } else if i == k {
            assert(u[i] == p);
            assert(u[j] == r[skip + j - k - 1]);
        } else {
            assert(u[i] == r[skip + i - k - 1]);
            assert(u[j] == r[skip + j - k - 1]);
        }
    }
    assert(u[k] == p);
}

/// Removing keeps the roster ordered, and the removed id is gone.
pub proof fn roster_remove_keeps_order(r: Seq<TelemostParticipant>, key: Seq<char>)
    requires
        ids_sorted(r),
    ensures
        ids_sorted(roster_remove(r, key)),
        forall|i: int| 0 <= i < roster_remove(r, key).len() ==> #[trigger] roster_remove(r, key)[i].id@ != key,
{
    lemma_lead_less(r, key);
    let k = lead_less(r, key) as int;
    let u = roster_remove(r, key);
    assert forall|j: int| k <= j < r.len() && r[j].id@ != key implies seq_lt(key, #[trigger] r[j].id@) by {
        text::lemma_seq_lt_total(r[j].id@, key);
        if j > k {
            assert(seq_lt(r[k].id@, r[j].id@));
            text::lemma_seq_lt_total(r[k].id@, key);
            if r[k].id@ != key {
                text::lemma_seq_lt_transitive(key, r[k].id@, r[j].id@);
            }
        }
    }
    if k < r.len() && r[k].id@ == key {
        assert forall|i: int, j: int| 0 <= i < j < u.len() implies seq_lt(#[trigger] u[i].id@, #[trigger] u[j].id@) by {
            let ri = if i < k { i } else { i + 1 };
            let rj = if j < k { j } else { j + 1 };
            assert(u[i] == r[ri] && u[j] == r[rj]);
        }
        assert forall|i: int| 0 <= i < u.len() implies #[trigger] u[i].id@ != key by {
            if i < k {
                assert(u[i] == r[i]);
                text::lemma_seq_lt_irreflexive(key);
            } else {
                assert(u[i] == r[i + 1]);
                assert(seq_lt(r[k].id@, r[i + 1].id@));
                text::lemma_seq_lt_irreflexive(key);
            }
        }
    } else {
        assert forall|i: int| 0 <= i < u.len() implies #[trigger] u[i].id@ != key by {
            if i < k {
                text::lemma_seq_lt_irreflexive(key);
            } else if i == k {
            } else {
                assert(seq_lt(key, r[i].id@) || r[i].id@ == key);
                if r[i].id@ == key {
                    text::lemma_seq_lt_total(r[k].id@, key);
                    assert(seq_lt(r[k].id@, r[i].id@));
                    text::lemma_seq_lt_total(r[k].id@, r[i].id@);
                }
            }
        }
    }
}

fn find_slot(r: &Vec<TelemostParticipant>, key: &str) -> (k: usize)
    ensures
        k == lead_less(r@, key@),
        k <= r.len(),
{
    let mut k: usize = 0;
    assert(r@.skip(0) =~= r@);
    while k < r.len() && str_lt(r[k].id.as_str(), key)
        invariant
            k <= r.len(),
            lead_less(r@, key@) == k + lead_less(r@.skip(k as int), key@),
        decreases r.len() - k,
    {
        assert(r@.skip(k as int).drop_first() =~= r@.skip(k + 1));
        k = k + 1;
    }
    if k < r.len() {
        assert(r@.skip(k as int)[0] == r@[k as int]);
    }
    k
}

/// Inserts or replaces `p` by id.
pub fn upsert_participant(r: &mut Vec<TelemostParticipant>, p: TelemostParticipant)
    ensures
        final(r)@ == roster_upsert(old(r)@, p),
{
    let k = find_slot(r, p.id.as_str());
    let ghost o = r@;
    if k < r.len() && r[k].id == p.id {
        r.remove(k);
    }
    r.insert(k, p);
    assert(final(r)@ =~= roster_upsert(o, p));
}

/// Removes the participant with id `key`, if present.
pub fn remove_participant(r: &mut Vec<TelemostParticipant>, key: &str)
    ensures
        final(r)@ == roster_remove(old(r)@, key@),
{
    let k = find_slot(r, key);
    let ghost o = r@;
    if k < r.len() && text::str_is(r[k].id.as_str(), key) {
        r.remove(k);
        assert(r@ =~= o.take(k as int) + o.skip(k + 1));
    }
}

fn copy_participant(p: &TelemostParticipant) -> (q: TelemostParticipant)
    ensures
        q == *p,
{
    TelemostParticipant {
        id: p.id.clone(),
        name: clone_opt(&p.name),
        avatar_id: clone_opt(&p.avatar_id),
        role: p.role,
        audio_enabled: p.audio_enabled,
        video_enabled: p.video_enabled,
        screen_share: p.screen_share,
        joined_at: p.joined_at,
    }
}

fn copy_roster(r: &Vec<TelemostParticipant>) -> (c: Vec<TelemostParticipant>)
    ensures
        c@ == r@,
{
    let mut c = Vec::new();
    let mut i: usize = 0;
    while i < r.len()
        invariant
            i <= r.len(),
            c@ == r@.take(i as int),
        decreases r.len() - i,
    {
        c.push(copy_participant(&r[i]));
        assert(r@.take(i + 1) =~= r@.take(i as int).push(r@[i as int]));
        i = i + 1;
    }
    assert(r@.take(i as int) =~= r@);
    c
}


// ── conversions ─────────────────────────────────────────────────────

/// ICE server for the media engines.
pub fn ice_to_media(info: &IceServerInfo) -> (s: IceServer)
    ensures
        s.urls@ == info.urls@,
        s.username@ == info.username@,
        s.credential@ == info.credential@,
{
    let mut urls: Vec<String> = Vec::new();
    let mut i: usize = 0;
    while i < info.urls.len()
        invariant
            i <= info.urls.len(),
            urls@ == info.urls@.take(i as int),
        decreases info.urls.len() - i,
    {
        urls.push(info.urls[i].clone());
        assert(info.urls@.take(i + 1) =~= info.urls@.take(i as int).push(info.urls@[i as int]));
        i = i + 1;
    }
    assert(info.urls@.take(i as int) =~= info.urls@);
    IceServer { urls, username: info.username.clone(), credential: info.credential.clone() }
}

fn ice_list(infos: &Vec<IceServerInfo>) -> (v: Vec<IceServer>)
    ensures
        v@.len() == infos@.len(),
        forall|k: int| 0 <= k < v@.len() ==> (#[trigger] v@[k]).urls@ == infos@[k].urls@
            && v@[k].username@ == infos@[k].username@ && v@[k].credential@ == infos@[k].credential@,
{
    let mut v: Vec<IceServer> = Vec::new();
    let mut i: usize = 0;
    while i < infos.len()
        invariant
            i <= infos.len(),
            v@.len() == i,
            forall|k: int| 0 <= k < i ==> (#[trigger] v@[k]).urls@ == infos@[k].urls@
                && v@[k].username@ == infos@[k].username@ && v@[k].credential@
                == infos@[k].credential@,
        decreases infos.len() - i,
    {
        v.push(ice_to_media(&infos[i]));
        i = i + 1;
    }
    v
}

/// Wire kind of a local track: audio, video, or display video for a screen.
pub open spec fn track_kind(k: MediaKind) -> i32 {
    match k {
        MediaKind::Audio => MediaTrackKind::Audio.value(),
        MediaKind::Video => MediaTrackKind::Video.value(),
        MediaKind::Screen => MediaTrackKind::DisplayVideo.value(),
    }
}

/// Track description as advertised in a publisher offer.
pub open spec fn is_track_description(d: PublisherTrackDescription, t: MediaTrack) -> bool {
    &&& d.transport == match t.mid {
        Some(m) => Some(PublisherTrackTransport::TransceiverMid(m)),
        None => None,
    }
    &&& d.kind == track_kind(t.kind)
    &&& d.label@ == t.label@
    &&& d.description@ == t.description@
    &&& d.group_id is None
    &&& d.codecs@.len() == 0
}

/// A published track is advertised under the wire kind of its media:
/// audio as `AUDIO` (2), camera video as `VIDEO` (3) and a screen as
/// `DISPLAY_VIDEO` (5), with its own label and description.
pub proof fn published_track_kinds(d: PublisherTrackDescription, t: MediaTrack)
    requires
        is_track_description(d, t),
    ensures
        t.kind == MediaKind::Audio ==> d.kind == 2,
        t.kind == MediaKind::Video ==> d.kind == 3,
        t.kind == MediaKind::Screen ==> d.kind == 5,
        d.label@ == t.label@,
        d.description@ == t.description@,
        t.mid matches Some(m) ==> d.transport == Some(PublisherTrackTransport::TransceiverMid(m)),
        t.mid is None ==> d.transport is None,
{
}

pub fn track_to_proto(t: &MediaTrack) -> (d: PublisherTrackDescription)
    ensures
        is_track_description(d, *t),
{
    PublisherTrackDescription {
        transport: match &t.mid {
            Some(m) => Some(PublisherTrackTransport::TransceiverMid(m.clone())),
            None => None,
        },
        kind: match t.kind {
            MediaKind::Audio => MediaTrackKind::Audio.to_i32(),
            MediaKind::Video => MediaTrackKind::Video.to_i32(),
            MediaKind::Screen => MediaTrackKind::DisplayVideo.to_i32(),
        },
        label: t.label.clone(),
        description: t.description.clone(),
        group_id: None,
        codecs: Vec::new(),
    }
}

fn tracks_to_proto(tracks: &Vec<MediaTrack>) -> (v: Vec<PublisherTrackDescription>)
    ensures
        v@.len() == tracks@.len(),
        forall|k: int| 0 <= k < v@.len() ==> is_track_description(#[trigger] v@[k], tracks@[k]),
{
    let mut v: Vec<PublisherTrackDescription> = Vec::new();
    let mut i: usize = 0;
    while i < tracks.len()
        invariant
            i <= tracks.len(),
            v@.len() == i,
            forall|k: int| 0 <= k < i ==> is_track_description(#[trigger] v@[k], tracks@[k]),
        decreases tracks.len() - i,
    {
        v.push(track_to_proto(&tracks[i]));
        i = i + 1;
    }
    v
}

// ── the controller ──────────────────────────────────────────────────

/// Two states that read the same (same variant, same reason text).
pub open spec fn same_state(a: CallState, b: CallState) -> bool {
    match (a, b) {
        (CallState::Joining, CallState::Joining) => true,
        (CallState::Joined, CallState::Joined) => true,
        (CallState::InCall, CallState::InCall) => true,
        (CallState::Reconnecting, CallState::Reconnecting) => true,
        (CallState::Ended { reason: x }, CallState::Ended { reason: y }) => x@ == y@,
        (CallState::Failed { reason: x }, CallState::Failed { reason: y }) => x@ == y@,
        _ => false,
    }
}

fn states_match(a: &CallState, b: &CallState) -> (r: bool)
    ensures
        r == same_state(*a, *b),
{
    match (a, b) {
        (CallState::Joining, CallState::Joining) => true,
        (CallState::Joined, CallState::Joined) => true,
        (CallState::InCall, CallState::InCall) => true,
        (CallState::Reconnecting, CallState::Reconnecting) => true,
        (CallState::Ended { reason: x }, CallState::Ended { reason: y }) => *x == *y,
        (CallState::Failed { reason: x }, CallState::Failed { reason: y }) => *x == *y,
        _ => false,
    }
}

fn copy_state(s: &CallState) -> (r: CallState)
    ensures
        r == *s,
{
    match s {
        CallState::Joining => CallState::Joining,
        CallState::Joined => CallState::Joined,
        CallState::InCall => CallState::InCall,
        CallState::Reconnecting => CallState::Reconnecting,
        CallState::Ended { reason } => CallState::Ended { reason: reason.clone() },
        CallState::Failed { reason } => CallState::Failed { reason: reason.clone() },
    }
}

/// State bookkeeping of one call.
#[derive(Clone, Debug)]
pub struct CallCore {
    pub state: CallState,
    pub signaling_up: bool,
    pub media_connected: bool,
    /// Engines are started on the first `Connected`, once ICE servers are known.
    pub engine_started: bool,
    /// Participants ordered by id.
    pub roster: Vec<TelemostParticipant>,
    /// Sequence number of the latest publisher offer.
    pub pc_seq: u32,
    /// `pc_seq` of the subscriber offer awaiting our answer.
    pub pending_answer_seq: Option<u32>,
    pub audio: bool,
    pub video: bool,
    pub sharing: bool,
    pub share_attached: bool,
}

/// `after` is `before` with only the state possibly changed, as a state
/// change to `target` does: nothing when the state already reads the same,
/// otherwise the new state and its event.
pub open spec fn state_set(before: CallCore, after: CallCore, acts: Seq<CallAction>, target: CallState) -> bool {
    if same_state(before.state, target) {
        after == before && acts.len() == 0
    } else {
        after == (CallCore { state: target, ..before }) && acts == seq![
            CallAction::Emit(CallEvent::State(target)),
        ]
    }
}

pub open spec fn is_end_state(s: CallState, failed: bool, reason: Seq<char>) -> bool {
    if failed {
        s matches CallState::Failed { reason: r } && r@ == reason
    } else {
        s matches CallState::Ended { reason: r } && r@ == reason
    }
}

/// Ending the call: stop both engines, shut signaling down, then move to
/// the end state (`Failed` or `Ended` with `reason`).
pub open spec fn finished(before: CallCore, after: CallCore, acts: Seq<CallAction>, failed: bool, reason: Seq<char>) -> bool {
    &&& acts.len() >= 3
    &&& acts[0] == CallAction::Engine(EngineRole::Publisher, EngineOp::Stop)
    &&& acts[1] == CallAction::Engine(EngineRole::Subscriber, EngineOp::Stop)
    &&& acts[2] == CallAction::Signal(SignalOp::Shutdown)
    &&& exists|target: CallState| #[trigger] is_end_state(target, failed, reason) && state_set(
        before,
        after,
        acts.skip(3),
        target,
    )
}

pub open spec fn update_me_of(c: CallCore) -> CallAction {
    CallAction::Signal(
        SignalOp::UpdateMe { send_audio: c.audio, send_video: c.video, send_sharing: c.sharing },
    )
}

pub open spec fn roster_event(a: CallAction, roster: Seq<TelemostParticipant>) -> bool {
    a matches CallAction::Emit(CallEvent::Roster(list)) && list@ == roster
}

impl CallCore {
    /// The roster stays ordered by id.
    pub open spec fn wf(self) -> bool {
        ids_sorted(self.roster@)
    }

    /// A joining call with the send flags of `params`.
    pub fn new(params: &CallParams) -> (c: Self)
        ensures
            c.wf(),
            c.state == CallState::Joining,
            !c.signaling_up && !c.media_connected && !c.engine_started && !c.share_attached,
            c.roster@.len() == 0,
            c.pc_seq == 0,
            c.pending_answer_seq is None,
            c.audio == params.send_audio && c.video == params.send_video && c.sharing
                == params.send_sharing,
    {
        CallCore {
            state: CallState::Joining,
            signaling_up: false,
            media_connected: false,
            engine_started: false,
            roster: Vec::new(),
            pc_seq: 0,
            pending_answer_seq: None,
            audio: params.send_audio,
            video: params.send_video,
            sharing: params.send_sharing,
            share_attached: false,
        }
    }

    /// The first thing a call reports: `Joining`.
    pub fn begin(&self) -> (s: CallStep)
        ensures
            s.actions@ == seq![CallAction::Emit(CallEvent::State(CallState::Joining))],
            !s.exit,
    {
        let mut actions = Vec::new();
        actions.push(CallAction::Emit(CallEvent::State(CallState::Joining)));
        assert(actions@ =~= seq![CallAction::Emit(CallEvent::State(CallState::Joining))]);
        CallStep { actions, exit: false }
    }

    fn set_state(&mut self, s: CallState, out: &mut Vec<CallAction>)
        ensures
            exists|acts: Seq<CallAction>| final(out)@ == old(out)@ + acts && #[trigger] state_set(*old(self), *final(self), acts, s),
    {
        let ghost o = out@;
        if states_match(&self.state, &s) {
            assert(out@ =~= o + Seq::<CallAction>::empty());
            assert(state_set(*old(self), *self, Seq::<CallAction>::empty(), s));
        } else {
            let ghost before = *self;
            self.state = copy_state(&s);
            out.push(CallAction::Emit(CallEvent::State(s)));
            assert(out@ =~= o + seq![CallAction::Emit(CallEvent::State(s))]);
            assert(self.state == s);
            assert(*self == (CallCore { state: s, ..before }));
            assert(state_set(before, *self, seq![CallAction::Emit(CallEvent::State(s))], s));
        }
    }

    fn finish(&mut self, failed: bool, reason: String, out: &mut Vec<CallAction>)
        ensures
            exists|acts: Seq<CallAction>| final(out)@ == old(out)@ + acts && #[trigger] finished(*old(self), *final(self), acts, failed, reason@),
    {
        let ghost o = out@;
        let ghost before = *self;
        out.push(CallAction::Engine(EngineRole::Publisher, EngineOp::Stop));
        out.push(CallAction::Engine(EngineRole::Subscriber, EngineOp::Stop));
        out.push(CallAction::Signal(SignalOp::Shutdown));
        let ghost mid = out@;
        let target = if failed {
            CallState::Failed { reason }
        } else {
            CallState::Ended { reason }
        };
        let ghost t = target;
        self.set_state(target, out);
        proof {
            let acts = choose|acts: Seq<CallAction>| out@ == mid + acts && #[trigger] state_set(before, *self, acts, t);
            let all = out@.subrange(o.len() as int, out@.len() as int);
            assert(out@ =~= o + all);
            assert(all.skip(3) =~= acts);
            assert(is_end_state(t, failed, reason@));
            assert(finished(before, *self, all, failed, reason@));
        }
    }

    fn push_update_me(&self, out: &mut Vec<CallAction>)
        ensures
            final(out)@ == old(out)@.push(update_me_of(*self)),
    {
        out.push(
            CallAction::Signal(
                SignalOp::UpdateMe {
                    send_audio: self.audio,
                    send_video: self.video,
                    send_sharing: self.sharing,
                },
            ),
        );
    }

    /// The shutdown flag was raised: end the call.
    pub fn on_shutdown(&mut self) -> (s: CallStep)
        requires
            old(self).wf(),
        ensures
            final(self).wf(),
            s.exit,
            finished(*old(self), *final(self), s.actions@, false, "shutdown"@),
    {
        let mut out = Vec::new();
        self.finish(false, "shutdown".to_owned(), &mut out);
        assert(out@ =~= Seq::<CallAction>::empty() + out@);
        CallStep { actions: out, exit: true }
    }

    /// A UI command (`None`: the command channel closed, as on hang-up).
    /// Mute and share toggles update the flag, switch the publisher once
    /// the engines run, and announce the flags with `update_me`.
    pub fn on_command(&mut self, cmd: Option<CallCommand>) -> (s: CallStep)
        requires
            old(self).wf(),
        ensures
            final(self).wf(),
            commanded_as(*old(self), cmd, *final(self), s),
    {
        let mut out = Vec::new();
        match cmd {
            Some(CallCommand::MuteAudio(e)) => {
                self.audio = e;
                if self.engine_started {
                    out.push(CallAction::Engine(EngineRole::Publisher, EngineOp::SetAudioEnabled(e)));
                }
                self.push_update_me(&mut out);
                CallStep { actions: out, exit: false }
            },
            Some(CallCommand::MuteVideo(e)) => {
                self.video = e;
                if self.engine_started {
                    out.push(CallAction::Engine(EngineRole::Publisher, EngineOp::SetVideoEnabled(e)));
                }
                self.push_update_me(&mut out);
                CallStep { actions: out, exit: false }
            },
            Some(CallCommand::Share(e)) => {
                self.sharing = e;
                if e && !self.share_attached {
                    self.share_attached = true;
                }
                if self.engine_started {
                    out.push(
                        CallAction::Engine(EngineRole::Publisher, EngineOp::SetSharingEnabled(e)),
                    );
                }
                self.push_update_me(&mut out);
                CallStep { actions: out, exit: false }
            },
            _ => {
                self.finish(false, "hangup".to_owned(), &mut out);
                assert(out@ =~= Seq::<CallAction>::empty() + out@);
                CallStep { actions: out, exit: true }
            },
        }
    }

    fn join(&mut self, out: &mut Vec<CallAction>)
        ensures
            exists|acts: Seq<CallAction>| final(out)@ == old(out)@ + acts && #[trigger] joined(*old(self), *final(self), acts),
    {
        let ghost o = out@;
        let ghost before = *self;
        self.set_state(CallState::Joined, out);
        let ghost mid = *self;
        let ghost o1 = out@;
        let ghost a1 = out@.subrange(o.len() as int, out@.len() as int);
        proof {
            let acts = choose|acts: Seq<CallAction>| o1 == o + acts && #[trigger] state_set(before, mid, acts, CallState::Joined);
            assert(acts =~= a1);
        }
        if self.media_connected {
            self.set_state(CallState::InCall, out);
            proof {
                let acts = choose|acts: Seq<CallAction>| out@ == o1 + acts && #[trigger] state_set(mid, *self, acts, CallState::InCall);
                let all = out@.subrange(o.len() as int, out@.len() as int);
                assert(out@ =~= o + all);
                assert(all.take(a1.len() as int) =~= a1);
                assert(all.skip(a1.len() as int) =~= acts);
                assert(state_set(before, mid, all.take(a1.len() as int), CallState::Joined));
                assert(joined(before, *self, all));
            }
        } else {
            proof {
                assert(out@ =~= o + a1);
                assert(a1.take(a1.len() as int) =~= a1);
                assert(state_set(before, mid, a1.take(a1.len() as int), CallState::Joined));
                assert(joined(before, *self, a1));
            }
        }
    }

    /// A signaling event (`None`: the signaling task is gone).
    pub fn on_signaling(&mut self, ev: Option<GoloomEvent>) -> (s: CallStep)
        requires
            old(self).wf(),
        ensures
            final(self).wf(),
            signaled_as(*old(self), ev, *final(self), s),
    {
        let mut out: Vec<CallAction> = Vec::new();
        let ghost o = out@;
        let e = match ev {
            None => {
                self.finish(false, "signaling closed".to_owned(), &mut out);
                assert(out@ =~= o + out@);
                return CallStep { actions: out, exit: true };
            },
            Some(e) => e,
        };
        match e {
            GoloomEvent::Connected { ice_servers, .. } => {
                let ghost before = *self;
                self.signaling_up = true;
                assert(*self == (CallCore { signaling_up: true, ..before }));
                if !self.engine_started {
                    self.engine_started = true;
                    let servers = ice_list(&ice_servers);
                    let servers2 = ice_list(&ice_servers);
                    out.push(CallAction::Engine(EngineRole::Publisher, EngineOp::SetIceServers(servers)));
                    out.push(CallAction::Engine(EngineRole::Subscriber, EngineOp::SetIceServers(servers2)));
                    out.push(CallAction::Engine(EngineRole::Publisher, EngineOp::Start));
                    assert(ice_servers_for(out@[0], EngineRole::Publisher, ice_servers@));
                    assert(ice_servers_for(out@[1], EngineRole::Subscriber, ice_servers@));
                    assert(*self == (CallCore { signaling_up: true, engine_started: true, ..*old(self) }));
                } else {
                    self.join(&mut out);
                    proof {
                        let acts = choose|acts: Seq<CallAction>| out@ == o + acts && #[trigger] joined(CallCore { signaling_up: true, ..before }, *self, acts);
                        assert(acts =~= out@);
                        assert(before == *old(self));
                        assert(joined(CallCore { signaling_up: true, ..*old(self) }, *self, out@));
                    }
                }
                CallStep { actions: out, exit: false }
            },
            GoloomEvent::Disconnected { will_retry, reason } => {
                self.signaling_up = false;
                if will_retry {
                    self.set_state(CallState::Reconnecting, &mut out);
                    assert(out@ =~= o + out@);
                    CallStep { actions: out, exit: false }
                } else {
                    self.finish(false, reason, &mut out);
                    assert(out@ =~= o + out@);
                    CallStep { actions: out, exit: true }
                }
            },
            GoloomEvent::RosterUpsert(list) => {
                let ghost r0 = self.roster@;
                let ghost b0 = *self;
                let ghost mut ps: Seq<TelemostParticipant> = Seq::empty();
                let mut i: usize = 0;
                while i < list.len()
                    invariant
                        i <= list.len(),
                        ps.len() == i,
                        forall|k: int| 0 <= k < i ==> participant_of(#[trigger] list@[k], ps[k]),
                        self.roster@ == upsert_all(r0, ps),
                        ids_sorted(self.roster@),
                        *self == (CallCore { roster: self.roster, ..b0 }),
                    decreases list.len() - i,
                {
                    let p = goloom::to_telemost_participant(&list[i]);
                    proof {
                        roster_upsert_keeps_order(self.roster@, p);
                        assert(ps.push(p).drop_last() =~= ps);
                        ps = ps.push(p);
                    }
                    upsert_participant(&mut self.roster, p);
                    i = i + 1;
                }
                out.push(CallAction::Emit(CallEvent::Roster(copy_roster(&self.roster))));
                proof {
                    assert(roster_upserted(r0, list@, self.roster@));
                }
                CallStep { actions: out, exit: false }
            },
            GoloomEvent::RosterRemove(ids) => {
                let ghost r0 = self.roster@;
                let ghost b0 = *self;
                let mut i: usize = 0;
                while i < ids.len()
                    invariant
                        i <= ids.len(),
                        self.roster@ == remove_all(r0, ids@.take(i as int)),
                        ids_sorted(self.roster@),
                        *self == (CallCore { roster: self.roster, ..b0 }),
                    decreases ids.len() - i,
                {
                    proof {
                        roster_remove_keeps_order(self.roster@, ids@[i as int]@);
                        assert(ids@.take(i + 1).drop_last() =~= ids@.take(i as int));
                    }
                    remove_participant(&mut self.roster, ids[i].as_str());
                    i = i + 1;
                }
                assert(ids@.take(i as int) =~= ids@);
                out.push(CallAction::Emit(CallEvent::Roster(copy_roster(&self.roster))));
                CallStep { actions: out, exit: false }
            },
            GoloomEvent::SubscriberOffer { pc_seq, sdp } => {
                self.pending_answer_seq = Some(pc_seq);
                out.push(CallAction::Engine(EngineRole::Subscriber, EngineOp::HandleRemoteOffer(sdp)));
                CallStep { actions: out, exit: false }
            },
            GoloomEvent::PublisherAnswer { sdp, .. } => {
                out.push(CallAction::Engine(EngineRole::Publisher, EngineOp::HandleRemoteAnswer(sdp)));
                CallStep { actions: out, exit: false }
            },
            GoloomEvent::IceCandidate(c) => {
                let mline = match c.sdp_mline_index {
                    Some(m) => m,
                    None => 0,
                };
                let role = if c.target == IceTarget::Subscriber.to_i32() {
                    EngineRole::Subscriber
                } else {
                    EngineRole::Publisher
                };
                out.push(
                    CallAction::Engine(role, EngineOp::AddRemoteIce { mline_index: mline, candidate: c.candidate }),
                );
                CallStep { actions: out, exit: false }
            },
            GoloomEvent::ServerError { uid, code, description } => {
                let mut m = "server rejected ".to_owned();
                m.append(uid.as_str());
                m.append(" (code ");
                push_signed(&mut m, code as i64);
                m.append("): ");
                m.append(description.as_str());
                out.push(CallAction::Emit(CallEvent::Error(m)));
                CallStep { actions: out, exit: false }
            },
            _ => CallStep { actions: out, exit: false },
        }
    }

    fn fail_start(&mut self, reason: String, out: &mut Vec<CallAction>)
        ensures
            exists|acts: Seq<CallAction>| final(out)@ == old(out)@ + acts && #[trigger] start_failed(*old(self), *final(self), acts, reason@),
    {
        let ghost o = out@;
        let ghost before = *self;
        out.push(CallAction::Signal(SignalOp::Shutdown));
        let ghost mid = out@;
        let target = CallState::Failed { reason };
        let ghost t = target;
        self.set_state(target, out);
        proof {
            let acts = choose|acts: Seq<CallAction>| out@ == mid + acts && #[trigger] state_set(before, *self, acts, t);
            let all = out@.subrange(o.len() as int, out@.len() as int);
            assert(out@ =~= o + all);
            assert(all.skip(1) =~= acts);
            assert(is_end_state(t, true, reason@));
            assert(start_failed(before, *self, all, reason@));
        }
    }

    /// Result of an engine `Start`. The publisher starts first, then the
    /// subscriber; once both run the call is `Joined`. A start failure
    /// shuts signaling down and fails the call.
    pub fn on_start_result(&mut self, role: EngineRole, r: Result<(), String>) -> (s: CallStep)
        requires
            old(self).wf(),
        ensures
            final(self).wf(),
            started_as(*old(self), role, r, *final(self), s),
    {
        let mut out: Vec<CallAction> = Vec::new();
        let ghost o = out@;
        match r {
            Ok(()) => match role {
                EngineRole::Publisher => {
                    out.push(CallAction::Engine(EngineRole::Subscriber, EngineOp::Start));
                    assert(out@ =~= seq![CallAction::Engine(EngineRole::Subscriber, EngineOp::Start)]);
                    CallStep { actions: out, exit: false }
                },
                EngineRole::Subscriber => {
                    self.join(&mut out);
                    assert(out@ =~= o + out@);
                    CallStep { actions: out, exit: false }
                },
            },
            Err(e) => {
                let mut reason = match role {
                    EngineRole::Publisher => "publish engine failed to start: ".to_owned(),
                    EngineRole::Subscriber => "subscribe engine failed to start: ".to_owned(),
                };
                reason.append(e.as_str());
                self.fail_start(reason, &mut out);
                assert(out@ =~= o + out@);
                CallStep { actions: out, exit: true }
            },
        }
    }

    fn on_peer_state(&mut self, p: PeerState, out: &mut Vec<CallAction>)
        requires
            old(out)@.len() == 0,
        ensures
            peer_changed(*old(self), p, *final(self), final(out)@),
    {
        match p {
            PeerState::Connected => {
                let ghost before = *self;
                self.media_connected = true;
                out.push(CallAction::Emit(CallEvent::Media(PeerState::Connected)));
                let ghost o1 = out@;
                let ghost mid = *self;
                assert(mid == (CallCore { media_connected: true, ..before }));
                if self.signaling_up {
                    self.set_state(CallState::InCall, out);
                    proof {
                        let acts = choose|acts: Seq<CallAction>| out@ == o1 + acts && #[trigger] state_set(mid, *self, acts, CallState::InCall);
                        assert(out@.skip(1) =~= acts);
                    }
                }
            },
            PeerState::Failed => {
                self.finish(true, "media connection failed".to_owned(), out);
                assert(out@ =~= old(out)@ + out@);
            },
            other => {
                out.push(CallAction::Emit(CallEvent::Media(other)));
                assert(out@ =~= seq![CallAction::Emit(CallEvent::Media(other))]);
            },
        }
    }

    fn ice_to_signal(&self, target: IceTarget, mline_index: u32, candidate: String) -> (a: CallAction)
        ensures
            a == ice_out(*self, target, mline_index, candidate),
    {
        CallAction::Signal(
            SignalOp::Ice(
                WebrtcIceCandidate {
                    pc_seq: self.pc_seq,
                    target: target.to_i32(),
                    candidate,
                    sdp_mid: None,
                    sdp_mline_index: Some(mline_index),
                    username_fragment: None,
                },
            ),
        )
    }

    /// A publisher-engine event (`None`: the engine's channel closed).
    /// Offers go upstream with the next `pc_seq`, candidates are tagged
    /// as the publisher's; answers from the publisher are dropped.
    pub fn on_publish(&mut self, ev: Option<MediaEvent>) -> (s: CallStep)
        requires
            old(self).wf(),
        ensures
            final(self).wf(),
            published_as(*old(self), ev, *final(self), s),
    {
        let mut out: Vec<CallAction> = Vec::new();
        let e = match ev {
            None => {
                self.finish(true, "publish engine gone".to_owned(), &mut out);
                assert(out@ =~= Seq::<CallAction>::empty() + out@);
                return CallStep { actions: out, exit: true };
            },
            Some(e) => e,
        };
        match e {
            MediaEvent::LocalOffer { sdp, tracks } => {
                self.pc_seq = if self.pc_seq == u32::MAX {
                    0
                } else {
                    self.pc_seq + 1
                };
                let proto = tracks_to_proto(&tracks);
                out.push(
                    CallAction::Signal(SignalOp::PublisherOffer { pc_seq: self.pc_seq, sdp, tracks: proto }),
                );
            },
            MediaEvent::LocalAnswer { .. } => {},
            MediaEvent::LocalIce { mline_index, candidate } => {
                out.push(self.ice_to_signal(IceTarget::Publisher, mline_index, candidate));
                assert(out@ =~= seq![ice_out(*old(self), IceTarget::Publisher, mline_index, candidate)]);
            },
            MediaEvent::ConnectionState(p) => {
                self.on_peer_state(p, &mut out);
            },
            MediaEvent::RemoteFrame(f) => {
                out.push(CallAction::Emit(CallEvent::RemoteFrame(f)));
            },
            MediaEvent::PreviewFrame(f) => {
                out.push(CallAction::Emit(CallEvent::PreviewFrame(f)));
            },
            MediaEvent::Error(m) => {
                out.push(CallAction::Emit(CallEvent::Error(m)));
            },
        }
        CallStep { actions: out, exit: false }
    }

    /// A subscriber-engine event (`None`: the engine's channel closed).
    /// An answer goes upstream with the `pc_seq` of the offer it answers
    /// (and is dropped when no offer is pending); candidates are tagged as
    /// the subscriber's; offers from the subscriber are dropped.
    pub fn on_subscribe(&mut self, ev: Option<MediaEvent>) -> (s: CallStep)
        requires
            old(self).wf(),
        ensures
            final(self).wf(),
            subscribed_as(*old(self), ev, *final(self), s),
    {
        let mut out: Vec<CallAction> = Vec::new();
        let e = match ev {
            None => {
                self.finish(true, "subscribe engine gone".to_owned(), &mut out);
                assert(out@ =~= Seq::<CallAction>::empty() + out@);
                return CallStep { actions: out, exit: true };
            },
            Some(e) => e,
        };
        match e {
            MediaEvent::LocalOffer { .. } => {},
            MediaEvent::LocalAnswer { sdp } => {
                match self.pending_answer_seq.take() {
                    Some(seq) => {
                        out.push(CallAction::Signal(SignalOp::SubscriberAnswer { pc_seq: seq, sdp }));
                    },
                    None => {},
                }
            },
            MediaEvent::LocalIce { mline_index, candidate } => {
                out.push(self.ice_to_signal(IceTarget::Subscriber, mline_index, candidate));
                assert(out@ =~= seq![ice_out(*old(self), IceTarget::Subscriber, mline_index, candidate)]);
            },
            MediaEvent::ConnectionState(p) => {
                self.on_peer_state(p, &mut out);
            },
            MediaEvent::RemoteFrame(f) => {
                out.push(CallAction::Emit(CallEvent::RemoteFrame(f)));
            },
            MediaEvent::PreviewFrame(f) => {
                out.push(CallAction::Emit(CallEvent::PreviewFrame(f)));
            },
            MediaEvent::Error(m) => {
                out.push(CallAction::Emit(CallEvent::Error(m)));
            },
        }
        CallStep { actions: out, exit: false }
    }
}

/// Participants-panel entry for a roster description.
pub open spec fn participant_of(d: goloom::ParticipantDescription, p: TelemostParticipant) -> bool {
    goloom::participant_entry_of(d, p)
}

/// Roster after inserting `ps` one after the other.
pub open spec fn upsert_all(r: Seq<TelemostParticipant>, ps: Seq<TelemostParticipant>) -> Seq<TelemostParticipant>
    decreases ps.len(),
{
    if ps.len() == 0 {
        r
    } else {
        roster_upsert(upsert_all(r, ps.drop_last()), ps.last())
    }
}

/// Roster after removing the ids one after the other.
pub open spec fn remove_all(r: Seq<TelemostParticipant>, ids: Seq<String>) -> Seq<TelemostParticipant>
    decreases ids.len(),
{
    if ids.len() == 0 {
        r
    } else {
        roster_remove(remove_all(r, ids.drop_last()), ids.last()@)
    }
}

/// `after` is `before` with the entries of `descs` inserted in order.
pub open spec fn roster_upserted(before: Seq<TelemostParticipant>, descs: Seq<goloom::ParticipantDescription>, after: Seq<TelemostParticipant>) -> bool {
    exists|ps: Seq<TelemostParticipant>| ps.len() == descs.len() && (forall|k: int| 0 <= k < ps.len() ==> participant_of(#[trigger] descs[k], ps[k])) && after == #[trigger] upsert_all(before, ps)
}

/// `Joined`, then `InCall` when media is already connected.
pub open spec fn joined(before: CallCore, after: CallCore, acts: Seq<CallAction>) -> bool {
    exists|mid: CallCore, n: int|
        0 <= n <= acts.len() && #[trigger] state_set(before, mid, acts.take(n), CallState::Joined)
            && if before.media_connected {
            state_set(mid, after, acts.skip(n), CallState::InCall)
        } else {
            after == mid && n == acts.len()
        }
}

pub open spec fn error_text(uid: Seq<char>, code: i32, description: Seq<char>) -> Seq<char> {
    "server rejected "@ + uid + " (code "@ + signed_decimal(code as int) + "): "@ + description
}

pub open spec fn ice_servers_for(a: CallAction, role: EngineRole, infos: Seq<IceServerInfo>) -> bool {
    a matches CallAction::Engine(r, EngineOp::SetIceServers(v)) && r == role && v@.len() == infos.len()
        && forall|k: int| 0 <= k < v@.len() ==> (#[trigger] v@[k]).urls@ == infos[k].urls@
        && v@[k].username@ == infos[k].username@ && v@[k].credential@ == infos[k].credential@
}

/// How the controller handles one signaling event.
/// - end of signaling: the call ends (`signaling closed`);
/// - `Connected`: signaling is up; the first time, both engines get the ICE
///   servers and the publisher is started; later, the call is `Joined` (and
///   `InCall` when media is connected);
/// - `Disconnected`: `Reconnecting` when the session retries, otherwise the
///   call ends with the session's reason;
/// - roster changes update the ordered roster and report it;
/// - SDP and ICE go to the engine of their direction;
/// - server errors are reported; everything else is ignored.
pub open spec fn signaled_as(before: CallCore, ev: Option<GoloomEvent>, after: CallCore, s: CallStep) -> bool {
    match ev {
        None => s.exit && finished(before, after, s.actions@, false, "signaling closed"@),
        Some(e) => match e {
            GoloomEvent::Connected { ice_servers, .. } => !s.exit && if !before.engine_started {
                &&& after == (CallCore { signaling_up: true, engine_started: true, ..before })
                &&& s.actions@.len() == 3
                &&& ice_servers_for(s.actions@[0], EngineRole::Publisher, ice_servers@)
                &&& ice_servers_for(s.actions@[1], EngineRole::Subscriber, ice_servers@)
                &&& s.actions@[2] == CallAction::Engine(EngineRole::Publisher, EngineOp::Start)
            } else {
                joined(CallCore { signaling_up: true, ..before }, after, s.actions@)
            },
            GoloomEvent::Disconnected { will_retry, reason } => if will_retry {
                !s.exit && state_set(
                    CallCore { signaling_up: false, ..before },
                    after,
                    s.actions@,
                    CallState::Reconnecting,
                )
            } else {
                s.exit && finished(CallCore { signaling_up: false, ..before }, after, s.actions@, false, reason@)
            },
            GoloomEvent::RosterUpsert(list) => {
                &&& !s.exit
                &&& after == (CallCore { roster: after.roster, ..before })
                &&& roster_upserted(before.roster@, list@, after.roster@)
                &&& s.actions@.len() == 1
                &&& roster_event(s.actions@[0], after.roster@)
            },
            GoloomEvent::RosterRemove(ids) => {
                &&& !s.exit
                &&& after == (CallCore { roster: after.roster, ..before })
                &&& after.roster@ == remove_all(before.roster@, ids@)
                &&& s.actions@.len() == 1
                &&& roster_event(s.actions@[0], after.roster@)
            },
            GoloomEvent::SubscriberOffer { pc_seq, sdp } => !s.exit && after == (CallCore {
                pending_answer_seq: Some(pc_seq),
                ..before
            }) && s.actions@ == seq![
                CallAction::Engine(EngineRole::Subscriber, EngineOp::HandleRemoteOffer(sdp)),
            ],
            GoloomEvent::PublisherAnswer { sdp, .. } => !s.exit && after == before && s.actions@
                == seq![CallAction::Engine(EngineRole::Publisher, EngineOp::HandleRemoteAnswer(sdp))],
            GoloomEvent::IceCandidate(c) => !s.exit && after == before && s.actions@ == seq![
                CallAction::Engine(
                    if c.target == IceTarget::Subscriber.value() {
                        EngineRole::Subscriber
                    } else {
                        EngineRole::Publisher
                    },
                    EngineOp::AddRemoteIce {
                        mline_index: match c.sdp_mline_index {
                            Some(m) => m,
                            None => 0,
                        },
                        candidate: c.candidate,
                    },
                ),
            ],
            GoloomEvent::ServerError { uid, code, description } => {
                &&& !s.exit
                &&& after == before
                &&& s.actions@.len() == 1
                &&& s.actions@[0] matches CallAction::Emit(CallEvent::Error(m)) && m@ == error_text(
                    uid@,
                    code,
                    description@,
                )
            },
            _ => !s.exit && after == before && s.actions@.len() == 0,
        },
    }
}


/// A failed engine start: signaling is shut down, then the call fails with
/// `reason` (the engines are left as they are).
pub open spec fn start_failed(before: CallCore, after: CallCore, acts: Seq<CallAction>, reason: Seq<char>) -> bool {
    &&& acts.len() >= 1
    &&& acts[0] == CallAction::Signal(SignalOp::Shutdown)
    &&& exists|target: CallState| #[trigger] is_end_state(target, true, reason) && state_set(
        before,
        after,
        acts.skip(1),
        target,
    )
}

pub open spec fn start_failure_prefix(role: EngineRole) -> Seq<char> {
    match role {
        EngineRole::Publisher => "publish engine failed to start: "@,
        EngineRole::Subscriber => "subscribe engine failed to start: "@,
    }
}

/// How the controller handles the result of starting an engine.
pub open spec fn started_as(before: CallCore, role: EngineRole, r: Result<(), String>, after: CallCore, s: CallStep) -> bool {
    match r {
        Ok(_) => !s.exit && match role {
            EngineRole::Publisher => after == before && s.actions@ == seq![
                CallAction::Engine(EngineRole::Subscriber, EngineOp::Start),
            ],
            EngineRole::Subscriber => joined(before, after, s.actions@),
        },
        Err(e) => s.exit && start_failed(before, after, s.actions@, start_failure_prefix(role) + e@),
    }
}

/// Outgoing candidate of one engine, tagged with its direction and the
/// current `pc_seq`.
pub open spec fn ice_out(c: CallCore, target: IceTarget, mline_index: u32, candidate: String) -> CallAction {
    CallAction::Signal(
        SignalOp::Ice(
            WebrtcIceCandidate {
                pc_seq: c.pc_seq,
                target: target.value(),
                candidate,
                sdp_mid: None,
                sdp_mline_index: Some(mline_index),
                username_fragment: None,
            },
        ),
    )
}

/// A peer-connection state change: `Connected` marks media up, reports it,
/// and moves a call with signaling up to `InCall`; `Failed` ends the call as
/// failed (the task keeps running); other states are only reported.
pub open spec fn peer_changed(before: CallCore, p: PeerState, after: CallCore, acts: Seq<CallAction>) -> bool {
    match p {
        PeerState::Connected => {
            let mid = CallCore { media_connected: true, ..before };
            &&& acts.len() >= 1
            &&& acts[0] == CallAction::Emit(CallEvent::Media(PeerState::Connected))
            &&& if before.signaling_up {
                state_set(mid, after, acts.skip(1), CallState::InCall)
            } else {
                after == mid && acts.len() == 1
            }
        },
        PeerState::Failed => finished(before, after, acts, true, "media connection failed"@),
        _ => after == before && acts == seq![CallAction::Emit(CallEvent::Media(p))],
    }
}

/// The `pc_seq` after `x`, wrapping at the top of the range.
pub open spec fn next_seq(x: u32) -> u32 {
    if x == u32::MAX {
        0
    } else {
        (x + 1) as u32
    }
}

/// What both engines' events have in common: state changes, frames and
/// errors are passed on.
pub open spec fn media_common(before: CallCore, e: MediaEvent, after: CallCore, s: CallStep) -> bool {
    match e {
        MediaEvent::ConnectionState(p) => !s.exit && peer_changed(before, p, after, s.actions@),
        MediaEvent::RemoteFrame(f) => !s.exit && after == before && s.actions@ == seq![
            CallAction::Emit(CallEvent::RemoteFrame(f)),
        ],
        MediaEvent::PreviewFrame(f) => !s.exit && after == before && s.actions@ == seq![
            CallAction::Emit(CallEvent::PreviewFrame(f)),
        ],
        MediaEvent::Error(m) => !s.exit && after == before && s.actions@ == seq![
            CallAction::Emit(CallEvent::Error(m)),
        ],
        _ => true,
    }
}

/// How the controller handles one publisher-engine event.
pub open spec fn published_as(before: CallCore, ev: Option<MediaEvent>, after: CallCore, s: CallStep) -> bool {
    match ev {
        None => s.exit && finished(before, after, s.actions@, true, "publish engine gone"@),
        Some(e) => match e {
            MediaEvent::LocalOffer { sdp, tracks } => {
                &&& !s.exit
                &&& after == (CallCore { pc_seq: next_seq(before.pc_seq), ..before })
                &&& s.actions@.len() == 1
                &&& s.actions@[0] matches CallAction::Signal(SignalOp::PublisherOffer { pc_seq, sdp: d, tracks: t })
                    && pc_seq == after.pc_seq && d == sdp && t@.len() == tracks@.len()
                    && forall|k: int| 0 <= k < t@.len() ==> is_track_description(#[trigger] t@[k], tracks@[k])
            },
            MediaEvent::LocalAnswer { .. } => !s.exit && after == before && s.actions@.len() == 0,
            MediaEvent::LocalIce { mline_index, candidate } => !s.exit && after == before
                && s.actions@ == seq![ice_out(before, IceTarget::Publisher, mline_index, candidate)],
            _ => media_common(before, e, after, s),
        },
    }
}

/// How the controller handles one subscriber-engine event.
pub open spec fn subscribed_as(before: CallCore, ev: Option<MediaEvent>, after: CallCore, s: CallStep) -> bool {
    match ev {
        None => s.exit && finished(before, after, s.actions@, true, "subscribe engine gone"@),
        Some(e) => match e {
            MediaEvent::LocalOffer { .. } => !s.exit && after == before && s.actions@.len() == 0,
            MediaEvent::LocalAnswer { sdp } => !s.exit && after == (CallCore {
                pending_answer_seq: None,
                ..before
            }) && s.actions@ == match before.pending_answer_seq {
                Some(seq) => seq![CallAction::Signal(SignalOp::SubscriberAnswer { pc_seq: seq, sdp })],
                None => Seq::empty(),
            },
            MediaEvent::LocalIce { mline_index, candidate } => !s.exit && after == before
                && s.actions@ == seq![ice_out(before, IceTarget::Subscriber, mline_index, candidate)],
            _ => media_common(before, e, after, s),
        },
    }
}


/// Whether a call state is final.
pub open spec fn is_over(s: CallState) -> bool {
    s is Ended || s is Failed
}

proof fn lemma_finished_is_over(before: CallCore, after: CallCore, acts: Seq<CallAction>, failed: bool, reason: Seq<char>)
    requires
        finished(before, after, acts, failed, reason),
    ensures
        is_over(after.state),
{
    let t = choose|t: CallState| #[trigger] is_end_state(t, failed, reason) && state_set(before, after, acts.skip(3), t);
    if same_state(before.state, t) {
        assert(after == before);
    }
}

proof fn lemma_start_failed_is_over(before: CallCore, after: CallCore, acts: Seq<CallAction>, reason: Seq<char>)
    requires
        start_failed(before, after, acts, reason),
    ensures
        is_over(after.state),
{
    let t = choose|t: CallState| #[trigger] is_end_state(t, true, reason) && state_set(before, after, acts.skip(1), t);
    if same_state(before.state, t) {
        assert(after == before);
    }
}

/// Whenever a step ends the call task, the call is left `Ended` or
/// `Failed`, whatever input caused it.
pub proof fn exit_leaves_call_over(
    before: CallCore,
    after: CallCore,
    s: CallStep,
    cmd: Option<CallCommand>,
    signal: Option<GoloomEvent>,
    role: EngineRole,
    start: Result<(), String>,
    media: Option<MediaEvent>,
)
    ensures
        (s.exit && signaled_as(before, signal, after, s)) ==> is_over(after.state),
        (s.exit && started_as(before, role, start, after, s)) ==> is_over(after.state),
        (s.exit && published_as(before, media, after, s)) ==> is_over(after.state),
        (s.exit && subscribed_as(before, media, after, s)) ==> is_over(after.state),
        (s.exit && commanded_as(before, cmd, after, s)) ==> is_over(after.state),
{
    if s.exit && signaled_as(before, signal, after, s) {
        match signal {
            None => lemma_finished_is_over(before, after, s.actions@, false, "signaling closed"@),
            Some(GoloomEvent::Disconnected { will_retry, reason }) => {
                lemma_finished_is_over(CallCore { signaling_up: false, ..before }, after, s.actions@, false, reason@);
            },
            _ => {},
        }
    }
    if s.exit && started_as(before, role, start, after, s) {
        if let Err(e) = start {
            lemma_start_failed_is_over(before, after, s.actions@, start_failure_prefix(role) + e@);
        }
    }
    if s.exit && published_as(before, media, after, s) {
        if media is None {
            lemma_finished_is_over(before, after, s.actions@, true, "publish engine gone"@);
        } else {
            let e = media->0;
            if let MediaEvent::ConnectionState(p) = e {
                if p == PeerState::Failed {
                    lemma_finished_is_over(before, after, s.actions@, true, "media connection failed"@);
                }
            }
        }
    }
    if s.exit && subscribed_as(before, media, after, s) {
        if media is None {
            lemma_finished_is_over(before, after, s.actions@, true, "subscribe engine gone"@);
        }
    }
    if s.exit && commanded_as(before, cmd, after, s) {
        lemma_finished_is_over(before, after, s.actions@, false, "hangup"@);
    }
}

/// The subscriber's answer goes upstream with the `pc_seq` of the server
/// offer it answers, and only once.
pub proof fn answer_carries_offer_seq(
    c0: CallCore,
    c1: CallCore,
    c2: CallCore,
    c3: CallCore,
    pc_seq: u32,
    offer: String,
    answer: String,
    again: String,
    s1: CallStep,
    s2: CallStep,
    s3: CallStep,
)
    requires
        signaled_as(c0, Some(GoloomEvent::SubscriberOffer { pc_seq, sdp: offer }), c1, s1),
        subscribed_as(c1, Some(MediaEvent::LocalAnswer { sdp: answer }), c2, s2),
        subscribed_as(c2, Some(MediaEvent::LocalAnswer { sdp: again }), c3, s3),
    ensures
        s1.actions@ == seq![CallAction::Engine(EngineRole::Subscriber, EngineOp::HandleRemoteOffer(offer))],
        s2.actions@ == seq![CallAction::Signal(SignalOp::SubscriberAnswer { pc_seq, sdp: answer })],
        s3.actions@.len() == 0,
{
}


/// How the controller handles one UI command.
pub open spec fn commanded_as(before: CallCore, cmd: Option<CallCommand>, after: CallCore, s: CallStep) -> bool {
    match cmd {
        Some(CallCommand::MuteAudio(e)) => !s.exit && after == (CallCore {
            audio: e,
            ..before
        }) && s.actions@ == (if before.engine_started {
            seq![CallAction::Engine(EngineRole::Publisher, EngineOp::SetAudioEnabled(e))]
        } else {
            Seq::empty()
        }).push(update_me_of(after)),
        Some(CallCommand::MuteVideo(e)) => !s.exit && after == (CallCore {
            video: e,
            ..before
        }) && s.actions@ == (if before.engine_started {
            seq![CallAction::Engine(EngineRole::Publisher, EngineOp::SetVideoEnabled(e))]
        } else {
            Seq::empty()
        }).push(update_me_of(after)),
        Some(CallCommand::Share(e)) => !s.exit && after == (CallCore {
            sharing: e,
            share_attached: before.share_attached || e,
            ..before
        }) && s.actions@ == (if before.engine_started {
            seq![CallAction::Engine(EngineRole::Publisher, EngineOp::SetSharingEnabled(e))]
        } else {
            Seq::empty()
        }).push(update_me_of(after)),
        _ => s.exit && finished(before, after, s.actions@, false, "hangup"@),
    }
}


/// What the call window is told when carrying out `a` failed with `err`:
/// signaling sends are reported with their kind (`offer`, `answer`, `ice`
/// send failed), an `update_me` or engine error as it is. Start results go
/// to [`CallCore::on_start_result`] instead, and the remaining actions do
/// not fail.
pub open spec fn failure_text(a: CallAction, err: Seq<char>) -> Option<Seq<char>> {
    match a {
        CallAction::Signal(SignalOp::PublisherOffer { .. }) => Some("offer send failed: "@ + err),
        CallAction::Signal(SignalOp::SubscriberAnswer { .. }) => Some("answer send failed: "@ + err),
        CallAction::Signal(SignalOp::Ice(_)) => Some("ice send failed: "@ + err),
        CallAction::Signal(SignalOp::UpdateMe { .. }) => Some(err),
        CallAction::Engine(_, op) => if op is Start || op is Stop {
            None
        } else {
            Some(err)
        },
        _ => None,
    }
}

pub fn failure_event(a: &CallAction, err: String) -> (ev: Option<CallEvent>)
    ensures
        match failure_text(*a, err@) {
            Some(t) => ev matches Some(CallEvent::Error(m)) && m@ == t,
            None => ev is None,
        },
{
    let prefix = match a {
        CallAction::Signal(SignalOp::PublisherOffer { .. }) => "offer send failed: ",
        CallAction::Signal(SignalOp::SubscriberAnswer { .. }) => "answer send failed: ",
        CallAction::Signal(SignalOp::Ice(_)) => "ice send failed: ",
        CallAction::Signal(SignalOp::UpdateMe { .. }) => {
            return Some(CallEvent::Error(err));
        },
        CallAction::Engine(_, op) => {
            return match op {
                EngineOp::Start | EngineOp::Stop => None,
                _ => Some(CallEvent::Error(err)),
            };
        },
        _ => {
            return None;
        },
    };
    let mut m = prefix.to_owned();
    m.append(err.as_str());
    Some(CallEvent::Error(m))
}


// ── outgoing signaling messages ─────────────────────────────────────

/// `k` is the wire message that carries the signaling action `op`
/// (`Shutdown` has none: it closes the session).
pub open spec fn signal_carries(op: SignalOp, k: goloom::MessageKind) -> bool {
    match op {
        SignalOp::PublisherOffer { pc_seq, sdp, tracks } => k == goloom::MessageKind::PublisherSdpOffer(
            goloom::PublisherSdpOffer { pc_seq, sdp, tracks },
        ),
        SignalOp::SubscriberAnswer { pc_seq, sdp } => k == goloom::MessageKind::SubscriberSdpAnswer(
            goloom::SubscriberSdpAnswer { pc_seq, sdp },
        ),
        SignalOp::Ice(c) => k == goloom::MessageKind::IceCandidate(c),
        SignalOp::UpdateMe { send_audio, send_video, send_sharing } => k matches goloom::MessageKind::UpdateMe(u)
            && u.participant_attributes@.len() == 0 && u.send_audio == send_audio && u.send_video
            == send_video && u.send_sharing == send_sharing,
        SignalOp::Shutdown => false,
    }
}

/// The message to send for a signaling action, under a fresh uid.
pub fn signal_message(op: SignalOp) -> (m: Option<goloom::GoloomMessage>)
    ensures
        match m {
            Some(msg) => goloom::is_uuid_v4_text(msg.uid@) && (msg.kind matches Some(k)
                && signal_carries(op, k)),
            None => op is Shutdown,
        },
{
    let kind = match op {
        SignalOp::PublisherOffer { pc_seq, sdp, tracks } => goloom::MessageKind::PublisherSdpOffer(
            goloom::PublisherSdpOffer { pc_seq, sdp, tracks },
        ),
        SignalOp::SubscriberAnswer { pc_seq, sdp } => goloom::MessageKind::SubscriberSdpAnswer(
            goloom::SubscriberSdpAnswer { pc_seq, sdp },
        ),
        SignalOp::Ice(c) => goloom::MessageKind::IceCandidate(c),
        SignalOp::UpdateMe { send_audio, send_video, send_sharing } => {
            let attrs: Vec<(String, String)> = Vec::new();
            let k = goloom::MessageKind::UpdateMe(
                goloom::UpdateParticipantMeta {
                    participant_attributes: attrs,
                    send_audio,
                    send_video,
                    send_sharing,
                },
            );
            k
        },
        SignalOp::Shutdown => {
            return None;
        },
    };
    Some(goloom::GoloomMessage { uid: goloom::new_uid(), kind: Some(kind) })
}

/// A client error report with `code` and `description`, stamped with
/// `now_ms` (milliseconds since the Unix epoch), under a fresh uid.
pub fn client_error_message(code: goloom::StatusCode, description: &str, now_ms: u64) -> (m: goloom::GoloomMessage)
    ensures
        goloom::is_uuid_v4_text(m.uid@),
        m.kind matches Some(goloom::MessageKind::ClientError(e)) && e.code == code.value()
            && e.description@ == description@ && e.details@.len() == 0 && e.client_timestamp_ms == now_ms,
{
    goloom::GoloomMessage {
        uid: goloom::new_uid(),
        kind: Some(
            goloom::MessageKind::ClientError(
                goloom::ClientError {
                    code: code.to_i32(),
                    description: description.to_owned(),
                    details: Vec::new(),
                    client_timestamp_ms: now_ms,
                },
            ),
        ),
    }
}

/// A request for the slots from `offset` on, under a fresh uid.
pub fn slots_offset_message(offset: u32) -> (m: goloom::GoloomMessage)
    ensures
        goloom::is_uuid_v4_text(m.uid@),
        m.kind == Some(goloom::MessageKind::SetSlotsOffset(goloom::SetSlotsOffset { offset })),
{
    goloom::GoloomMessage {
        uid: goloom::new_uid(),
        kind: Some(goloom::MessageKind::SetSlotsOffset(goloom::SetSlotsOffset { offset })),
    }
}

} // verus!
