//! Goloom signaling session logic: the connection parameters, the events the
//! session reports, how each inbound message is handled, and the reconnect
//! policy that decides whether and when the next session starts.
//!
//! The socket, timers and task plumbing live with the caller; everything a
//! session *decides* is here.

use vstd::prelude::*;

use crate::config;
use crate::goloom::{
    self, CapabilitiesAnswer, GoloomMessage, HelloAuth, MessageKind, ParticipantDescription,
    ParticipantQualityReport, RtcConfiguration, RtcIceServer, SetSlots, SlotsConfig, StatusCode,
    UpdateParticipantMeta, WebrtcIceCandidate,
};
use crate::text::{concat2, push_decimal, starts_with};
use crate::text::decimal;

verus! {

/// Heartbeat period used until the server says otherwise.
pub const DEFAULT_PING_INTERVAL_SECS: u64 = 5;

/// Ack deadline used until the server says otherwise.
pub const DEFAULT_ACK_TIMEOUT_SECS: u64 = 5;

/// Connection state shown to the user interface.
#[derive(Clone, Debug, PartialEq)]
pub enum GoloomState {
    Disconnected,
    Connecting,
    Handshaking,
    Connected,
    Reconnecting(u32),
    Closed { reason: String },
}

/// ICE server as delivered by `ServerHello.rtc_configuration`.
#[derive(Clone, Debug, PartialEq)]
pub struct IceServerInfo {
    pub urls: Vec<String>,
    pub username: String,
    pub credential: String,
}

/// Events a session reports to the call controller and the UI.
#[derive(Clone, Debug)]
pub enum GoloomEvent {
    StateChanged(GoloomState),
    Connected {
        session_secret: String,
        ice_servers: Vec<IceServerInfo>,
        capabilities: Option<CapabilitiesAnswer>,
        ping_interval_secs: u64,
        ack_timeout_secs: u64,
    },
    Disconnected { will_retry: bool, reason: String },
    RosterUpsert(Vec<ParticipantDescription>),
    RosterRemove(Vec<String>),
    Slots(SlotsConfig),
    SlotsOffset(u32),
    SlotsMeta(Option<u32>),
    SlotsRules(SetSlots),
    MeUpdated(UpdateParticipantMeta),
    PinnedRequested(Vec<String>),
    SubscriberOffer { pc_seq: u32, sdp: String },
    PublisherAnswer { pc_seq: u32, sdp: String },
    IceCandidate(WebrtcIceCandidate),
    Quality { participants: Vec<ParticipantQualityReport>, self_score: i32 },
    Vad(bool),
    ServerNotification { id: String, payload: String },
    ActiveCodecs { video: i32, audio: i32 },
    /// Ack for one of our messages, or an inbound server ping surfaced as an
    /// OK ack (the wire ack for it is sent automatically).
    AckReceived { uid: String, code: i32, description: Option<String> },
    /// Non-OK ack, e.g. `BAD_DESCRIPTION` for a rejected SDP.
    ServerError { uid: String, code: i32, description: String },
    /// Server asked us to move; the session reconnects by itself.
    ReconnectRequested { code: i32, reason: String },
}

/// Connection parameters for one call.
#[derive(Clone, Debug)]
pub struct GoloomParams {
    pub ws_url: String,
    pub room_id: String,
    pub participant_id: String,
    pub credentials: Option<String>,
    pub display_name: Option<String>,
    pub send_audio: bool,
    pub send_video: bool,
    pub send_sharing: bool,
    pub app_version: String,
    /// Best-effort transport auth.
    pub oauth_token: Option<String>,
    /// Best-effort transport auth.
    pub cookies: Option<String>,
    pub max_attempts: u32,
}

impl GoloomParams {
    /// Defaults: production endpoint, audio and video on, sharing off,
    /// no credentials, the configured reconnect budget.
    pub fn new(room_id: &str, participant_id: &str, app_version: &str) -> (p: Self)
        ensures
            p.ws_url@ == config::GOLOOM_WS_URL@,
            p.room_id@ == room_id@,
            p.participant_id@ == participant_id@,
            p.credentials is None,
            p.display_name is None,
            p.send_audio,
            p.send_video,
            !p.send_sharing,
            p.app_version@ == app_version@,
            p.oauth_token is None,
            p.cookies is None,
            p.max_attempts == config::WS_MAX_RECONNECT_ATTEMPTS,
    {
        GoloomParams {
            ws_url: config::GOLOOM_WS_URL.to_owned(),
            room_id: room_id.to_owned(),
            participant_id: participant_id.to_owned(),
            credentials: None,
            display_name: None,
            send_audio: true,
            send_video: true,
            send_sharing: false,
            app_version: app_version.to_owned(),
            oauth_token: None,
            cookies: None,
            max_attempts: config::WS_MAX_RECONNECT_ATTEMPTS,
        }
    }
}

// ── close-code policy ───────────────────────────────────────────────

/// Close codes after which the session is over for good: the terminal
/// status codes, `1000` (normal closure: the call ended) and the
/// denied / hello-must-be-first / capabilities / validation codes.
pub open spec fn retry_after_close(code: int) -> bool {
    !(goloom::terminal_code(code) || code == 1000 || code == 4000 || code == 4002 || code == 4003
        || code == 4007)
}

/// WS close code → whether to reconnect.
pub fn should_retry_close(code: u16) -> (b: bool)
    ensures
        b == retry_after_close(code as int),
{
    if StatusCode::is_terminal(code as i32) {
        return false;
    }
    !(code == 1000 || code == 4000 || code == 4002 || code == 4003 || code == 4007)
}

/// Close code and reason of a close frame; a missing frame is an
/// abnormal closure (`1006`).
pub fn close_code_reason(frame: Option<(u16, String)>) -> (r: (u16, String))
    ensures
        match frame {
            Some(f) => r == f,
            None => r.0 == 1006 && r.1@ == "no close frame (transport drop)"@,
        },
{
    match frame {
        Some(f) => f,
        None => (1006, "no close frame (transport drop)".to_owned()),
    }
}

/// `v`, or `dflt` when `v` is zero.
pub fn nonzero_or(v: u64, dflt: u64) -> (r: u64)
    ensures
        r == if v == 0 { dflt } else { v },
{
    if v == 0 {
        dflt
    } else {
        v
    }
}

pub open spec fn ice_matches(i: IceServerInfo, s: RtcIceServer) -> bool {
    &&& i.urls@ == s.urls@
    &&& i.username@ == s.username@
    &&& i.credential@ == s.credential@
}

/// `infos` lists the servers of `servers`, in order.
pub open spec fn ice_of(infos: Seq<IceServerInfo>, servers: Seq<RtcIceServer>) -> bool {
    &&& infos.len() == servers.len()
    &&& forall|k: int| 0 <= k < infos.len() ==> ice_matches(#[trigger] infos[k], servers[k])
}

fn clone_strings(v: &Vec<String>) -> (r: Vec<String>)
    ensures
        r@ == v@,
{
    let mut r: Vec<String> = Vec::new();
    let mut i: usize = 0;
    while i < v.len()
        invariant
            i <= v.len(),
            r@ == v@.take(i as int),
        decreases v.len() - i,
    {
        r.push(v[i].clone());
        assert(v@.take(i + 1) =~= v@.take(i as int).push(v@[i as int]));
        i = i + 1;
    }
    assert(v@.take(i as int) =~= v@);
    r
}

/// ICE servers of a `ServerHello` in the form the media engines take.
pub fn map_ice(rtc: &RtcConfiguration) -> (v: Vec<IceServerInfo>)
    ensures
        ice_of(v@, rtc.ice_servers@),
{
    let mut v: Vec<IceServerInfo> = Vec::new();
    let mut i: usize = 0;
    while i < rtc.ice_servers.len()
        invariant
            i <= rtc.ice_servers.len(),
            ice_of(v@, rtc.ice_servers@.take(i as int)),
        decreases rtc.ice_servers.len() - i,
    {
        let s = &rtc.ice_servers[i];
        v.push(
            IceServerInfo {
                urls: clone_strings(&s.urls),
                username: s.username.clone(),
                credential: s.credential.clone(),
            },
        );
        i = i + 1;
    }
    assert(rtc.ice_servers@.take(i as int) =~= rtc.ice_servers@);
    v
}

// ── inbound dispatch ────────────────────────────────────────────────

/// Heartbeat settings and auth secret learned from a `ServerHello`.
#[derive(Clone, Debug, PartialEq)]
pub struct Handshake {
    /// Secret for reconnecting; `None` when the server sent an empty one.
    pub session_secret: Option<String>,
    pub ping_interval_secs: u64,
    pub ack_timeout_secs: u64,
}

/// What one inbound message produces: events, an optional wire reply and,
/// for a `ServerHello`, the handshake that completes the session setup.
#[derive(Clone, Debug)]
pub struct Dispatched {
    pub reply: Option<GoloomMessage>,
    pub events: Vec<GoloomEvent>,
    pub handshake: Option<Handshake>,
}

/// Ping period and ack deadline from a `ServerHello` (zero means default).
pub open spec fn heartbeat_of(h: goloom::ServerHello) -> (u64, u64) {
    match h.ping_pong_configuration {
        Some(c) => (
            if c.ping_interval == 0 { DEFAULT_PING_INTERVAL_SECS } else { c.ping_interval as u64 },
            if c.ack_timeout == 0 { DEFAULT_ACK_TIMEOUT_SECS } else { c.ack_timeout as u64 },
        ),
        None => (DEFAULT_PING_INTERVAL_SECS, DEFAULT_ACK_TIMEOUT_SECS),
    }
}

pub open spec fn handshake_of(h: goloom::ServerHello) -> Handshake {
    Handshake {
        session_secret: if h.session_secret@.len() == 0 {
            None
        } else {
            Some(h.session_secret)
        },
        ping_interval_secs: heartbeat_of(h).0,
        ack_timeout_secs: heartbeat_of(h).1,
    }
}

pub open spec fn servers_of(h: goloom::ServerHello) -> Seq<RtcIceServer> {
    match h.rtc_configuration {
        Some(rtc) => rtc.ice_servers@,
        None => Seq::empty(),
    }
}

/// Exactly one event and nothing else.
pub open spec fn just(out: Dispatched, ev: GoloomEvent) -> bool {
    out.reply is None && out.handshake is None && out.events@ == seq![ev]
}

pub open spec fn quiet(out: Dispatched) -> bool {
    out.reply is None && out.handshake is None && out.events@.len() == 0
}

/// How a session handles one inbound message.
/// - `ServerHello`: the session becomes `Connected`, reporting secret, ICE
///   servers, negotiated capabilities and heartbeat periods;
/// - `Ping`: answered with an OK ack of the same uid, surfaced as an ack;
/// - `Ack`: OK acks (and acks without status) are reported as acks, others
///   as server errors;
/// - roster, slots, SDP, ICE, quality, VAD, notification and codec messages
///   become the matching event;
/// - client-originated kinds and messages without a kind are ignored.
pub open spec fn dispatched_as(msg: GoloomMessage, out: Dispatched) -> bool {
    match msg.kind {
        None => quiet(out),
        Some(kind) => match kind {
            MessageKind::ServerHello(h) => {
                &&& out.reply is None
                &&& out.handshake == Some(handshake_of(h))
                &&& out.events@.len() == 2
                &&& out.events@[0] == GoloomEvent::StateChanged(GoloomState::Connected)
                &&& out.events@[1] matches GoloomEvent::Connected {
                    session_secret,
                    ice_servers,
                    capabilities,
                    ping_interval_secs,
                    ack_timeout_secs,
                } && session_secret == h.session_secret && ice_of(ice_servers@, servers_of(h))
                    && capabilities == h.capabilities_answer && ping_interval_secs
                    == heartbeat_of(h).0 && ack_timeout_secs == heartbeat_of(h).1
            },
            MessageKind::Ping(_) => {
                &&& out.handshake is None
                &&& out.events@ == seq![
                    GoloomEvent::AckReceived {
                        uid: msg.uid,
                        code: StatusCode::Success.value(),
                        description: None,
                    },
                ]
                &&& out.reply matches Some(r) && goloom::is_ok_ack(r, msg.uid@)
            },
            MessageKind::Ack(a) => {
                let (code, desc) = match a.status {
                    Some(s) => (s.code, s.description),
                    None => (StatusCode::Success.value(), None),
                };
                if code == StatusCode::Success.value() {
                    just(out, GoloomEvent::AckReceived { uid: msg.uid, code, description: desc })
                } else {
                    &&& out.reply is None
                    &&& out.handshake is None
                    &&& out.events@.len() == 1
                    &&& out.events@[0] matches GoloomEvent::ServerError { uid, code: c, description }
                        && uid == msg.uid && c == code && description@ == match desc {
                        Some(d) => d@,
                        None => Seq::<char>::empty(),
                    }
                }
            },
            MessageKind::UpdateDescription(u) => just(out, GoloomEvent::RosterUpsert(u.description)),
            MessageKind::UpsertDescription(u) => just(out, GoloomEvent::RosterUpsert(u.description)),
            MessageKind::RemoveDescription(r) => just(out, GoloomEvent::RosterRemove(r.description_id)),
            MessageKind::SlotsConfig(s) => just(out, GoloomEvent::Slots(s)),
            MessageKind::SetSlotsOffset(o) => just(out, GoloomEvent::SlotsOffset(o.offset)),
            MessageKind::SlotsMeta(m) => just(out, GoloomEvent::SlotsMeta(m.max_offset)),
            MessageKind::SetSlots(s) => just(out, GoloomEvent::SlotsRules(s)),
            MessageKind::UpdateMe(m) => just(out, GoloomEvent::MeUpdated(m)),
            MessageKind::RequestPinnedParticipants(r) => just(
                out,
                GoloomEvent::PinnedRequested(r.participants_id),
            ),
            MessageKind::SubscriberSdpOffer(o) => just(
                out,
                GoloomEvent::SubscriberOffer { pc_seq: o.pc_seq, sdp: o.sdp },
            ),
            MessageKind::PublisherSdpAnswer(a) => just(
                out,
                GoloomEvent::PublisherAnswer { pc_seq: a.pc_seq, sdp: a.sdp },
            ),
            MessageKind::IceCandidate(c) => just(out, GoloomEvent::IceCandidate(c)),
            MessageKind::UpsertQuality(q) => just(
                out,
                GoloomEvent::Quality {
                    participants: q.participants_quality_report,
                    self_score: goloom::NetworkQualityScore::Unspecified.value(),
                },
            ),
            MessageKind::SelfQuality(q) => {
                &&& out.reply is None
                &&& out.handshake is None
                &&& out.events@.len() == 1
                &&& out.events@[0] matches GoloomEvent::Quality { participants, self_score }
                    && participants@.len() == 0 && self_score == q.network_score
            },
            MessageKind::VadActivity(v) => just(out, GoloomEvent::Vad(v.active)),
            MessageKind::Notification(n) => just(
                out,
                GoloomEvent::ServerNotification { id: n.notification_id, payload: n.payload },
            ),
            MessageKind::SetActiveCodecs(c) => just(
                out,
                GoloomEvent::ActiveCodecs { video: c.video_codec, audio: c.audio_codec },
            ),
            _ => quiet(out),
        },
    }
}

fn one_event(ev: GoloomEvent) -> (out: Dispatched)
    ensures
        just(out, ev),
{
    let mut events = Vec::new();
    events.push(ev);
    assert(events@ =~= seq![ev]);
    Dispatched { reply: None, events, handshake: None }
}

fn no_event() -> (out: Dispatched)
    ensures
        quiet(out),
{
    Dispatched { reply: None, events: Vec::new(), handshake: None }
}

/// Maps one inbound message to events and an optional wire reply.
/// Never ends the session itself: server-driven moves arrive as a close
/// frame, which the reconnect policy handles.
pub fn dispatch(msg: GoloomMessage) -> (out: Dispatched)
    ensures
        dispatched_as(msg, out),
{
    let uid = msg.uid;
    let kind = match msg.kind {
        Some(k) => k,
        None => return no_event(),
    };
    match kind {
        MessageKind::ServerHello(h) => {
            let ice = match &h.rtc_configuration {
                Some(rtc) => map_ice(rtc),
                None => Vec::new(),
            };
            let (ping_secs, ack_secs) = match &h.ping_pong_configuration {
                Some(c) => (
                    nonzero_or(c.ping_interval as u64, DEFAULT_PING_INTERVAL_SECS),
                    nonzero_or(c.ack_timeout as u64, DEFAULT_ACK_TIMEOUT_SECS),
                ),
                None => (DEFAULT_PING_INTERVAL_SECS, DEFAULT_ACK_TIMEOUT_SECS),
            };
            let ghost hello = h;
            let secret_text = h.session_secret;
            let capabilities = h.capabilities_answer;
            let secret = if secret_text.as_str().is_empty() {
                None
            } else {
                Some(secret_text.clone())
            };
            let mut events = Vec::new();
            events.push(GoloomEvent::StateChanged(GoloomState::Connected));
            events.push(
                GoloomEvent::Connected {
                    session_secret: secret_text,
                    ice_servers: ice,
                    capabilities,
                    ping_interval_secs: ping_secs,
                    ack_timeout_secs: ack_secs,
                },
            );
            let handshake = Handshake {
                session_secret: secret,
                ping_interval_secs: ping_secs,
                ack_timeout_secs: ack_secs,
            };
            assert(handshake == handshake_of(hello));
            Dispatched { reply: None, events, handshake: Some(handshake) }
        },
        MessageKind::Ping(_) => {
            let reply = goloom::ack_ok(uid.as_str());
            let mut events = Vec::new();
            events.push(
                GoloomEvent::AckReceived {
                    uid,
                    code: StatusCode::Success.to_i32(),
                    description: None,
                },
            );
            assert(events@ =~= seq![
                GoloomEvent::AckReceived {
                    uid: msg.uid,
                    code: StatusCode::Success.value(),
                    description: None,
                },
            ]);
            Dispatched { reply: Some(reply), events, handshake: None }
        },
        MessageKind::Ack(a) => {
            let (code, desc) = match a.status {
                Some(s) => (s.code, s.description),
                None => (StatusCode::Success.to_i32(), None),
            };
            if code == StatusCode::Success.to_i32() {
                one_event(GoloomEvent::AckReceived { uid, code, description: desc })
            } else {
                let description = match desc {
                    Some(d) => d,
                    None => String::new(),
                };
                one_event(GoloomEvent::ServerError { uid, code, description })
            }
        },
        MessageKind::UpdateDescription(u) => one_event(GoloomEvent::RosterUpsert(u.description)),
        MessageKind::UpsertDescription(u) => one_event(GoloomEvent::RosterUpsert(u.description)),
        MessageKind::RemoveDescription(r) => one_event(GoloomEvent::RosterRemove(r.description_id)),
        MessageKind::SlotsConfig(s) => one_event(GoloomEvent::Slots(s)),
        MessageKind::SetSlotsOffset(o) => one_event(GoloomEvent::SlotsOffset(o.offset)),
        MessageKind::SlotsMeta(m) => one_event(GoloomEvent::SlotsMeta(m.max_offset)),
        MessageKind::SetSlots(s) => one_event(GoloomEvent::SlotsRules(s)),
        MessageKind::UpdateMe(m) => one_event(GoloomEvent::MeUpdated(m)),
        MessageKind::RequestPinnedParticipants(r) => one_event(
            GoloomEvent::PinnedRequested(r.participants_id),
        ),
        MessageKind::SubscriberSdpOffer(o) => one_event(
            GoloomEvent::SubscriberOffer { pc_seq: o.pc_seq, sdp: o.sdp },
        ),
        MessageKind::PublisherSdpAnswer(a) => one_event(
            GoloomEvent::PublisherAnswer { pc_seq: a.pc_seq, sdp: a.sdp },
        ),
        MessageKind::IceCandidate(c) => one_event(GoloomEvent::IceCandidate(c)),
        MessageKind::UpsertQuality(q) => one_event(
            GoloomEvent::Quality {
                participants: q.participants_quality_report,
                self_score: goloom::NetworkQualityScore::Unspecified.to_i32(),
            },
        ),
        MessageKind::SelfQuality(q) => one_event(
            GoloomEvent::Quality { participants: Vec::new(), self_score: q.network_score },
        ),
        MessageKind::VadActivity(v) => one_event(GoloomEvent::Vad(v.active)),
        MessageKind::ClientSideVad(_) => no_event(),
        MessageKind::Notification(n) => one_event(
            GoloomEvent::ServerNotification { id: n.notification_id, payload: n.payload },
        ),
        MessageKind::SetActiveCodecs(c) => one_event(
            GoloomEvent::ActiveCodecs { video: c.video_codec, audio: c.audio_codec },
        ),
        MessageKind::PublisherSdpOffer(_) => no_event(),
        MessageKind::SubscriberSdpAnswer(_) => no_event(),
        MessageKind::RequestSubscription(_) => no_event(),
        MessageKind::UpdatePublisherTrack(_) => no_event(),
        MessageKind::Hello(_) => no_event(),
        MessageKind::SfuHello(_) => no_event(),
        MessageKind::ClientError(_) => no_event(),
    }
}

/// An inbound ack answers our outstanding heartbeat ping when it carries
/// the ping's uid; such acks are consumed without dispatch.
pub fn answers_pending_ping(msg: &GoloomMessage, pending: &Option<String>) -> (b: bool)
    ensures
        b == (msg.kind matches Some(MessageKind::Ack(_)) && pending matches Some(u) && u@
            == msg.uid@),
{
    match &msg.kind {
        Some(MessageKind::Ack(_)) => match pending {
            Some(u) => *u == msg.uid,
            None => false,
        },
        _ => false,
    }
}


// ── session timers ──────────────────────────────────────────────────

/// Seconds a session may take from connecting to the server's hello.
pub const HANDSHAKE_TIMEOUT_SECS: u64 = 15;

/// The heartbeat and handshake clocks of one session. Times are
/// milliseconds of a monotonic clock: when the session connected, and
/// when the ping that awaits its ack was sent (with that ping's uid).
#[derive(Clone, Debug, PartialEq)]
pub struct SessionTimers {
    pub handshook: bool,
    pub ping_interval_secs: u64,
    pub ack_timeout_secs: u64,
    pub pending_ping: Option<(String, u64)>,
    pub connected_ms: u64,
}

/// Milliseconds from `since` to `now`; none when `now` is earlier.
pub open spec fn elapsed_ms(now: u64, since: u64) -> int {
    if now >= since {
        now - since
    } else {
        0
    }
}

/// `secs` whole seconds have gone by between `since` and `now`.
pub open spec fn timed_out(now: u64, since: u64, secs: u64) -> bool {
    elapsed_ms(now, since) >= secs * 1000
}

fn is_timed_out(now: u64, since: u64, secs: u64) -> (b: bool)
    ensures
        b == timed_out(now, since, secs),
{
    let e: u64 = if now >= since {
        now - since
    } else {
        0
    };
    assert(e / 1000 >= secs <==> e >= secs * 1000) by (nonlinear_arith);
    e / 1000 >= secs
}

/// The uid of the ping awaiting its ack.
pub open spec fn pending_uid(p: Option<(String, u64)>) -> Option<String> {
    match p {
        Some((u, _)) => Some(u),
        None => None,
    }
}

impl SessionTimers {
    /// A session that connected at `now_ms`: no handshake yet, default
    /// heartbeat, no ping awaited.
    pub fn new(now_ms: u64) -> (t: Self)
        ensures
            !t.handshook,
            t.ping_interval_secs == DEFAULT_PING_INTERVAL_SECS,
            t.ack_timeout_secs == DEFAULT_ACK_TIMEOUT_SECS,
            t.pending_ping is None,
            t.connected_ms == now_ms,
    {
        SessionTimers {
            handshook: false,
            ping_interval_secs: DEFAULT_PING_INTERVAL_SECS,
            ack_timeout_secs: DEFAULT_ACK_TIMEOUT_SECS,
            pending_ping: None,
            connected_ms: now_ms,
        }
    }

    /// The handshake finished with the server's heartbeat settings.
    pub fn on_handshake(&mut self, h: &Handshake)
        ensures
            *final(self) == (SessionTimers {
                handshook: true,
                ping_interval_secs: h.ping_interval_secs,
                ack_timeout_secs: h.ack_timeout_secs,
                ..*old(self)
            }),
    {
        self.handshook = true;
        self.ping_interval_secs = h.ping_interval_secs;
        self.ack_timeout_secs = h.ack_timeout_secs;
    }

    /// The ping timer fired at `now_ms`. Before the handshake nothing is
    /// sent; after it, a fresh ping is returned to send, and it is the ping
    /// awaited from now on.
    pub fn on_ping_tick(&mut self, now_ms: u64) -> (r: Option<GoloomMessage>)
        ensures
            !old(self).handshook ==> r is None && *final(self) == *old(self),
            old(self).handshook ==> (r matches Some(m) && m.kind == Some(MessageKind::Ping(goloom::ProtoEmpty {  }))
                && goloom::is_uuid_v4_text(m.uid@) && *final(self) == (SessionTimers {
                pending_ping: Some((m.uid, now_ms)),
                ..*old(self)
            })),
    {
        if !self.handshook {
            return None;
        }
        let m = goloom::ping(None);
        self.pending_ping = Some((m.uid.clone(), now_ms));
        Some(m)
    }

    /// An inbound message: an ack of the awaited ping is consumed (`true`)
    /// and the ping no longer awaited; anything else is left to dispatch.
    pub fn on_frame(&mut self, msg: &GoloomMessage) -> (consumed: bool)
        ensures
            consumed == (msg.kind matches Some(MessageKind::Ack(_)) && pending_uid(old(self).pending_ping) matches Some(
                u,
            ) && u@ == msg.uid@),
            consumed ==> *final(self) == (SessionTimers { pending_ping: None, ..*old(self) }),
            !consumed ==> *final(self) == *old(self),
    {
        let uid = match &self.pending_ping {
            Some((u, _)) => Some(u.clone()),
            None => None,
        };
        if answers_pending_ping(msg, &uid) {
            self.pending_ping = None;
            true
        } else {
            false
        }
    }

    /// What ends the session at `now_ms`, if anything: the awaited ping
    /// left without an ack for the ack timeout (it is then dropped); else,
    /// before the handshake, the handshake timeout gone by since connecting.
    pub fn expired(&mut self, now_ms: u64) -> (end: Option<SessionEnd>)
        ensures
            match old(self).pending_ping {
                Some((_, sent)) if timed_out(now_ms, sent, old(self).ack_timeout_secs) => end == Some(
                    SessionEnd::PingTimeout,
                ) && *final(self) == (SessionTimers { pending_ping: None, ..*old(self) }),
                _ => *final(self) == *old(self) && end == if !old(self).handshook && timed_out(
                    now_ms,
                    old(self).connected_ms,
                    HANDSHAKE_TIMEOUT_SECS,
                ) {
                    Some(SessionEnd::HandshakeTimeout)
                } else {
                    None
                },
            },
    {
        let ping_late = match &self.pending_ping {
            Some((_, sent)) => is_timed_out(now_ms, *sent, self.ack_timeout_secs),
            None => false,
        };
        if ping_late {
            self.pending_ping = None;
            return Some(SessionEnd::PingTimeout);
        }
        if !self.handshook && is_timed_out(now_ms, self.connected_ms, HANDSHAKE_TIMEOUT_SECS) {
            return Some(SessionEnd::HandshakeTimeout);
        }
        None
    }
}

// ── session hello and transport auth ────────────────────────────────

/// `Authorization` value for an OAuth token: the token itself when it
/// already starts with `OAuth `, otherwise `OAuth ` followed by it.
pub open spec fn oauth_authorization(token: Seq<char>) -> Seq<char> {
    if token.len() >= 6 && token.take(6) == "OAuth "@ {
        token
    } else {
        "OAuth "@ + token
    }
}

pub fn authorization_value(token: &str) -> (r: String)
    ensures
        r@ == oauth_authorization(token@),
{
    proof {
        reveal_strlit("OAuth ");
    }
    if starts_with(token, "OAuth ") {
        token.to_owned()
    } else {
        concat2("OAuth ", token)
    }
}

/// The `Hello` that opens each session: built from the parameters, with
/// the session secret (when one is known) in place of the credentials and
/// the previous close code, if any.
pub fn session_hello(
    params: &GoloomParams,
    secret: Option<String>,
    prev_close_code: Option<u16>,
    hw_concurrency: i32,
) -> (m: GoloomMessage)
    ensures
        goloom::is_uuid_v4_text(m.uid@),
        m.kind matches Some(MessageKind::Hello(h)) && goloom::is_hello(
            goloom::Hello {
                auth: match params.credentials {
                    Some(c) => Some(HelloAuth::Credentials(c)),
                    None => None,
                },
                signaling_close_code: None,
                ..h
            },
            params.room_id@,
            params.participant_id@,
            params.credentials,
            match params.display_name {
                Some(n) => Some(n@),
                None => None,
            },
            params.send_audio,
            params.send_video,
            params.send_sharing,
            params.app_version@,
            hw_concurrency,
        ) && h.auth == match secret {
            Some(s) => Some(HelloAuth::SessionSecret(s)),
            None => match params.credentials {
                Some(c) => Some(HelloAuth::Credentials(c)),
                None => None,
            },
        } && h.signaling_close_code == match prev_close_code {
            Some(c) => Some(c as i32),
            None => None,
        },
{
    let name = match &params.display_name {
        Some(n) => Some(n.as_str()),
        None => None,
    };
    let hello = goloom::hello_message(
        params.room_id.as_str(),
        params.participant_id.as_str(),
        params.credentials.clone(),
        name,
        params.send_audio,
        params.send_video,
        params.send_sharing,
        params.app_version.as_str(),
        hw_concurrency,
    );
    let uid = hello.uid;
    let kind = match hello.kind {
        Some(MessageKind::Hello(h)) => {
            let auth = match secret {
                Some(s) => Some(HelloAuth::SessionSecret(s)),
                None => h.auth,
            };
            let code = match prev_close_code {
                Some(c) => Some(c as i32),
                None => None,
            };
            Some(MessageKind::Hello(goloom::Hello { auth, signaling_close_code: code, ..h }))
        },
        other => other,
    };
    GoloomMessage { uid, kind }
}

// ── reconnect policy ────────────────────────────────────────────────

/// How a session ended.
#[derive(Clone, Debug, PartialEq)]
pub enum SessionEnd {
    ClosedByServer { code: u16, reason: String },
    Transport(String),
    HandshakeTimeout,
    PingTimeout,
    Shutdown,
}

pub open spec fn two_pow(n: nat) -> nat
    decreases n,
{
    if n == 0 {
        1
    } else {
        2 * two_pow((n - 1) as nat)
    }
}

/// Seconds to wait before the next attempt: `2^attempts`, capped at 32 by
/// the exponent and at 30 seconds overall.
pub open spec fn backoff(attempts: nat) -> nat {
    let p = two_pow(if attempts < 5 { attempts } else { 5 });
    if p < 30 {
        p
    } else {
        30
    }
}

/// The wait before the next attempt.
pub fn backoff_secs(attempts: u32) -> (w: u64)
    ensures
        w == backoff(attempts as nat),
{
    let e: u32 = if attempts < 5 { attempts } else { 5 };
    let mut p: u64 = 1;
    let mut i: u32 = 0;
    while i < e
        invariant
            i <= e <= 5,
            p == two_pow(i as nat),
            p <= 32,
        decreases e - i,
    {
        assert(two_pow((i + 1) as nat) == 2 * two_pow(i as nat));
        assert(i < 5);
        assert(p <= 16) by {
            reveal_with_fuel(two_pow, 6);
            if i == 0 {} else if i == 1 {} else if i == 2 {} else if i == 3 {} else {}
        }
        p = p * 2;
        i = i + 1;
    }
    if p < 30 {
        p
    } else {
        30
    }
}

/// Attempt counter and last close of a signaling connection; decides
/// whether another session starts and what the session's events are.
#[derive(Clone, Debug)]
pub struct Reconnector {
    /// Sessions ended so far with a retry.
    pub attempts: u32,
    /// Close code and reason of the last server close, if the last session
    /// ended that way.
    pub last_close: Option<(u16, String)>,
    pub max_attempts: u32,
}

/// Decision taken before a session.
#[derive(Clone, Debug)]
pub enum SessionStart {
    /// No further session; the events close the connection.
    Stop { events: Vec<GoloomEvent> },
    /// Start a session, reporting `events` first and sending the previous
    /// close code in its `Hello`.
    Run { events: Vec<GoloomEvent>, prev_close_code: Option<u16> },
}

/// Decision taken after a session.
#[derive(Clone, Debug)]
pub struct SessionOutcome {
    pub events: Vec<GoloomEvent>,
    /// `true`: the connection is closed for good.
    pub stop: bool,
    /// Seconds to wait before the next attempt (when not stopping).
    pub backoff_secs: u64,
}

pub open spec fn is_closed_event(ev: GoloomEvent, reason: Seq<char>) -> bool {
    ev matches GoloomEvent::StateChanged(GoloomState::Closed { reason: r }) && r@ == reason
}

pub open spec fn is_disconnected_event(ev: GoloomEvent, will_retry: bool, reason: Seq<char>) -> bool {
    ev matches GoloomEvent::Disconnected { will_retry: w, reason: r } && w == will_retry && r@
        == reason
}

/// The closing pair: `Disconnected { will_retry: false }` then `Closed`,
/// both with `reason`.
pub open spec fn closes_with(events: Seq<GoloomEvent>, reason: Seq<char>) -> bool {
    events.len() == 2 && is_disconnected_event(events[0], false, reason) && is_closed_event(
        events[1],
        reason,
    )
}

pub open spec fn giving_up_text(attempts: nat) -> Seq<char> {
    "giving up after "@ + decimal(attempts) + " attempts"@
}

pub open spec fn server_closed_session_text(code: nat, reason: Seq<char>) -> Seq<char> {
    "server closed session (code "@ + decimal(code) + "): "@ + reason
}

pub open spec fn server_closed_text(code: nat, reason: Seq<char>) -> Seq<char> {
    "server closed ("@ + decimal(code) + "): "@ + reason
}

fn closed_event(reason: String) -> (ev: GoloomEvent)
    ensures
        is_closed_event(ev, reason@),
{
    GoloomEvent::StateChanged(GoloomState::Closed { reason })
}

fn closing_events(reason: String) -> (events: Vec<GoloomEvent>)
    ensures
        closes_with(events@, reason@),
{
    let mut events = Vec::new();
    events.push(GoloomEvent::Disconnected { will_retry: false, reason: reason.clone() });
    events.push(closed_event(reason));
    events
}

fn one(ev: GoloomEvent) -> (v: Vec<GoloomEvent>)
    ensures
        v@ == seq![ev],
{
    let mut v = Vec::new();
    v.push(ev);
    assert(v@ =~= seq![ev]);
    v
}

/// Events and bookkeeping after a session ended with `end`.
pub open spec fn finished_as(before: Reconnector, after: Reconnector, end: SessionEnd, o: SessionOutcome) -> bool {
    match end {
        SessionEnd::Shutdown => o.stop && o.events@.len() == 1 && is_closed_event(
            o.events@[0],
            "shutdown"@,
        ) && after.last_close == before.last_close,
        SessionEnd::ClosedByServer { code, reason } => {
            &&& after.last_close == Some((code, reason))
            &&& if !retry_after_close(code as int) {
                o.stop && closes_with(
                    o.events@,
                    server_closed_session_text(code as nat, reason@),
                )
            } else if goloom::reconnect_expected(code as int) {
                &&& !o.stop
                &&& o.events@.len() == 2
                &&& o.events@[0] matches GoloomEvent::ReconnectRequested { code: c, reason: r }
                    && c == code as i32 && r@ == reason@
                &&& is_disconnected_event(
                    o.events@[1],
                    true,
                    server_closed_text(code as nat, reason@),
                )
            } else {
                &&& !o.stop
                &&& o.events@.len() == 1
                &&& is_disconnected_event(
                    o.events@[0],
                    true,
                    server_closed_text(code as nat, reason@),
                )
            }
        },
        SessionEnd::Transport(reason) => !o.stop && after.last_close is None
            && o.events@.len() == 1 && is_disconnected_event(o.events@[0], true, reason@),
        SessionEnd::HandshakeTimeout => !o.stop && after.last_close is None
            && o.events@.len() == 1 && is_disconnected_event(
            o.events@[0],
            true,
            "handshake timeout (no ServerHello)"@,
        ),
        SessionEnd::PingTimeout => !o.stop && after.last_close is None
            && o.events@.len() == 1 && is_disconnected_event(
            o.events@[0],
            true,
            "ping ack timeout"@,
        ),
    }
}

impl Reconnector {
    pub fn new(max_attempts: u32) -> (r: Self)
        ensures
            r.attempts == 0,
            r.last_close is None,
            r.max_attempts == max_attempts,
    {
        Reconnector { attempts: 0, last_close: None, max_attempts }
    }

    /// Before each session: stop on shutdown or when the attempts are used
    /// up, otherwise report `Connecting` (first session) or
    /// `Reconnecting(attempts)` and start.
    pub fn begin(&self, shutdown: bool) -> (s: SessionStart)
        ensures
            shutdown ==> (s matches SessionStart::Stop { events } && events@.len() == 1
                && is_closed_event(events@[0], "shutdown"@)),
            !shutdown && self.attempts >= self.max_attempts ==> (s matches SessionStart::Stop {
                events,
            } && closes_with(events@, giving_up_text(self.attempts as nat))),
            !shutdown && self.attempts < self.max_attempts ==> (s matches SessionStart::Run {
                events,
                prev_close_code,
            } && events@ == seq![
                GoloomEvent::StateChanged(
                    if self.attempts == 0 {
                        GoloomState::Connecting
                    } else {
                        GoloomState::Reconnecting(self.attempts)
                    },
                ),
            ] && prev_close_code == match self.last_close {
                Some(c) => Some(c.0),
                None => None,
            }),
    {
        if shutdown {
            return SessionStart::Stop { events: one(closed_event("shutdown".to_owned())) };
        }
        if self.attempts >= self.max_attempts {
            let mut reason = "giving up after ".to_owned();
            push_decimal(&mut reason, self.attempts as u64);
            reason.append(" attempts");
            return SessionStart::Stop { events: closing_events(reason) };
        }
        let state = if self.attempts == 0 {
            GoloomState::Connecting
        } else {
            GoloomState::Reconnecting(self.attempts)
        };
        let prev = match &self.last_close {
            Some(c) => Some(c.0),
            None => None,
        };
        SessionStart::Run { events: one(GoloomEvent::StateChanged(state)), prev_close_code: prev }
    }

    /// After a session: a server close with a terminal code, or a shutdown,
    /// ends the connection; anything else counts one attempt, reports a
    /// retrying `Disconnected` (preceded by `ReconnectRequested` when the
    /// code asks for a reconnect) and waits `backoff(attempts)`.
    pub fn finish(&mut self, end: SessionEnd) -> (o: SessionOutcome)
        requires
            old(self).attempts < old(self).max_attempts,
        ensures
            final(self).max_attempts == old(self).max_attempts,
            !o.stop ==> final(self).attempts == old(self).attempts + 1 && o.backoff_secs == backoff(
                final(self).attempts as nat,
            ),
            o.stop ==> final(self).attempts == old(self).attempts,
            finished_as(*old(self), *final(self), end, o),
    {
        match end {
            SessionEnd::Shutdown => {
                SessionOutcome {
                    events: one(closed_event("shutdown".to_owned())),
                    stop: true,
                    backoff_secs: 0,
                }
            },
            SessionEnd::ClosedByServer { code, reason } => {
                self.last_close = Some((code, reason.clone()));
                if !should_retry_close(code) {
                    let mut msg = "server closed session (code ".to_owned();
                    push_decimal(&mut msg, code as u64);
                    msg.append("): ");
                    msg.append(reason.as_str());
                    return SessionOutcome { events: closing_events(msg), stop: true, backoff_secs: 0 };
                }
                let mut events = Vec::new();
                if StatusCode::expects_reconnect(code as i32) {
                    events.push(
                        GoloomEvent::ReconnectRequested { code: code as i32, reason: reason.clone() },
                    );
                }
                self.attempts = self.attempts + 1;
                let mut msg = "server closed (".to_owned();
                push_decimal(&mut msg, code as u64);
                msg.append("): ");
                msg.append(reason.as_str());
                events.push(GoloomEvent::Disconnected { will_retry: true, reason: msg });
                SessionOutcome { events, stop: false, backoff_secs: backoff_secs(self.attempts) }
            },
            SessionEnd::Transport(reason) => {
                self.last_close = None;
                self.attempts = self.attempts + 1;
                SessionOutcome {
                    events: one(GoloomEvent::Disconnected { will_retry: true, reason }),
                    stop: false,
                    backoff_secs: backoff_secs(self.attempts),
                }
            },
            SessionEnd::HandshakeTimeout => {
                self.last_close = None;
                self.attempts = self.attempts + 1;
                SessionOutcome {
                    events: one(
                        GoloomEvent::Disconnected {
                            will_retry: true,
                            reason: "handshake timeout (no ServerHello)".to_owned(),
                        },
                    ),
                    stop: false,
                    backoff_secs: backoff_secs(self.attempts),
                }
            },
            SessionEnd::PingTimeout => {
                self.last_close = None;
                self.attempts = self.attempts + 1;
                SessionOutcome {
                    events: one(
                        GoloomEvent::Disconnected {
                            will_retry: true,
                            reason: "ping ack timeout".to_owned(),
                        },
                    ),
                    stop: false,
                    backoff_secs: backoff_secs(self.attempts),
                }
            },
        }
    }
}

/// The wait between attempts never shrinks as attempts accumulate, is at
/// least one second and never exceeds thirty seconds.
pub proof fn backoff_is_monotone_and_capped(a: nat, b: nat)
    requires
        a <= b,
    ensures
        1 <= backoff(a) <= backoff(b) <= 30,
{
    reveal_with_fuel(two_pow, 6);
    assert(two_pow(0) == 1);
    assert(two_pow(5) == 32);
}

} // verus!
