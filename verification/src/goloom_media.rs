//! Media-engine vocabulary of a call. The protocol splits a call into two
//! directions with separate SDP exchanges, so a call has two engines: the
//! publisher only ever offers, the subscriber only ever answers.

use vstd::prelude::*;

verus! {

/// Which half of the call an engine handles.
#[derive(Clone, Copy, Debug, PartialEq, Eq, Hash)]
pub enum EngineRole {
    /// Local capture → offer → `PublisherSdpOffer`; applies remote answers.
    Publisher,
    /// Applies remote `SubscriberSdpOffer`s → answers; never offers.
    Subscriber,
}

/// Where the local media of a publishing engine comes from.
#[derive(Clone, Copy, Debug, PartialEq, Eq, Hash)]
pub enum EngineSource {
    /// The system's default microphone and camera.
    Auto,
    /// Test signals: a sine tone and a colour-bar picture.
    Test,
}

pub open spec fn webrtc_element() -> Seq<char> {
    "webrtcbin name=webrtc bundle-policy=max-bundle"@
}

pub open spec fn audio_leg(source: EngineSource) -> Seq<char> {
    (match source {
        EngineSource::Auto => "autoaudiosrc name=audiosrc"@,
        EngineSource::Test => "audiotestsrc name=audiosrc is-live=true wave=sine freq=440"@,
    }) + " ! audioconvert ! audioresample ! opusenc ! rtpopuspay ! application/x-rtp,media=audio,encoding-name=OPUS,payload=96 ! webrtc."@
}

pub open spec fn video_leg(source: EngineSource) -> Seq<char> {
    (match source {
        EngineSource::Auto => "autovideosrc name=videosrc"@,
        EngineSource::Test => "videotestsrc name=videosrc is-live=true pattern=smpte"@,
    }) + " ! tee name=t ! queue name=qenc ! videoconvert ! vp8enc deadline=1 ! rtpvp8pay ! application/x-rtp,media=video,encoding-name=VP8,payload=97 ! webrtc. t. ! queue name=qprev ! videoconvert ! videoscale ! video/x-raw,format=RGBA ! appsink name=preview sync=false max-buffers=2 drop=true emit-signals=false"@
}

/// The GStreamer pipeline description of an engine: the `webrtcbin`
/// alone for a subscriber; for a publisher, followed by an audio leg and a
/// video leg (encoder and local preview) as asked, each after a space.
pub open spec fn launch_text(role: EngineRole, audio: bool, video: bool, source: EngineSource) -> Seq<char> {
    if role == EngineRole::Subscriber {
        webrtc_element()
    } else {
        webrtc_element() + (if audio {
            " "@ + audio_leg(source)
        } else {
            Seq::empty()
        }) + (if video {
            " "@ + video_leg(source)
        } else {
            Seq::empty()
        })
    }
}

/// The pipeline description an engine is launched with.
pub fn launch_string(role: EngineRole, audio: bool, video: bool, source: EngineSource) -> (s: String)
    ensures
        s@ == launch_text(role, audio, video, source),
{
    let mut s = "webrtcbin name=webrtc bundle-policy=max-bundle".to_owned();
    if let EngineRole::Subscriber = role {
        return s;
    }
    let ghost base = s@;
    if audio {
        s.append(" ");
        match source {
            EngineSource::Auto => s.append("autoaudiosrc name=audiosrc"),
            EngineSource::Test => s.append("audiotestsrc name=audiosrc is-live=true wave=sine freq=440"),
        }
        s.append(
            " ! audioconvert ! audioresample ! opusenc ! rtpopuspay ! application/x-rtp,media=audio,encoding-name=OPUS,payload=96 ! webrtc.",
        );
    }
    let ghost with_audio = s@;
    assert(with_audio =~= base + (if audio { " "@ + audio_leg(source) } else { Seq::empty() }));
    if video {
        s.append(" ");
        match source {
            EngineSource::Auto => s.append("autovideosrc name=videosrc"),
            EngineSource::Test => s.append("videotestsrc name=videosrc is-live=true pattern=smpte"),
        }
        s.append(
            " ! tee name=t ! queue name=qenc ! videoconvert ! vp8enc deadline=1 ! rtpvp8pay ! application/x-rtp,media=video,encoding-name=VP8,payload=97 ! webrtc. t. ! queue name=qprev ! videoconvert ! videoscale ! video/x-raw,format=RGBA ! appsink name=preview sync=false max-buffers=2 drop=true emit-signals=false",
        );
    }
    assert(s@ =~= with_audio + (if video { " "@ + video_leg(source) } else { Seq::empty() }));
    s
}

/// Local track advertised to the server.
#[derive(Clone, Debug, PartialEq)]
pub struct MediaTrack {
    /// Transceiver mid once negotiated; `None` on the first offer.
    pub mid: Option<String>,
    pub kind: MediaKind,
    pub label: String,
    /// Track hints, e.g. `t:{track_id},tr:{transceiver_id},d:{device_id}`.
    pub description: String,
}

#[derive(Clone, Copy, Debug, PartialEq, Eq, Hash)]
pub enum MediaKind {
    Audio,
    Video,
    /// Screen share (wire: `DISPLAY_VIDEO`).
    Screen,
}

/// Peer-connection state for the UI.
#[derive(Clone, Copy, Debug, PartialEq, Eq, Hash)]
pub enum PeerState {
    New,
    Connecting,
    Connected,
    Disconnected,
    Failed,
    Closed,
}

/// One decoded video frame (RGBA) for rendering.
#[derive(Clone, Debug, PartialEq)]
pub struct VideoFrame {
    pub width: u32,
    pub height: u32,
    /// Bytes per row (`width * 4` when tightly packed).
    pub stride: usize,
    /// RGBA pixels, `stride * height` bytes.
    pub pixels: Vec<u8>,
}

impl VideoFrame {
    /// Non-empty and exactly `stride * height` bytes of pixels.
    pub fn is_valid(&self) -> (b: bool)
        ensures
            b == (self.width > 0 && self.height > 0 && self.pixels@.len() == self.stride
                * self.height),
    {
        if self.width == 0 || self.height == 0 {
            return false;
        }
        let h = self.height as usize;
        match self.stride.checked_mul(h) {
            Some(n) => {
                assert(n == self.stride * self.height);
                self.pixels.len() == n
            },
            None => {
                assert(self.stride * h > usize::MAX);
                let len = self.pixels.len();
                assert(len <= usize::MAX);
                false
            },
        }
    }
}

/// Events an engine reports to the call controller.
#[derive(Clone, Debug)]
pub enum MediaEvent {
    LocalOffer { sdp: String, tracks: Vec<MediaTrack> },
    LocalAnswer { sdp: String },
    LocalIce { mline_index: u32, candidate: String },
    /// Decoded remote video frame.
    RemoteFrame(VideoFrame),
    /// Local camera preview frame (publisher only).
    PreviewFrame(VideoFrame),
    ConnectionState(PeerState),
    Error(String),
}

/// ICE server in engine terms.
#[derive(Clone, Debug, PartialEq)]
pub struct IceServer {
    pub urls: Vec<String>,
    pub username: String,
    pub credential: String,
}


/// Whether screen capture goes through the desktop portal (a PipeWire
/// stream the user approves) rather than grabbing the X11 screen.
/// `YM_SHARE_PORTAL` decides when it says `1`/`true` or `0`/`false` (in
/// any case); else `XDG_SESSION_TYPE` being `wayland` (in any case); else a
/// Wayland display without an X11 one.
pub open spec fn portal_choice(force: Option<Seq<char>>, session_type: Option<Seq<char>>, wayland_display: bool, x_display: bool) -> bool {
    let forced = match force {
        Some(v) => {
            let l = crate::text::lower_ascii(v);
            if l == "1"@ || l == "true"@ {
                Some(true)
            } else if l == "0"@ || l == "false"@ {
                Some(false)
            } else {
                None
            }
        },
        None => None,
    };
    match forced {
        Some(b) => b,
        None => match session_type {
            Some(t) => crate::text::lower_ascii(t) == "wayland"@,
            None => wayland_display && !x_display,
        },
    }
}

pub fn portal_recommended(force: Option<&str>, session_type: Option<&str>, wayland_display: bool, x_display: bool) -> (b: bool)
    ensures
        b == portal_choice(
            crate::goloom::opt_view(force),
            crate::goloom::opt_view(session_type),
            wayland_display,
            x_display,
        ),
{
    match force {
        Some(v) => {
            let l = crate::text::to_lower_ascii(v);
            if crate::text::str_is(l.as_str(), "1") || crate::text::str_is(l.as_str(), "true") {
                return true;
            }
            if crate::text::str_is(l.as_str(), "0") || crate::text::str_is(l.as_str(), "false") {
                return false;
            }
        },
        None => {},
    }
    match session_type {
        Some(t) => {
            let l = crate::text::to_lower_ascii(t);
            crate::text::str_is(l.as_str(), "wayland")
        },
        None => wayland_display && !x_display,
    }
}


// ── a media engine without media ────────────────────────────────────

/// Where screen-share video comes from.
#[derive(Clone, Copy, Debug, PartialEq, Eq)]
pub enum ShareSourceKind {
    /// The engine's default capture.
    Default,
    /// A PipeWire stream granted through the desktop portal.
    PipeWire { node: u32 },
}

/// A media engine with no system dependencies: fixed SDP, every inbound
/// call recorded. Each operation returns the events it emits, in order.
#[derive(Clone, Debug)]
pub struct NullMediaEngine {
    pub offer_sdp: String,
    pub answer_sdp: String,
    pub log: Vec<String>,
    /// Answer-only engines (the subscriber) stay quiet on `start`.
    pub offer_on_start: bool,
    pub started: bool,
}

/// One entry more at the end of the log; the SDPs and whether the engine
/// offers on start are as they were.
pub open spec fn one_more_entry(before: NullMediaEngine, after: NullMediaEngine) -> bool {
    &&& after.log@.len() == before.log@.len() + 1
    &&& after.log@.drop_last() == before.log@
    &&& after.offer_sdp == before.offer_sdp
    &&& after.answer_sdp == before.answer_sdp
    &&& after.offer_on_start == before.offer_on_start
}

/// The three tracks the engine offers: audio, video and screen, without
/// mids yet.
pub open spec fn null_tracks(t: Seq<MediaTrack>) -> bool {
    &&& t.len() == 3
    &&& t[0].kind == MediaKind::Audio && t[0].label@ == "audio"@
    &&& t[1].kind == MediaKind::Video && t[1].label@ == "video"@
    &&& t[2].kind == MediaKind::Screen && t[2].label@ == "screen"@
    &&& forall|i: int| 0 <= i < 3 ==> (#[trigger] t[i]).mid is None && t[i].description@.len() == 0
}

fn track(kind: MediaKind, label: &str) -> (t: MediaTrack)
    ensures
        t.kind == kind && t.label@ == label@ && t.mid is None && t.description@.len() == 0,
{
    MediaTrack { mid: None, kind, label: label.to_owned(), description: String::new() }
}

pub open spec fn bool_text(b: bool) -> Seq<char> {
    if b {
        "true"@
    } else {
        "false"@
    }
}

fn push_bool(s: &mut String, b: bool)
    ensures
        final(s)@ == old(s)@ + bool_text(b),
{
    if b {
        s.append("true");
    } else {
        s.append("false");
    }
}

impl NullMediaEngine {
    /// An engine that offers on start.
    pub fn new() -> (e: Self)
        ensures
            e.offer_sdp@ == "v=0\r\no=null-null 0 0 IN IP4 127.0.0.1\r\ns=null\r\n"@,
            e.answer_sdp@ == "v=0\r\no=null-null 0 0 IN IP4 127.0.0.1\r\ns=null-answer\r\n"@,
            e.log@.len() == 0,
            e.offer_on_start,
            !e.started,
    {
        NullMediaEngine {
            offer_sdp: "v=0\r\no=null-null 0 0 IN IP4 127.0.0.1\r\ns=null\r\n".to_owned(),
            answer_sdp: "v=0\r\no=null-null 0 0 IN IP4 127.0.0.1\r\ns=null-answer\r\n".to_owned(),
            log: Vec::new(),
            offer_on_start: true,
            started: false,
        }
    }

    /// A subscriber stand-in: answers offers, never offers first.
    pub fn answer_only() -> (e: Self)
        ensures
            e.offer_sdp@ == "v=0\r\no=null-null 0 0 IN IP4 127.0.0.1\r\ns=null\r\n"@,
            e.answer_sdp@ == "v=0\r\no=null-null 0 0 IN IP4 127.0.0.1\r\ns=null-answer\r\n"@,
            e.log@.len() == 0,
            !e.offer_on_start,
            !e.started,
    {
        let mut e = Self::new();
        e.offer_on_start = false;
        e
    }

    fn record(&mut self, entry: String)
        ensures
            final(self).log@ == old(self).log@.push(entry),
            one_more_entry(*old(self), *final(self)),
            final(self).offer_sdp == old(self).offer_sdp,
            final(self).answer_sdp == old(self).answer_sdp,
            final(self).offer_on_start == old(self).offer_on_start,
            final(self).started == old(self).started,
    {
        self.log.push(entry);
        assert(self.log@.drop_last() =~= old(self).log@);
    }

    /// Starts: records `start`, offers when it offers on start, and reports
    /// `Connecting`.
    pub fn start(&mut self) -> (ev: Vec<MediaEvent>)
        ensures
            final(self).started,
            one_more_entry(*old(self), *final(self)),
            final(self).log@.last()@ == "start"@,
            ev@.len() == if old(self).offer_on_start { 2int } else { 1int },
            old(self).offer_on_start ==> (ev@[0] matches MediaEvent::LocalOffer { sdp, tracks }
                && sdp@ == old(self).offer_sdp@ && null_tracks(tracks@)),
            ev@.last() == MediaEvent::ConnectionState(PeerState::Connecting),
    {
        self.started = true;
        self.record("start".to_owned());
        let mut ev: Vec<MediaEvent> = Vec::new();
        if self.offer_on_start {
            let mut tracks: Vec<MediaTrack> = Vec::new();
            tracks.push(track(MediaKind::Audio, "audio"));
            tracks.push(track(MediaKind::Video, "video"));
            tracks.push(track(MediaKind::Screen, "screen"));
            ev.push(MediaEvent::LocalOffer { sdp: self.offer_sdp.clone(), tracks });
        }
        ev.push(MediaEvent::ConnectionState(PeerState::Connecting));
        ev
    }

    /// Stops: records `stop` and reports `Closed`.
    pub fn stop(&mut self) -> (ev: Vec<MediaEvent>)
        ensures
            one_more_entry(*old(self), *final(self)),
            final(self).started == old(self).started,
            final(self).log@.last()@ == "stop"@,
            ev@ == seq![MediaEvent::ConnectionState(PeerState::Closed)],
    {
        self.record("stop".to_owned());
        let mut ev: Vec<MediaEvent> = Vec::new();
        ev.push(MediaEvent::ConnectionState(PeerState::Closed));
        assert(ev@ =~= seq![MediaEvent::ConnectionState(PeerState::Closed)]);
        ev
    }

    /// Records how many ICE servers were set.
    pub fn set_ice_servers(&mut self, servers: &Vec<IceServer>)
        ensures
            one_more_entry(*old(self), *final(self)),
            final(self).started == old(self).started,
            final(self).log@.last()@ == "ice-servers:"@ + crate::text::decimal(servers@.len()),
    {
        let mut e = "ice-servers:".to_owned();
        crate::text::push_decimal(&mut e, servers.len() as u64);
        self.record(e);
    }

    /// A remote offer: recorded by its first line, answered at once, and
    /// the connection reported `Connected`.
    pub fn handle_remote_offer(&mut self, sdp: &str) -> (ev: Vec<MediaEvent>)
        ensures
            one_more_entry(*old(self), *final(self)),
            final(self).started == old(self).started,
            final(self).log@.last()@ == "remote-offer:"@ + crate::text::first_line_spec(sdp@),
            ev@.len() == 2,
            ev@[0] matches MediaEvent::LocalAnswer { sdp: a } && a@ == old(self).answer_sdp@,
            ev@[1] == MediaEvent::ConnectionState(PeerState::Connected),
    {
        let mut e = "remote-offer:".to_owned();
        e.append(crate::text::first_line(sdp).as_str());
        self.record(e);
        let mut ev: Vec<MediaEvent> = Vec::new();
        ev.push(MediaEvent::LocalAnswer { sdp: self.answer_sdp.clone() });
        ev.push(MediaEvent::ConnectionState(PeerState::Connected));
        ev
    }

    /// A remote answer: recorded by its first line; the connection is
    /// reported `Connected`.
    pub fn handle_remote_answer(&mut self, sdp: &str) -> (ev: Vec<MediaEvent>)
        ensures
            one_more_entry(*old(self), *final(self)),
            final(self).started == old(self).started,
            final(self).log@.last()@ == "remote-answer:"@ + crate::text::first_line_spec(sdp@),
            ev@ == seq![MediaEvent::ConnectionState(PeerState::Connected)],
    {
        let mut e = "remote-answer:".to_owned();
        e.append(crate::text::first_line(sdp).as_str());
        self.record(e);
        let mut ev: Vec<MediaEvent> = Vec::new();
        ev.push(MediaEvent::ConnectionState(PeerState::Connected));
        assert(ev@ =~= seq![MediaEvent::ConnectionState(PeerState::Connected)]);
        ev
    }

    /// Records a remote candidate as `remote-ice:{mline}:{candidate}`.
    pub fn add_remote_ice(&mut self, mline_index: u32, candidate: &str)
        ensures
            one_more_entry(*old(self), *final(self)),
            final(self).started == old(self).started,
            final(self).log@.last()@ == "remote-ice:"@ + crate::text::decimal(mline_index as nat)
                + ":"@ + candidate@,
    {
        let mut e = "remote-ice:".to_owned();
        crate::text::push_decimal(&mut e, mline_index as u64);
        e.append(":");
        e.append(candidate);
        self.record(e);
    }

    /// Records `audio:{enabled}`.
    pub fn set_audio_enabled(&mut self, enabled: bool)
        ensures
            one_more_entry(*old(self), *final(self)),
            final(self).started == old(self).started,
            final(self).log@.last()@ == "audio:"@ + bool_text(enabled),
    {
        let mut e = "audio:".to_owned();
        push_bool(&mut e, enabled);
        self.record(e);
    }

    /// Records `video:{enabled}`.
    pub fn set_video_enabled(&mut self, enabled: bool)
        ensures
            one_more_entry(*old(self), *final(self)),
            final(self).started == old(self).started,
            final(self).log@.last()@ == "video:"@ + bool_text(enabled),
    {
        let mut e = "video:".to_owned();
        push_bool(&mut e, enabled);
        self.record(e);
    }

    /// Records `sharing:{enabled}`.
    pub fn set_sharing_enabled(&mut self, enabled: bool)
        ensures
            one_more_entry(*old(self), *final(self)),
            final(self).started == old(self).started,
            final(self).log@.last()@ == "sharing:"@ + bool_text(enabled),
    {
        let mut e = "sharing:".to_owned();
        push_bool(&mut e, enabled);
        self.record(e);
    }

    /// Records the share source: `share-source:default` or
    /// `share-pipewire:{node}`.
    pub fn attach_share_source(&mut self, source: ShareSourceKind)
        ensures
            one_more_entry(*old(self), *final(self)),
            final(self).started == old(self).started,
            final(self).log@.last()@ == match source {
                ShareSourceKind::Default => "share-source:default"@,
                ShareSourceKind::PipeWire { node } => "share-pipewire:"@ + crate::text::decimal(node as nat),
            },
    {
        match source {
            ShareSourceKind::Default => self.record("share-source:default".to_owned()),
            ShareSourceKind::PipeWire { node } => {
                let mut e = "share-pipewire:".to_owned();
                crate::text::push_decimal(&mut e, node as u64);
                self.record(e);
            },
        }
    }

    /// Everything recorded so far.
    pub fn recorded(&self) -> (v: Vec<String>)
        ensures
            v@.len() == self.log@.len(),
            forall|i: int| 0 <= i < v@.len() ==> #[trigger] v@[i]@ == self.log@[i]@,
    {
        let mut v: Vec<String> = Vec::new();
        let mut i: usize = 0;
        while i < self.log.len()
            invariant
                i <= self.log@.len(),
                v@.len() == i,
                forall|k: int| 0 <= k < i ==> #[trigger] v@[k]@ == self.log@[k]@,
            decreases self.log@.len() - i,
        {
            v.push(self.log[i].clone());
            i = i + 1;
        }
        v
    }
}

} // verus!
