//! The session manager: the one object that the host and the connection task
//! both talk to.
//!
//! Every method is a single step of the state machine in [`crate::model`] and
//! returns at once. Methods that the host calls take no token. Methods that
//! the connection task and its decoders call take the token of the connection
//! attempt they belong to, which [`LiveKitManager::connect_to_room`] handed
//! out; a report under an outdated token is dropped.

use crate::audio::{
    format_at, frames_view, FrameAssembler, FrameFormat, SampleRate, MIN_SAMPLE_RATE,
};
use crate::event::{events_view, EventQueue, InternalEvent};
use crate::metadata::{text_view, username_metadata};
use crate::model::{ConnectionState, SessionView, DEFAULT_SAMPLE_RATE, LOCAL_IDENTITY};
use crate::room::{
    connect_failure_event, events_on_connect, participants_view, publish_failure_event,
    react_to_room_event, Participant, Reaction, RoomEvent,
};
use vstd::prelude::*;

verus! {

/// What the connection task needs to start a connection attempt.
#[derive(Clone, Debug, PartialEq, Eq)]
pub struct ConnectRequest {
    /// The token under which the task reports back.
    pub session: u64,
    /// The room server to connect to.
    pub url: String,
    /// The access token to present.
    pub token: String,
}

/// The session manager.
pub struct LiveKitManager {
    state: ConnectionState,
    stop_requested: bool,
    session: u64,
    mic_sample_rate: SampleRate,
    feed: FrameAssembler,
    events: EventQueue,
    local_identity: String,
}

impl View for LiveKitManager {
    type V = SessionView;

    closed spec fn view(&self) -> SessionView {
        SessionView {
            state: self.state,
            stop_requested: self.stop_requested,
            session: self.session,
            mic_sample_rate: self.mic_sample_rate.spec_hz(),
            session_rate: self.feed.spec_sample_rate(),
            residual: self.feed.spec_residual(),
            pending: self.events@,
            local_identity: self.local_identity@,
        }
    }
}

impl LiveKitManager {
    /// Brings into view what the parts of the manager keep to themselves:
    /// that both sample rates admit a frame and that less than a frame of
    /// samples is held back.
    fn bounds(&self)
        ensures
            self@.well_formed(),
    {
        let _ = self.mic_sample_rate.hz();
        let _ = self.feed.sample_rate();
        let _ = self.feed.buffered();
    }

    /// A manager with no session: idle, nothing pending, local audio at
    /// [`DEFAULT_SAMPLE_RATE`].
    pub fn new() -> (manager: LiveKitManager)
        ensures
            manager@ == SessionView::initial(),
            manager@.well_formed(),
    {
        let feed: FrameAssembler = FrameAssembler::new(DEFAULT_SAMPLE_RATE).unwrap();
        LiveKitManager {
            state: ConnectionState::Idle,
            stop_requested: false,
            session: 0,
            mic_sample_rate: SampleRate::new(DEFAULT_SAMPLE_RATE).unwrap(),
            feed,
            events: EventQueue::new(),
            local_identity: String::new(),
        }
    }

    /// Sets the sample rate of local audio for the connection attempts that
    /// follow. A rate below [`MIN_SAMPLE_RATE`] is refused: the answer is
    /// `false` and the rate stays as it was.
    pub fn set_mic_sample_rate(&mut self, rate: i32) -> (accepted: bool)
        ensures
            final(self)@ == old(self)@.set_sample_rate(rate),
            accepted == (rate >= MIN_SAMPLE_RATE),
            final(self)@.well_formed(),
    {
        self.bounds();
        match SampleRate::new(rate) {
            Some(accepted) => {
                self.mic_sample_rate = accepted;
                true
            },
            None => false,
        }
    }

    /// Where the session stands.
    pub fn state(&self) -> (state: ConnectionState)
        ensures
            state == self@.state,
    {
        self.state
    }

    /// The token of the current connection attempt.
    pub fn session(&self) -> (session: u64)
        ensures
            session == self@.session,
    {
        self.session
    }

    /// The sample rate that the next connection attempt will use.
    pub fn mic_sample_rate(&self) -> (rate: i32)
        ensures
            rate == self@.mic_sample_rate,
            rate >= MIN_SAMPLE_RATE,
    {
        self.mic_sample_rate.hz()
    }

    /// The shape of the frames that [`Self::push_mic_audio`] releases in the
    /// current connection attempt.
    pub fn frame_format(&self) -> (format: FrameFormat)
        ensures
            format == format_at(self@.session_rate),
    {
        self.feed.format()
    }

    /// Number of local samples held back until they fill a frame.
    pub fn buffered_samples(&self) -> (n: usize)
        ensures
            n == self@.residual.len(),
            (n as int) < self@.frame_len(),
    {
        self.feed.buffered()
    }

    /// Number of events that the host has not polled yet.
    pub fn pending_events(&self) -> (n: usize)
        ensures
            n == self@.pending.len(),
    {
        self.events.len()
    }

    /// Whether the room is connected.
    pub fn is_room_connected(&self) -> (connected: bool)
        ensures
            connected == self@.is_connected(),
    {
        match self.state {
            ConnectionState::Connected => true,
            ConnectionState::Disconnecting => true,
            _ => false,
        }
    }

    /// Starts a fresh connection attempt and says what the connection task
    /// needs for it. Whatever session there was is abandoned.
    pub fn connect_to_room(&mut self, url: &str, token: &str) -> (request: ConnectRequest)
        ensures
            final(self)@ == old(self)@.connect(),
            request.session == final(self)@.session,
            request.url@ == url@,
            request.token@ == token@,
            final(self)@.well_formed(),
    {
        let session: u64 = if self.session == u64::MAX {
            0
        } else {
            self.session + 1
        };
        let feed: FrameAssembler = FrameAssembler::new(self.mic_sample_rate.hz()).unwrap();
        self.state = ConnectionState::Connecting;
        self.stop_requested = false;
        self.session = session;
        self.feed = feed;
        self.events.clear();
        self.local_identity = String::new();
        ConnectRequest { session, url: url.to_owned(), token: token.to_owned() }
    }

    /// Asks the session to stop. The answer says whether the connection task
    /// is to be signalled; it is `false`, and nothing changes, when there is
    /// no session or it was asked to stop before.
    pub fn disconnect_from_room(&mut self) -> (signal: bool)
        ensures
            final(self)@ == old(self)@.disconnect(),
            signal == old(self)@.disconnect_signals(),
            old(self)@.state is Idle ==> !signal && final(self)@ == old(self)@,
            final(self)@.well_formed(),
    {
        self.bounds();
        match self.state {
            ConnectionState::Connected => {
                self.state = ConnectionState::Disconnecting;
                true
            },
            ConnectionState::Connecting => {
                let first: bool = !self.stop_requested;
                self.stop_requested = true;
                first
            },
            _ => false,
        }
    }

    /// Takes local mono samples from the host. While the room is connected
    /// they are gathered into ten-millisecond frames and the frames that are
    /// complete are returned for transmission, oldest first; otherwise the
    /// samples are dropped and nothing is returned.
    pub fn push_mic_audio(&mut self, samples: &[i16]) -> (frames: Vec<Vec<i16>>)
        ensures
            final(self)@ == old(self)@.push_audio(samples@),
            frames_view(frames@) == old(self)@.frames_released(samples@),
            final(self)@.well_formed(),
    {
        let frames: Vec<Vec<i16>> = if self.is_room_connected() {
            self.feed.push(samples)
        } else {
            Vec::new()
        };
        self.bounds();
        assert(frames_view(frames@) =~= old(self)@.frames_released(samples@));
        frames
    }

    /// The chat message to transmit for the host: `message` while the room is
    /// connected, none otherwise.
    pub fn send_chat_message(&self, message: &str) -> (request: Option<String>)
        ensures
            text_view(request) == self@.chat_request(message@),
    {
        if self.is_room_connected() {
            Some(message.to_owned())
        } else {
            None
        }
    }

    /// The metadata to publish so that the local participant shows as
    /// `new_name`: the document while the room is connected, none otherwise.
    pub fn update_username(&self, new_name: &str) -> (request: Option<String>)
        ensures
            text_view(request) == self@.username_request(new_name@),
    {
        if self.is_room_connected() {
            Some(username_metadata(new_name))
        } else {
            None
        }
    }

    /// The identity of the local participant: the one the room gave while it
    /// is connected, [`LOCAL_IDENTITY`] otherwise.
    pub fn get_local_identity(&self) -> (identity: String)
        ensures
            identity@ == self@.identity(),
    {
        if self.is_room_connected() {
            self.local_identity.clone()
        } else {
            LOCAL_IDENTITY.to_owned()
        }
    }

    /// Hands the host every event that is pending, oldest first, and leaves
    /// none pending. With nothing pending the result is empty.
    pub fn poll(&mut self) -> (events: Vec<InternalEvent>)
        ensures
            events_view(events@) == old(self)@.pending,
            final(self)@ == old(self)@.polled(),
            old(self)@.pending.len() == 0 ==> events@.len() == 0 && final(self)@ == old(self)@,
            final(self)@.well_formed(),
    {
        self.bounds();
        self.events.drain()
    }

    /// The connection task reports that the transport has connected. The
    /// answer is the shape of the audio frames to publish, or `None` when
    /// the report is not awaited: the task then has to let go of the room.
    pub fn room_connected(
        &mut self,
        session: u64,
        local_identity: String,
        participants: &Vec<Participant>,
    ) -> (publish: Option<FrameFormat>)
        ensures
            final(self)@ == old(self)@.room_connected(
                session,
                local_identity@,
                participants_view(participants@),
            ),
            publish == if old(self)@.awaits_connect(session) {
                Some(format_at(old(self)@.session_rate))
            } else {
                None::<FrameFormat>
            },
            final(self)@.well_formed(),
    {
        self.bounds();
        if session == self.session && self.state == ConnectionState::Connecting {
            self.state = if self.stop_requested {
                ConnectionState::Disconnecting
            } else {
                ConnectionState::Connected
            };
            self.stop_requested = false;
            self.local_identity = local_identity;
            self.events.send_all(events_on_connect(participants));
            Some(self.feed.format())
        } else {
            None
        }
    }

    /// The connection task reports that the transport could not connect,
    /// with the cause in words.
    pub fn connect_failed(&mut self, session: u64, cause: &str)
        ensures
            final(self)@ == old(self)@.connect_failed(session, cause@),
            final(self)@.well_formed(),
    {
        self.bounds();
        if session == self.session && self.state == ConnectionState::Connecting {
            self.state = ConnectionState::Idle;
            self.stop_requested = false;
            self.events.send(connect_failure_event(cause));
        }
    }

    /// The connection task reports that the local audio track could not be
    /// published, with the cause in words.
    pub fn publish_failed(&mut self, session: u64, cause: &str)
        ensures
            final(self)@ == old(self)@.publish_failed(session, cause@),
            final(self)@.well_formed(),
    {
        self.bounds();
        if session == self.session && self.is_room_connected() {
            self.events.send(publish_failure_event(cause));
        }
    }

    /// The connection task reports a room event. The answer names the
    /// participant whose audio is to be decoded from now on, if the event
    /// calls for that.
    pub fn room_event(&mut self, session: u64, event: RoomEvent) -> (decode: Option<String>)
        ensures
            final(self)@ == old(self)@.room_event(session, event@),
            text_view(decode) == old(self)@.decode_request(session, event@),
            final(self)@.well_formed(),
    {
        self.bounds();
        if session == self.session && self.is_room_connected() {
            match react_to_room_event(event) {
                Reaction::Emit(e) => {
                    self.events.send(e);
                    None
                },
                Reaction::DecodeAudio(participant) => Some(participant),
                Reaction::Nothing => None,
            }
        } else {
            None
        }
    }

    /// A decoder reports one mono frame of `participant`. The answer is
    /// `false` when the frame belongs to a connection attempt that was
    /// replaced: it is dropped, and the decoder may stop.
    pub fn audio_frame(&mut self, session: u64, participant: &str, samples: &[i16]) -> (accepted:
        bool)
        ensures
            final(self)@ == old(self)@.audio_frame(session, participant@, samples@),
            accepted == (session == old(self)@.session),
            final(self)@.well_formed(),
    {
        self.bounds();
        if session == self.session {
            let stereo: Vec<(i16, i16)> = crate::audio::upmix_to_stereo(samples);
            self.events.send(InternalEvent::AudioFrame(participant.to_owned(), stereo));
            true
        } else {
            false
        }
    }

    /// The connection task reports that it has left the room.
    pub fn session_ended(&mut self, session: u64)
        ensures
            final(self)@ == old(self)@.session_ended(session),
            final(self)@.well_formed(),
    {
        self.bounds();
        if session == self.session && self.is_room_connected() {
            self.state = ConnectionState::Idle;
            self.stop_requested = false;
            self.local_identity = String::new();
            self.events.send(InternalEvent::RoomDisconnected);
        }
    }
}

} // verus!
