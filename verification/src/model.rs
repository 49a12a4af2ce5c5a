//! The session as a state machine.
//!
//! A session is driven from two sides: the host, which asks for things and
//! polls once per tick, and the connection task, which reports what the
//! transport did. Either side acts in single steps. This module says, for
//! every step, what becomes of the session and what comes out of it; the
//! executable manager is proved to do exactly that.

use crate::audio::{frames_of, remainder_of, samples_per_frame, upmixed, MIN_SAMPLE_RATE};
use crate::event::EventView;
use crate::metadata::username_document;
use crate::room::{
    connect_failure, connected_events, publish_failure, reaction_to, ParticipantView,
    ReactionView, RoomEventView,
};
use vstd::prelude::*;

verus! {

/// The sample rate of local audio unless the host sets another.
pub const DEFAULT_SAMPLE_RATE: i32 = 48000;

/// The identity reported for the local participant while no room is connected.
pub const LOCAL_IDENTITY: &'static str = "local";

/// Where a session stands.
#[derive(Clone, Copy, Debug, PartialEq, Eq, Structural)]
pub enum ConnectionState {
    /// No connection and none under way.
    Idle,
    /// The transport is connecting.
    Connecting,
    /// The room is connected.
    Connected,
    /// The room is connected and has been told to stop.
    Disconnecting,
}

/// The token that follows `session`: one more, starting over after the last.
pub open spec fn next_session(session: u64) -> u64 {
    if session == u64::MAX {
        0
    } else {
        (session + 1) as u64
    }
}

/// Everything that a session remembers.
#[verifier::ext_equal]
pub struct SessionView {
    /// Where the session stands.
    pub state: ConnectionState,
    /// Whether a disconnect was asked for while the transport was still
    /// connecting.
    pub stop_requested: bool,
    /// The token of the current connection attempt. Reports that carry
    /// another token come from an attempt that was since replaced.
    pub session: u64,
    /// The sample rate that the next connection attempt will use.
    pub mic_sample_rate: i32,
    /// The sample rate of the current connection attempt.
    pub session_rate: i32,
    /// Local samples that do not yet fill a frame.
    pub residual: Seq<i16>,
    /// Events that the host has not polled yet, oldest first.
    pub pending: Seq<EventView>,
    /// The identity of the local participant in the connected room.
    pub local_identity: Seq<char>,
}

impl SessionView {
    /// A session before anything has happened.
    pub open spec fn initial() -> SessionView {
        SessionView {
            state: ConnectionState::Idle,
            stop_requested: false,
            session: 0,
            mic_sample_rate: DEFAULT_SAMPLE_RATE,
            session_rate: DEFAULT_SAMPLE_RATE,
            residual: Seq::empty(),
            pending: Seq::empty(),
            local_identity: Seq::empty(),
        }
    }

    /// What holds of every session: both sample rates admit a frame, and
    /// less than one frame of samples is held back.
    pub open spec fn well_formed(self) -> bool {
        &&& self.mic_sample_rate >= MIN_SAMPLE_RATE
        &&& self.session_rate >= MIN_SAMPLE_RATE
        &&& self.residual.len() < self.frame_len()
    }

    /// Samples per outbound frame in the current connection attempt.
    pub open spec fn frame_len(self) -> int {
        samples_per_frame(self.session_rate)
    }

    /// The connected flag: set from the moment the transport has connected
    /// until the session has ended.
    pub open spec fn is_connected(self) -> bool {
        self.state is Connected || self.state is Disconnecting
    }

    /// Whether a report on the outcome of connecting, made under `session`,
    /// is still awaited.
    pub open spec fn awaits_connect(self, session: u64) -> bool {
        session == self.session && self.state is Connecting
    }

    /// Whether a report from the connected room, made under `session`,
    /// belongs to the room that is connected now.
    pub open spec fn hears_room(self, session: u64) -> bool {
        session == self.session && self.is_connected()
    }

    /// The host sets the sample rate for later connection attempts. A rate
    /// that admits no ten-millisecond frame is refused and changes nothing.
    pub open spec fn set_sample_rate(self, rate: i32) -> SessionView {
        if rate >= MIN_SAMPLE_RATE {
            SessionView { mic_sample_rate: rate, ..self }
        } else {
            self
        }
    }

    /// The host asks to connect. Whatever went on before is abandoned: a new
    /// token is drawn, events not yet polled are gone, and so are samples
    /// held back.
    pub open spec fn connect(self) -> SessionView {
        SessionView {
            state: ConnectionState::Connecting,
            stop_requested: false,
            session: next_session(self.session),
            mic_sample_rate: self.mic_sample_rate,
            session_rate: self.mic_sample_rate,
            residual: Seq::empty(),
            pending: Seq::empty(),
            local_identity: Seq::empty(),
        }
    }

    /// Whether a disconnect asked for now has a connection task to signal.
    pub open spec fn disconnect_signals(self) -> bool {
        self.state is Connected || (self.state is Connecting && !self.stop_requested)
    }

    /// The host asks to disconnect. A connected session starts to stop; one
    /// that is still connecting remembers the request; any other is left as
    /// it is.
    pub open spec fn disconnect(self) -> SessionView {
        match self.state {
            ConnectionState::Connected => SessionView {
                state: ConnectionState::Disconnecting,
                ..self
            },
            ConnectionState::Connecting => SessionView { stop_requested: true, ..self },
            _ => self,
        }
    }

    /// The task reports that the transport has connected, who the local
    /// participant is and who is in the room.
    pub open spec fn room_connected(
        self,
        session: u64,
        identity: Seq<char>,
        participants: Seq<ParticipantView>,
    ) -> SessionView {
        if self.awaits_connect(session) {
            SessionView {
                state: if self.stop_requested {
                    ConnectionState::Disconnecting
                } else {
                    ConnectionState::Connected
                },
                stop_requested: false,
                local_identity: identity,
                pending: self.pending + connected_events(participants),
                ..self
            }
        } else {
            self
        }
    }

    /// The task reports that the transport could not connect.
    pub open spec fn connect_failed(self, session: u64, cause: Seq<char>) -> SessionView {
        if self.awaits_connect(session) {
            SessionView {
                state: ConnectionState::Idle,
                stop_requested: false,
                pending: self.pending.push(connect_failure(cause)),
                ..self
            }
        } else {
            self
        }
    }

    /// The task reports that the local audio track could not be published.
    /// The session goes on without it.
    pub open spec fn publish_failed(self, session: u64, cause: Seq<char>) -> SessionView {
        if self.hears_room(session) {
            SessionView { pending: self.pending.push(publish_failure(cause)), ..self }
        } else {
            self
        }
    }

    /// The task reports a room event.
    pub open spec fn room_event(self, session: u64, event: RoomEventView) -> SessionView {
        if self.hears_room(session) {
            match reaction_to(event) {
                ReactionView::Emit(e) => SessionView { pending: self.pending.push(e), ..self },
                _ => self,
            }
        } else {
            self
        }
    }

    /// The participant whose audio the task is to decode in response to a
    /// room event, if any.
    pub open spec fn decode_request(self, session: u64, event: RoomEventView) -> Option<
        Seq<char>,
    > {
        if self.hears_room(session) {
            match reaction_to(event) {
                ReactionView::DecodeAudio(participant) => Some(participant),
                _ => None,
            }
        } else {
            None
        }
    }

    /// A decoder reports one mono frame of a participant. It reaches the
    /// host as long as the connection attempt it belongs to was not replaced.
    pub open spec fn audio_frame(
        self,
        session: u64,
        participant: Seq<char>,
        samples: Seq<i16>,
    ) -> SessionView {
        if session == self.session {
            SessionView {
                pending: self.pending.push(EventView::AudioFrame(participant, upmixed(samples))),
                ..self
            }
        } else {
            self
        }
    }

    /// The task reports that it has left the room.
    pub open spec fn session_ended(self, session: u64) -> SessionView {
        if self.hears_room(session) {
            SessionView {
                state: ConnectionState::Idle,
                stop_requested: false,
                local_identity: Seq::empty(),
                pending: self.pending.push(EventView::RoomDisconnected),
                ..self
            }
        } else {
            self
        }
    }

    /// The host delivers local samples. While connected they join what is
    /// held back and whole frames leave; otherwise nothing happens.
    pub open spec fn push_audio(self, samples: Seq<i16>) -> SessionView {
        if self.is_connected() {
            SessionView {
                residual: remainder_of(self.residual + samples, self.frame_len()),
                ..self
            }
        } else {
            self
        }
    }

    /// The frames to transmit when the host delivers `samples`.
    pub open spec fn frames_released(self, samples: Seq<i16>) -> Seq<Seq<i16>> {
        if self.is_connected() {
            frames_of(self.residual + samples, self.frame_len())
        } else {
            Seq::empty()
        }
    }

    /// The host polls: it is handed `self.pending`, and nothing is pending
    /// afterwards.
    pub open spec fn polled(self) -> SessionView {
        SessionView { pending: Seq::empty(), ..self }
    }

    /// The chat message to transmit when the host sends `message`: the
    /// message itself while connected, none otherwise.
    pub open spec fn chat_request(self, message: Seq<char>) -> Option<Seq<char>> {
        if self.is_connected() {
            Some(message)
        } else {
            None
        }
    }

    /// The metadata to publish when the host sets its display name to
    /// `name`: the document that carries it while connected, none otherwise.
    pub open spec fn username_request(self, name: Seq<char>) -> Option<Seq<char>> {
        if self.is_connected() {
            Some(username_document(name))
        } else {
            None
        }
    }

    /// The identity of the local participant as the host is told it.
    pub open spec fn identity(self) -> Seq<char> {
        if self.is_connected() {
            self.local_identity
        } else {
            LOCAL_IDENTITY@
        }
    }
}

} // verus!
