//! What a room reports, and what the session makes of it.
//!
//! The transport hands over participants and room events as it sees them.
//! This module turns each of them into the events that the host is told, and
//! into the one thing the session may have to start in response: decoding a
//! participant's audio.

use crate::event::{EventView, InternalEvent};
use crate::metadata::{metadata_username, username_from_metadata};
use vstd::prelude::*;
use vstd::string::StringExecFns;

verus! {

/// The sender named for a chat message that came without one.
pub const UNKNOWN_SENDER: &'static str = "Unknown";

/// What stands before the cause in the report of a failed connect.
pub const CONNECT_FAILURE_PREFIX: &'static str = "Failed to connect: ";

/// What stands before the cause in the report of a failed publish of the
/// local audio track.
pub const PUBLISH_FAILURE_PREFIX: &'static str = "Failed to publish mic: ";

/// A remote participant as the transport reports it.
#[derive(Clone, Debug, PartialEq, Eq)]
pub struct Participant {
    pub identity: String,
    pub metadata: String,
}

/// The mathematical content of a [`Participant`].
pub struct ParticipantView {
    pub identity: Seq<char>,
    pub metadata: Seq<char>,
}

impl View for Participant {
    type V = ParticipantView;

    open spec fn view(&self) -> ParticipantView {
        ParticipantView { identity: self.identity@, metadata: self.metadata@ }
    }
}

/// The contents of a list of participants, in order.
pub open spec fn participants_view(participants: Seq<Participant>) -> Seq<ParticipantView> {
    participants.map_values(|p: Participant| p@)
}

/// The kind of media that a track carries.
#[derive(Clone, Copy, Debug, PartialEq, Eq, Structural)]
pub enum TrackKind {
    Audio,
    Video,
}

/// What the room reports while the session is connected.
#[derive(Clone, Debug, PartialEq, Eq)]
pub enum RoomEvent {
    /// A remote participant joined.
    ParticipantConnected { identity: String },
    /// A remote participant left.
    ParticipantDisconnected { identity: String },
    /// A track of a remote participant became available.
    TrackSubscribed { participant: String, kind: TrackKind },
    /// A chat message arrived; the sender may be unknown.
    ChatMessage { sender: Option<String>, message: String, timestamp: i64 },
    /// A participant replaced its metadata.
    ParticipantMetadataChanged { participant: String, metadata: String },
    /// Anything else; the session takes no notice.
    Other,
}

/// The mathematical content of a [`RoomEvent`].
pub enum RoomEventView {
    ParticipantConnected { identity: Seq<char> },
    ParticipantDisconnected { identity: Seq<char> },
    TrackSubscribed { participant: Seq<char>, kind: TrackKind },
    ChatMessage { sender: Option<Seq<char>>, message: Seq<char>, timestamp: i64 },
    ParticipantMetadataChanged { participant: Seq<char>, metadata: Seq<char> },
    Other,
}

impl View for RoomEvent {
    type V = RoomEventView;

    open spec fn view(&self) -> RoomEventView {
        match self {
            RoomEvent::ParticipantConnected { identity } => RoomEventView::ParticipantConnected {
                identity: identity@,
            },
            RoomEvent::ParticipantDisconnected { identity } => {
                RoomEventView::ParticipantDisconnected { identity: identity@ }
            },
            RoomEvent::TrackSubscribed { participant, kind } => RoomEventView::TrackSubscribed {
                participant: participant@,
                kind: *kind,
            },
            RoomEvent::ChatMessage { sender, message, timestamp } => RoomEventView::ChatMessage {
                sender: match sender {
                    Some(s) => Some(s@),
                    None => None,
                },
                message: message@,
                timestamp: *timestamp,
            },
            RoomEvent::ParticipantMetadataChanged { participant, metadata } => {
                RoomEventView::ParticipantMetadataChanged {
                    participant: participant@,
                    metadata: metadata@,
                }
            },
            RoomEvent::Other => RoomEventView::Other,
        }
    }
}

/// What the session does about one room event.
#[derive(Clone, Debug, PartialEq, Eq)]
pub enum Reaction {
    /// Nothing at all.
    Nothing,
    /// Tell the host.
    Emit(InternalEvent),
    /// Start decoding the audio of the named participant.
    DecodeAudio(String),
}

/// The mathematical content of a [`Reaction`].
pub enum ReactionView {
    Nothing,
    Emit(EventView),
    DecodeAudio(Seq<char>),
}

impl View for Reaction {
    type V = ReactionView;

    open spec fn view(&self) -> ReactionView {
        match self {
            Reaction::Nothing => ReactionView::Nothing,
            Reaction::Emit(event) => ReactionView::Emit(event@),
            Reaction::DecodeAudio(participant) => ReactionView::DecodeAudio(participant@),
        }
    }
}

/// A chat timestamp as the host sees it: the signed value of the transport
/// read as unsigned, so that a negative one lands in the upper half.
pub open spec fn chat_timestamp(timestamp: i64) -> u64 {
    if timestamp >= 0 {
        timestamp as u64
    } else {
        (timestamp + 0x1_0000_0000_0000_0000) as u64
    }
}

/// The report of a failure: what was attempted, then the cause.
pub open spec fn failure_message(prefix: Seq<char>, cause: Seq<char>) -> Seq<char> {
    prefix + cause
}

/// The event that reports a failed connect.
pub open spec fn connect_failure(cause: Seq<char>) -> EventView {
    EventView::Error(failure_message(CONNECT_FAILURE_PREFIX@, cause))
}

/// The event that reports a failed publish of the local audio track.
pub open spec fn publish_failure(cause: Seq<char>) -> EventView {
    EventView::Error(failure_message(PUBLISH_FAILURE_PREFIX@, cause))
}

/// What the host is told about one participant that is in the room: that it
/// joined, and its display name where its metadata carries one.
pub open spec fn participant_events(participant: ParticipantView) -> Seq<EventView> {
    let joined = seq![EventView::ParticipantJoined(participant.identity)];
    match metadata_username(participant.metadata) {
        Some(name) => joined.push(
            EventView::ParticipantMetadataChanged(participant.identity, name),
        ),
        None => joined,
    }
}

/// What the host is told about the participants found in a room, in the
/// order in which they were listed.
pub open spec fn roster_events(participants: Seq<ParticipantView>) -> Seq<EventView>
    decreases participants.len(),
{
    if participants.len() == 0 {
        Seq::empty()
    } else {
        roster_events(participants.drop_last()) + participant_events(participants.last())
    }
}

/// What the host is told when the transport has connected: first that the
/// room is connected, then the participants already there.
pub open spec fn connected_events(participants: Seq<ParticipantView>) -> Seq<EventView> {
    seq![EventView::RoomConnected] + roster_events(participants)
}

/// What the session does about `event`.
pub open spec fn reaction_to(event: RoomEventView) -> ReactionView {
    match event {
        RoomEventView::ParticipantConnected { identity } => ReactionView::Emit(
            EventView::ParticipantJoined(identity),
        ),
        RoomEventView::ParticipantDisconnected { identity } => ReactionView::Emit(
            EventView::ParticipantLeft(identity),
        ),
        RoomEventView::TrackSubscribed { participant, kind } => match kind {
            TrackKind::Audio => ReactionView::DecodeAudio(participant),
            TrackKind::Video => ReactionView::Nothing,
        },
        RoomEventView::ChatMessage { sender, message, timestamp } => ReactionView::Emit(
            EventView::ChatMessage(
                match sender {
                    Some(s) => s,
                    None => UNKNOWN_SENDER@,
                },
                message,
                chat_timestamp(timestamp),
            ),
        ),
        RoomEventView::ParticipantMetadataChanged { participant, metadata } => {
            match metadata_username(metadata) {
                Some(name) => ReactionView::Emit(
                    EventView::ParticipantMetadataChanged(participant, name),
                ),
                None => ReactionView::Nothing,
            }
        },
        RoomEventView::Other => ReactionView::Nothing,
    }
}

/// The event that reports a failed connect with its cause.
pub fn connect_failure_event(cause: &str) -> (event: InternalEvent)
    ensures
        event@ == connect_failure(cause@),
{
    InternalEvent::Error(CONNECT_FAILURE_PREFIX.to_owned().concat(cause))
}

/// The event that reports a failed publish of the local audio track with its
/// cause.
pub fn publish_failure_event(cause: &str) -> (event: InternalEvent)
    ensures
        event@ == publish_failure(cause@),
{
    InternalEvent::Error(PUBLISH_FAILURE_PREFIX.to_owned().concat(cause))
}

/// Reads a chat timestamp of the transport as the unsigned value that the
/// host is given.
pub fn host_timestamp(timestamp: i64) -> (t: u64)
    ensures
        t == chat_timestamp(timestamp),
{
    assert(timestamp as u64 == chat_timestamp(timestamp)) by (bit_vector);
    timestamp as u64
}

/// The events for the participants found in a room on connect, behind the
/// notice that the room is connected.
pub fn events_on_connect(participants: &Vec<Participant>) -> (events: Vec<InternalEvent>)
    ensures
        crate::event::events_view(events@) == connected_events(participants_view(participants@)),
{
    let mut events: Vec<InternalEvent> = Vec::new();
    events.push(InternalEvent::RoomConnected);
    let mut i: usize = 0;
    assert(participants_view(participants@).take(0) =~= Seq::<ParticipantView>::empty());
    while i < participants.len()
        invariant
            i <= participants@.len(),
            crate::event::events_view(events@) =~= connected_events(
                participants_view(participants@).take(i as int),
            ),
        decreases participants@.len() - i,
    {
        let ghost seen = participants_view(participants@).take(i as int);
        let ghost next = participants_view(participants@).take(i + 1);
        assert(next.drop_last() =~= seen);
        assert(next.last() == participants@[i as int]@);
        assert(roster_events(next) == roster_events(seen) + participant_events(
            participants@[i as int]@,
        ));
        let ghost before = crate::event::events_view(events@);
        let participant = &participants[i];
        events.push(InternalEvent::ParticipantJoined(participant.identity.clone()));
        assert(crate::event::events_view(events@) =~= before.push(
            EventView::ParticipantJoined(participant.identity@),
        ));
        match username_from_metadata(participant.metadata.as_str()) {
            Some(name) => {
                events.push(
                    InternalEvent::ParticipantMetadataChanged(participant.identity.clone(), name),
                );
                assert(crate::event::events_view(events@) =~= before + participant_events(
                    participant@,
                ));
            },
            None => {
                assert(crate::event::events_view(events@) =~= before + participant_events(
                    participant@,
                ));
            },
        }
        i = i + 1;
    }
    assert(participants_view(participants@).take(i as int) =~= participants_view(participants@));
    events
}

/// Decides what to do about one room event.
pub fn react_to_room_event(event: RoomEvent) -> (reaction: Reaction)
    ensures
        reaction@ == reaction_to(event@),
{
    match event {
        RoomEvent::ParticipantConnected { identity } => Reaction::Emit(
            InternalEvent::ParticipantJoined(identity),
        ),
        RoomEvent::ParticipantDisconnected { identity } => Reaction::Emit(
            InternalEvent::ParticipantLeft(identity),
        ),
        RoomEvent::TrackSubscribed { participant, kind } => match kind {
            TrackKind::Audio => Reaction::DecodeAudio(participant),
            TrackKind::Video => Reaction::Nothing,
        },
        RoomEvent::ChatMessage { sender, message, timestamp } => {
            let sender: String = match sender {
                Some(s) => s,
                None => UNKNOWN_SENDER.to_owned(),
            };
            Reaction::Emit(InternalEvent::ChatMessage(sender, message, host_timestamp(timestamp)))
        },
        RoomEvent::ParticipantMetadataChanged { participant, metadata } => {
            match username_from_metadata(metadata.as_str()) {
                Some(name) => Reaction::Emit(
                    InternalEvent::ParticipantMetadataChanged(participant, name),
                ),
                None => Reaction::Nothing,
            }
        },
        RoomEvent::Other => Reaction::Nothing,
    }
}

} // verus!
