//! Events that a session reports to its host, and the queue that carries them.

use vstd::prelude::*;

verus! {

/// What a session reports to the host, one value per occurrence.
#[derive(Clone, Debug, PartialEq, Eq)]
pub enum InternalEvent {
    /// The transport has connected to the room.
    RoomConnected,
    /// The session has ended.
    RoomDisconnected,
    /// A remote participant is in the room; holds its identity.
    ParticipantJoined(String),
    /// A remote participant has left; holds its identity.
    ParticipantLeft(String),
    /// One decoded audio frame of a participant: its identity and the stereo
    /// frame as pairs of signed 16-bit samples, left and right.
    AudioFrame(String, Vec<(i16, i16)>),
    /// A chat message: sender identity, text and timestamp.
    ChatMessage(String, String, u64),
    /// A participant published a display name: identity and name.
    ParticipantMetadataChanged(String, String),
    /// A failure that the host should surface; holds the message.
    Error(String),
}

/// The mathematical content of an [`InternalEvent`].
pub enum EventView {
    RoomConnected,
    RoomDisconnected,
    ParticipantJoined(Seq<char>),
    ParticipantLeft(Seq<char>),
    AudioFrame(Seq<char>, Seq<(i16, i16)>),
    ChatMessage(Seq<char>, Seq<char>, u64),
    ParticipantMetadataChanged(Seq<char>, Seq<char>),
    Error(Seq<char>),
}

impl View for InternalEvent {
    type V = EventView;

    open spec fn view(&self) -> EventView {
        match self {
            InternalEvent::RoomConnected => EventView::RoomConnected,
            InternalEvent::RoomDisconnected => EventView::RoomDisconnected,
            InternalEvent::ParticipantJoined(id) => EventView::ParticipantJoined(id@),
            InternalEvent::ParticipantLeft(id) => EventView::ParticipantLeft(id@),
            InternalEvent::AudioFrame(id, frame) => EventView::AudioFrame(id@, frame@),
            InternalEvent::ChatMessage(sender, text, timestamp) => EventView::ChatMessage(
                sender@,
                text@,
                *timestamp,
            ),
            InternalEvent::ParticipantMetadataChanged(id, name) => {
                EventView::ParticipantMetadataChanged(id@, name@)
            },
            InternalEvent::Error(message) => EventView::Error(message@),
        }
    }
}

/// The contents of a list of events, in order.
pub open spec fn events_view(events: Seq<InternalEvent>) -> Seq<EventView> {
    events.map_values(|e: InternalEvent| e@)
}

/// An unbounded first-in, first-out queue of events. Sending never waits and
/// draining never waits: it hands over whatever is there, possibly nothing.
pub struct EventQueue {
    pending: Vec<InternalEvent>,
}

impl View for EventQueue {
    type V = Seq<EventView>;

    closed spec fn view(&self) -> Seq<EventView> {
        events_view(self.pending@)
    }
}

impl EventQueue {
    /// A queue that holds nothing.
    pub fn new() -> (queue: EventQueue)
        ensures
            queue@ == Seq::<EventView>::empty(),
    {
        let queue = EventQueue { pending: Vec::new() };
        assert(queue@ =~= Seq::<EventView>::empty());
        queue
    }

    /// Puts `event` behind everything that is already waiting.
    pub fn send(&mut self, event: InternalEvent)
        ensures
            final(self)@ == old(self)@.push(event@),
    {
        self.pending.push(event);
        assert(self@ =~= old(self)@.push(event@));
    }

    /// Puts `events` behind everything that is already waiting, in their order.
    pub fn send_all(&mut self, events: Vec<InternalEvent>)
        ensures
            final(self)@ == old(self)@ + events_view(events@),
    {
        let ghost sent: Seq<InternalEvent> = events@;
        let mut events = events;
        self.pending.append(&mut events);
        assert(self@ =~= old(self)@ + events_view(sent));
    }

    /// Takes out everything that is waiting, oldest first, and leaves the
    /// queue empty. With nothing waiting the result is empty.
    pub fn drain(&mut self) -> (events: Vec<InternalEvent>)
        ensures
            events_view(events@) == old(self)@,
            final(self)@ == Seq::<EventView>::empty(),
            old(self)@.len() == 0 ==> events@.len() == 0,
    {
        let mut events: Vec<InternalEvent> = Vec::new();
        std::mem::swap(&mut self.pending, &mut events);
        assert(self@ =~= Seq::<EventView>::empty());
        events
    }

    /// Number of events that are waiting.
    pub fn len(&self) -> (n: usize)
        ensures
            n == self@.len(),
    {
        self.pending.len()
    }

    /// Whether nothing is waiting.
    pub fn is_empty(&self) -> (b: bool)
        ensures
            b == (self@.len() == 0),
    {
        self.pending.len() == 0
    }

    /// Forgets everything that is waiting.
    pub fn clear(&mut self)
        ensures
            final(self)@ == Seq::<EventView>::empty(),
    {
        self.pending.clear();
        assert(self@ =~= Seq::<EventView>::empty());
    }
}

} // verus!
