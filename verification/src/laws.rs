//! What holds of every session, whatever the host and the transport do.
//!
//! Each statement here is about the state machine of [`crate::model`], which
//! the manager is proved to follow step by step, so each holds of every
//! manager.

use crate::audio::{frames_of, lemma_framing_counts, lemma_pushes_accumulate, push_all, remainder_of};
use crate::event::EventView;
use crate::model::SessionView;
use crate::room::{
    connect_failure, connected_events, roster_events, ParticipantView, RoomEventView,
};
use vstd::prelude::*;

verus! {

/// Every step leaves a well-formed session well formed.
pub proof fn lemma_steps_keep_well_formed(
    v: SessionView,
    session: u64,
    rate: i32,
    text: Seq<char>,
    participants: Seq<ParticipantView>,
    event: RoomEventView,
    samples: Seq<i16>,
)
    requires
        v.well_formed(),
    ensures
        SessionView::initial().well_formed(),
        v.set_sample_rate(rate).well_formed(),
        v.connect().well_formed(),
        v.disconnect().well_formed(),
        v.room_connected(session, text, participants).well_formed(),
        v.connect_failed(session, text).well_formed(),
        v.publish_failed(session, text).well_formed(),
        v.room_event(session, event).well_formed(),
        v.audio_frame(session, text, samples).well_formed(),
        v.session_ended(session).well_formed(),
        v.push_audio(samples).well_formed(),
        v.polled().well_formed(),
{
    lemma_framing_counts(v.residual + samples, v.frame_len());
}

/// A poll with nothing pending hands over nothing and changes nothing.
pub proof fn lemma_poll_with_nothing_pending(v: SessionView)
    requires
        v.pending.len() == 0,
    ensures
        v.polled() == v,
{
    assert(v.polled().pending =~= v.pending);
}

/// After a poll nothing is pending, so a second poll right behind it hands
/// over nothing.
pub proof fn lemma_poll_empties(v: SessionView)
    ensures
        v.polled().pending.len() == 0,
        v.polled().polled() == v.polled(),
{
}

/// A disconnect while idle does nothing: no task is signalled, no event is
/// added, the connected flag stays down, and the session is as it was.
pub proof fn lemma_disconnect_while_idle(v: SessionView)
    requires
        v.state is Idle,
    ensures
        !v.disconnect_signals(),
        v.disconnect() == v,
        v.disconnect().pending == v.pending,
        !v.disconnect().is_connected(),
{
}

/// A disconnect never signals twice: once asked to stop, a session answers
/// every further request with no signal and no change.
pub proof fn lemma_disconnect_signals_once(v: SessionView)
    ensures
        !v.disconnect().disconnect_signals(),
        v.disconnect().disconnect() == v.disconnect(),
{
}

/// A connect that fails at the transport leaves exactly one event for the
/// host, the error that carries the cause, and the session idle with the
/// connected flag down.
pub proof fn lemma_failed_connect(v: SessionView, cause: Seq<char>)
    ensures
        ({
            let attempt = v.connect();
            let failed = attempt.connect_failed(attempt.session, cause);
            &&& failed.pending == seq![connect_failure(cause)]
            &&& failed.state is Idle
            &&& !failed.is_connected()
        }),
{
    let attempt = v.connect();
    let failed = attempt.connect_failed(attempt.session, cause);
    assert(failed.pending =~= seq![connect_failure(cause)]);
}

/// The events that announce the participants of a room hold a join for each
/// of them and nothing about the room itself. At the front stands the join
/// of the first participant.
pub proof fn lemma_roster_announces_participants(participants: Seq<ParticipantView>)
    ensures
        forall|i: int|
            0 <= i < roster_events(participants).len() ==> {
                ||| #[trigger] roster_events(participants)[i] is ParticipantJoined
                ||| roster_events(participants)[i] is ParticipantMetadataChanged
            },
        forall|p: int|
            0 <= p < participants.len() ==> roster_events(participants).contains(
                EventView::ParticipantJoined(#[trigger] participants[p].identity),
            ),
        participants.len() > 0 ==> roster_events(participants).len() > 0 && roster_events(
            participants,
        )[0] == EventView::ParticipantJoined(participants[0].identity),
    decreases participants.len(),
{
    if participants.len() > 0 {
        let earlier = participants.drop_last();
        let last = participants.last();
        lemma_roster_announces_participants(earlier);
        let before = roster_events(earlier);
        let all = roster_events(participants);
        assert forall|p: int| 0 <= p < participants.len() implies all.contains(
            EventView::ParticipantJoined(#[trigger] participants[p].identity),
        ) by {
            if p < earlier.len() {
                let joined = EventView::ParticipantJoined(earlier[p].identity);
                let at = choose|i: int| 0 <= i < before.len() && before[i] == joined;
                assert(all[at] == joined);
            } else {
                assert(all[before.len() as int] == EventView::ParticipantJoined(last.identity));
            }
        }
        if earlier.len() > 0 {
            assert(all[0] == before[0]);
        } else {
            assert(all[0] == EventView::ParticipantJoined(last.identity));
        }
    }
}

/// A connect that succeeds tells the host first that the room is connected
/// and then, in their order, the participants that were already there; the
/// end of the session is not among what it tells. The connected flag is up.
pub proof fn lemma_successful_connect(
    v: SessionView,
    identity: Seq<char>,
    participants: Seq<ParticipantView>,
)
    ensures
        ({
            let attempt = v.connect();
            let up = attempt.room_connected(attempt.session, identity, participants);
            &&& up.is_connected()
            &&& up.state is Connected
            &&& up.pending == seq![EventView::RoomConnected] + roster_events(participants)
            &&& up.pending[0] is RoomConnected
            &&& forall|i: int| 0 <= i < up.pending.len() ==> !(#[trigger] up.pending[i] is RoomDisconnected)
        }),
{
    let attempt = v.connect();
    let up = attempt.room_connected(attempt.session, identity, participants);
    assert(up.pending =~= connected_events(participants));
    lemma_roster_announces_participants(participants);
    assert forall|i: int| 0 <= i < up.pending.len() implies !(#[trigger] up.pending[i] is RoomDisconnected) by {
        if i > 0 {
            assert(up.pending[i] == roster_events(participants)[i - 1]);
        }
    }
}

/// A report under a token other than the current one is dropped: the session
/// is as it was, and no decoding is asked for.
pub proof fn lemma_outdated_reports_are_dropped(
    v: SessionView,
    session: u64,
    text: Seq<char>,
    participants: Seq<ParticipantView>,
    event: RoomEventView,
    samples: Seq<i16>,
)
    requires
        session != v.session,
    ensures
        v.room_connected(session, text, participants) == v,
        v.connect_failed(session, text) == v,
        v.publish_failed(session, text) == v,
        v.room_event(session, event) == v,
        v.decode_request(session, event) is None,
        v.audio_frame(session, text, samples) == v,
        v.session_ended(session) == v,
{
}

/// No step but a poll or a new connect takes an event away or reorders what
/// is pending: the host sees events in the order in which they were reported.
pub proof fn lemma_reports_only_append(
    v: SessionView,
    session: u64,
    rate: i32,
    text: Seq<char>,
    participants: Seq<ParticipantView>,
    event: RoomEventView,
    samples: Seq<i16>,
)
    ensures
        v.pending.is_prefix_of(v.set_sample_rate(rate).pending),
        v.pending.is_prefix_of(v.disconnect().pending),
        v.pending.is_prefix_of(v.room_connected(session, text, participants).pending),
        v.pending.is_prefix_of(v.connect_failed(session, text).pending),
        v.pending.is_prefix_of(v.publish_failed(session, text).pending),
        v.pending.is_prefix_of(v.room_event(session, event).pending),
        v.pending.is_prefix_of(v.audio_frame(session, text, samples).pending),
        v.pending.is_prefix_of(v.session_ended(session).pending),
        v.pending.is_prefix_of(v.push_audio(samples).pending),
{
}

/// The connected flag goes up only when the transport reports success and
/// comes down only when the session ends or a new connect replaces it. In
/// particular nothing that the host pushes, polls or sends moves it.
pub proof fn lemma_connected_flag(
    v: SessionView,
    session: u64,
    rate: i32,
    text: Seq<char>,
    event: RoomEventView,
    samples: Seq<i16>,
)
    ensures
        !SessionView::initial().is_connected(),
        !v.connect().is_connected(),
        v.set_sample_rate(rate).is_connected() == v.is_connected(),
        v.disconnect().is_connected() == v.is_connected(),
        v.connect_failed(session, text).is_connected() == v.is_connected(),
        v.publish_failed(session, text).is_connected() == v.is_connected(),
        v.room_event(session, event).is_connected() == v.is_connected(),
        v.audio_frame(session, text, samples).is_connected() == v.is_connected(),
        v.push_audio(samples).is_connected() == v.is_connected(),
        v.polled().is_connected() == v.is_connected(),
        v.hears_room(session) ==> !v.session_ended(session).is_connected(),
{
}

/// What a chain of pushes does to a session, and the frames that leave, push
/// by push.
pub open spec fn push_audio_all(v: SessionView, pushes: Seq<Seq<i16>>) -> (
    SessionView,
    Seq<Seq<i16>>,
)
    decreases pushes.len(),
{
    if pushes.len() == 0 {
        (v, Seq::empty())
    } else {
        let later = push_audio_all(v.push_audio(pushes.first()), pushes.drop_first());
        (later.0, v.frames_released(pushes.first()) + later.1)
    }
}

/// Local audio while connected: however the host splits its samples over
/// pushes, the frames transmitted are the whole ten-millisecond frames of
/// everything held and pushed, and what is retained is the rest. With `h`
/// samples held before and `t` pushed in all, `(h + t) / frame_len` frames
/// leave and `(h + t) % frame_len` samples stay for the next push.
pub proof fn lemma_local_audio_accumulates(v: SessionView, pushes: Seq<Seq<i16>>)
    requires
        v.well_formed(),
        v.is_connected(),
    ensures
        ({
            let (after, frames) = push_audio_all(v, pushes);
            let total = v.residual + pushes.flatten();
            &&& frames == frames_of(total, v.frame_len())
            &&& after.residual == remainder_of(total, v.frame_len())
            &&& frames.len() == total.len() as int / v.frame_len()
            &&& after.residual.len() == total.len() as int % v.frame_len()
            &&& after == SessionView { residual: after.residual, ..v }
        }),
    decreases pushes.len(),
{
    lemma_push_chain_is_push_all(v, pushes);
    lemma_pushes_accumulate(v.residual, pushes, v.frame_len());
}

/// While connected, a chain of pushes on a session is the chain of pushes on
/// its assembler.
proof fn lemma_push_chain_is_push_all(v: SessionView, pushes: Seq<Seq<i16>>)
    requires
        v.well_formed(),
        v.is_connected(),
    ensures
        push_audio_all(v, pushes).1 == push_all(v.residual, pushes, v.frame_len()).0,
        push_audio_all(v, pushes).0 == (SessionView {
            residual: push_all(v.residual, pushes, v.frame_len()).1,
            ..v
        }),
    decreases pushes.len(),
{
    if pushes.len() > 0 {
        let next = v.push_audio(pushes.first());
        lemma_framing_counts(v.residual + pushes.first(), v.frame_len());
        lemma_push_chain_is_push_all(next, pushes.drop_first());
    }
}

/// Local audio while not connected: a push transmits nothing and leaves the
/// session as it was.
pub proof fn lemma_local_audio_needs_connection(v: SessionView, samples: Seq<i16>)
    requires
        !v.is_connected(),
    ensures
        v.frames_released(samples).len() == 0,
        v.push_audio(samples) == v,
{
}

} // verus!
