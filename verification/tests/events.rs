use godot_livekit::event::{EventQueue, InternalEvent};

#[test]
fn a_new_queue_is_empty() {
    let mut queue = EventQueue::new();
    assert!(queue.is_empty());
    assert_eq!(queue.len(), 0);
    assert_eq!(queue.drain(), vec![]);
}

#[test]
fn drain_hands_over_in_sending_order() {
    let mut queue = EventQueue::new();
    queue.send(InternalEvent::RoomConnected);
    queue.send(InternalEvent::ParticipantJoined("alice".to_string()));
    queue.send(InternalEvent::AudioFrame("alice".to_string(), vec![(1, 1), (2, 2)]));
    queue.send(InternalEvent::ParticipantLeft("alice".to_string()));
    assert_eq!(queue.len(), 4);
    assert!(!queue.is_empty());
    assert_eq!(
        queue.drain(),
        vec![
            InternalEvent::RoomConnected,
            InternalEvent::ParticipantJoined("alice".to_string()),
            InternalEvent::AudioFrame("alice".to_string(), vec![(1, 1), (2, 2)]),
            InternalEvent::ParticipantLeft("alice".to_string()),
        ]
    );
}

#[test]
fn drain_leaves_the_queue_empty() {
    let mut queue = EventQueue::new();
    queue.send(InternalEvent::Error("x".to_string()));
    assert_eq!(queue.drain().len(), 1);
    assert!(queue.is_empty());
    assert_eq!(queue.drain(), vec![]);
    queue.send(InternalEvent::RoomDisconnected);
    assert_eq!(queue.drain(), vec![InternalEvent::RoomDisconnected]);
}

#[test]
fn send_all_keeps_the_order() {
    let mut queue = EventQueue::new();
    queue.send(InternalEvent::RoomConnected);
    queue.send_all(vec![
        InternalEvent::ChatMessage("a".to_string(), "one".to_string(), 1),
        InternalEvent::ChatMessage("a".to_string(), "two".to_string(), 2),
    ]);
    queue.send_all(vec![]);
    queue.send(InternalEvent::ParticipantMetadataChanged("a".to_string(), "Ann".to_string()));
    assert_eq!(
        queue.drain(),
        vec![
            InternalEvent::RoomConnected,
            InternalEvent::ChatMessage("a".to_string(), "one".to_string(), 1),
            InternalEvent::ChatMessage("a".to_string(), "two".to_string(), 2),
            InternalEvent::ParticipantMetadataChanged("a".to_string(), "Ann".to_string()),
        ]
    );
}

#[test]
fn clear_forgets_what_is_waiting() {
    let mut queue = EventQueue::new();
    queue.send(InternalEvent::RoomConnected);
    queue.send(InternalEvent::RoomDisconnected);
    queue.clear();
    assert!(queue.is_empty());
    assert_eq!(queue.drain(), vec![]);
}

#[test]
fn many_events_are_kept() {
    let mut queue = EventQueue::new();
    for i in 0..10_000u64 {
        queue.send(InternalEvent::ChatMessage("s".to_string(), "m".to_string(), i));
    }
    let events = queue.drain();
    assert_eq!(events.len(), 10_000);
    for (i, event) in events.iter().enumerate() {
        assert_eq!(*event, InternalEvent::ChatMessage("s".to_string(), "m".to_string(), i as u64));
    }
}
