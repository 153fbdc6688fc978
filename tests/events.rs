use amiya::events::{Event, EventManager};

#[test]
fn test_event_manager_creation() {
    let manager = EventManager::new(10);
    assert_eq!(manager.subscriber_count(), 0);
}

#[test]
fn test_event_subscription() {
    let manager = EventManager::new(10);
    let _receiver = manager.subscribe();
    assert_eq!(manager.subscriber_count(), 1);
}

#[test]
fn test_event_emission() {
    let mut manager = EventManager::new(10);
    let mut receiver = manager.subscribe();

    manager.emit(Event::VolumeChanged { level: 75, muted: false });

    let received = receiver.try_recv();
    assert!(received.is_ok());

    if let Ok(Event::VolumeChanged { level, muted }) = received {
        assert_eq!(level, 75);
        assert_eq!(muted, false);
    } else {
        panic!("Expected VolumeChanged event");
    }
}

#[test]
fn test_multiple_subscribers() {
    let mut manager = EventManager::new(10);
    let mut receiver1 = manager.subscribe();
    let mut receiver2 = manager.subscribe();

    assert_eq!(manager.subscriber_count(), 2);

    manager.emit(Event::WorkspaceChanged { id: 2 });

    assert!(receiver1.try_recv().is_ok());
    assert!(receiver2.try_recv().is_ok());
}

#[test]
fn test_event_clone() {
    let event = Event::VolumeChanged { level: 50, muted: true };

    let cloned = event.clone();
    match (event, cloned) {
        (Event::VolumeChanged { level: l1, muted: m1 }, Event::VolumeChanged { level: l2, muted: m2 }) => {
            assert_eq!(l1, l2);
            assert_eq!(m1, m2);
        }
        _ => panic!("Event clone failed"),
    }
}

#[test]
fn publish_without_subscribers_is_a_no_op() {
    let mut manager = EventManager::default();
    manager.emit(Event::WifiNetworkDisconnected);
    manager.emit(Event::TemperatureChanged { celsius: 40 });
    assert_eq!(manager.subscriber_count(), 0);
}

#[test]
fn late_subscriber_sees_only_later_events() {
    let mut manager = EventManager::new(16);
    for id in 0..3 {
        manager.emit(Event::WorkspaceChanged { id });
    }
    let mut late = manager.subscribe();
    assert!(late.try_recv().is_err());
    manager.emit(Event::WorkspaceChanged { id: 7 });
    manager.emit(Event::WorkspaceChanged { id: 8 });
    match late.try_recv() {
        Ok(Event::WorkspaceChanged { id }) => assert_eq!(id, 7),
        other => panic!("unexpected {:?}", other),
    }
    match late.try_recv() {
        Ok(Event::WorkspaceChanged { id }) => assert_eq!(id, 8),
        other => panic!("unexpected {:?}", other),
    }
    assert!(late.try_recv().is_err());
}

#[test]
fn shared_handles_publish_on_one_bus() {
    let manager = EventManager::new(4);
    let mut rx = manager.subscribe();
    let mut other = manager.share();
    other.emit(Event::BrightnessChanged { level: 3 });
    assert!(matches!(rx.try_recv(), Ok(Event::BrightnessChanged { level: 3 })));
}

#[test]
fn lagging_subscriber_loses_oldest_events() {
    let mut manager = EventManager::new(2);
    let mut rx = manager.subscribe();
    for id in 0..5 {
        manager.emit(Event::WorkspaceChanged { id });
    }
    assert!(rx.try_recv().is_err());
    match rx.try_recv() {
        Ok(Event::WorkspaceChanged { id }) => assert_eq!(id, 3),
        other => panic!("unexpected {:?}", other),
    }
}
