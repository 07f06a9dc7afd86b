use tick_bridge::forward_connected;
use tick_bridge::forward_connection_error;
use tick_bridge::forward_delete;
use tick_bridge::forward_disconnected;
use tick_bridge::forward_insert;
use tick_bridge::forward_insert_update;
use tick_bridge::forward_reducer_result;
use tick_bridge::forward_update;
use tick_bridge::ChannelKind;
use tick_bridge::ChannelModel;
use tick_bridge::ConfigError;
use tick_bridge::Entity;
use tick_bridge::EventBus;
use tick_bridge::Notification;
use tick_bridge::Vec2;

fn row(id: u32) -> Entity {
    Entity { entity_id: id, position: Vec2 { x: 1, y: 2 }, owner_identity: 9 }
}

#[test]
fn registering_the_same_kind_twice_fails_fast() {
    let mut bus = EventBus::new();
    assert!(bus.on_insert().is_ok());
    assert!(matches!(bus.on_insert(), Err(ConfigError::DuplicateRegistration)));
    assert!(matches!(
        bus.add_event_channel(ChannelKind::RowInserted),
        Err(ConfigError::DuplicateRegistration)
    ));
    assert_eq!(bus.channels.len(), 1);
}

#[test]
fn each_registration_helper_installs_its_own_kind_once() {
    let mut bus = EventBus::new();
    assert!(bus.on_insert().is_ok());
    assert!(bus.on_delete().is_ok());
    assert!(bus.on_update().is_ok());
    assert!(bus.on_insert_update().is_ok());
    assert!(bus.reducer_event().is_ok());
    assert_eq!(bus.channels.len(), 5);
    assert!(bus.on_delete().is_err());
    assert!(bus.reducer_event().is_err());
    assert_eq!(bus.channels.len(), 5);
}

#[test]
fn drain_forwards_sent_notifications_in_order() {
    let mut bus = EventBus::new();
    let tx = bus.on_insert().unwrap();
    forward_insert(&tx, row(1)).unwrap();
    forward_insert(&tx, row(2)).unwrap();
    forward_insert(&tx, row(3)).unwrap();
    let n = bus.drain_all();
    assert_eq!(n, 3);
    let events = bus.events_for(ChannelKind::RowInserted).unwrap();
    assert_eq!(events.len(), 3);
    for (i, ev) in events.iter().enumerate() {
        match ev {
            Notification::Inserted(insert) => assert_eq!(insert.row.entity_id, i as u32 + 1),
            other => panic!("unexpected notification: {:?}", other),
        }
    }
}

#[test]
fn drain_is_idempotent_when_empty() {
    let mut bus = EventBus::new();
    let tx = bus.on_insert().unwrap();
    assert_eq!(bus.drain_all(), 0);
    assert_eq!(bus.drain_all(), 0);
    assert_eq!(bus.events_for(ChannelKind::RowInserted).unwrap().len(), 0);
    forward_insert(&tx, row(1)).unwrap();
    assert_eq!(bus.drain_all(), 1);
    assert_eq!(bus.drain_all(), 0);
    assert_eq!(bus.drain_all(), 0);
    assert_eq!(bus.events_for(ChannelKind::RowInserted).unwrap().len(), 1);
}

#[test]
fn model_channel_drain_is_idempotent_when_empty() {
    let mut channel = ChannelModel::new();
    assert_eq!(channel.drain().len(), 0);
    assert_eq!(channel.drain().len(), 0);
    channel.send(Notification::ReducerResult(tick_bridge::ReducerResultEvent::new(8)));
    assert_eq!(channel.drain().len(), 1);
    assert_eq!(channel.drain().len(), 0);
}

#[test]
fn send_on_unregistered_channel_fails_as_configuration_error() {
    let mut bus = EventBus::new();
    let tx = bus.on_insert().unwrap();
    drop(bus);
    assert_eq!(forward_insert(&tx, row(1)), Err(ConfigError::SendFailed));
}

#[test]
fn every_forwarder_builds_its_own_notification() {
    let mut bus = EventBus::new();
    let tx_connected = bus.add_event_channel(ChannelKind::Connected).unwrap();
    let tx_disconnected = bus.add_event_channel(ChannelKind::Disconnected).unwrap();
    let tx_error = bus.add_event_channel(ChannelKind::ConnectionError).unwrap();
    let tx_insert = bus.on_insert().unwrap();
    let tx_delete = bus.on_delete().unwrap();
    let tx_update = bus.on_update().unwrap();
    let tx_upsert = bus.on_insert_update().unwrap();
    let tx_reducer = bus.reducer_event().unwrap();

    forward_connected(&tx_connected).unwrap();
    forward_disconnected(&tx_disconnected, Some("gone".to_string())).unwrap();
    forward_connection_error(&tx_error, "refused".to_string()).unwrap();
    forward_insert(&tx_insert, row(1)).unwrap();
    forward_delete(&tx_delete, row(2)).unwrap();
    forward_update(&tx_update, row(3), row(4)).unwrap();
    forward_insert_update(&tx_upsert, None, row(5)).unwrap();
    forward_insert_update(&tx_upsert, Some(row(5)), row(6)).unwrap();
    forward_reducer_result(&tx_reducer, 42).unwrap();

    assert_eq!(bus.drain_all(), 9);

    let connected = bus.events_for(ChannelKind::Connected).unwrap();
    assert!(matches!(connected[0], Notification::Connected(_)));

    let disconnected = bus.events_for(ChannelKind::Disconnected).unwrap();
    match &disconnected[0] {
        Notification::Disconnected(ev) => assert_eq!(ev.err.as_deref(), Some("gone")),
        other => panic!("unexpected notification: {:?}", other),
    }

    let errors = bus.events_for(ChannelKind::ConnectionError).unwrap();
    match &errors[0] {
        Notification::ConnectionError(ev) => assert_eq!(ev.err, "refused"),
        other => panic!("unexpected notification: {:?}", other),
    }

    let inserts = bus.events_for(ChannelKind::RowInserted).unwrap();
    assert!(matches!(&inserts[0], Notification::Inserted(ev) if ev.row.entity_id == 1));

    let deletes = bus.events_for(ChannelKind::RowDeleted).unwrap();
    assert!(matches!(&deletes[0], Notification::Deleted(ev) if ev.row.entity_id == 2));

    let updates = bus.events_for(ChannelKind::RowUpdated).unwrap();
    assert!(matches!(
        &updates[0],
        Notification::Updated(ev) if ev.old.entity_id == 3 && ev.new.entity_id == 4
    ));

    let upserts = bus.events_for(ChannelKind::RowInsertedOrUpdated).unwrap();
    assert!(matches!(
        &upserts[0],
        Notification::InsertedOrUpdated(ev) if ev.old.is_none() && ev.new.entity_id == 5
    ));
    assert!(matches!(
        &upserts[1],
        Notification::InsertedOrUpdated(ev)
            if matches!(&ev.old, Some(prev) if prev.entity_id == 5) && ev.new.entity_id == 6
    ));

    let reducers = bus.events_for(ChannelKind::ReducerResult).unwrap();
    assert!(matches!(&reducers[0], Notification::ReducerResult(ev) if ev.result == 42));
}

#[test]
fn each_constructor_builds_its_own_variant() {
    assert!(matches!(Notification::connected(), Notification::Connected(_)));
    assert!(matches!(
        Notification::disconnected(None),
        Notification::Disconnected(ev) if ev.err.is_none()
    ));
    assert!(matches!(
        Notification::connection_error("refused".to_string()),
        Notification::ConnectionError(ev) if ev.err == "refused"
    ));
    assert!(matches!(
        Notification::inserted(row(1)),
        Notification::Inserted(ev) if ev.row == row(1)
    ));
    assert!(matches!(
        Notification::deleted(row(2)),
        Notification::Deleted(ev) if ev.row == row(2)
    ));
    assert!(matches!(
        Notification::updated(row(3), row(4)),
        Notification::Updated(ev) if ev.old == row(3) && ev.new == row(4)
    ));
    assert!(matches!(
        Notification::inserted_or_updated(Some(row(5)), row(6)),
        Notification::InsertedOrUpdated(ev) if ev.old == Some(row(5)) && ev.new == row(6)
    ));
    assert!(matches!(
        Notification::reducer_result(11),
        Notification::ReducerResult(ev) if ev.result == 11
    ));
}

#[test]
fn forward_batch_appends_exactly_the_batch_in_order() {
    let mut bus = EventBus::new();
    let _tx = bus.on_insert().unwrap();
    let n1 = bus.channels[0].forward_batch(vec![
        Notification::inserted(row(1)),
        Notification::inserted(row(2)),
    ]);
    assert_eq!(n1, 2);
    let n2 = bus.channels[0].forward_batch(vec![Notification::inserted(row(3))]);
    assert_eq!(n2, 1);
    let n3 = bus.channels[0].forward_batch(vec![]);
    assert_eq!(n3, 0);
    let events = bus.events_for(ChannelKind::RowInserted).unwrap();
    assert_eq!(events.len(), 3);
    for (i, ev) in events.iter().enumerate() {
        assert!(matches!(ev, Notification::Inserted(insert) if insert.row.entity_id == i as u32 + 1));
    }
}

#[test]
fn events_for_unregistered_kind_is_none() {
    let bus = EventBus::new();
    assert!(bus.events_for(ChannelKind::RowDeleted).is_none());
}
