use tick_bridge::create_send_event_action;
use tick_bridge::enter_game;
use tick_bridge::enter_game_decision;
use tick_bridge::init;
use tick_bridge::process_tick;
use tick_bridge::receive_player_input;
use tick_bridge::receive_player_input_decision;
use tick_bridge::schedule_bevy_action;
use tick_bridge::ChannelKind;
use tick_bridge::DbCommand;
use tick_bridge::DbState;
use tick_bridge::execute_command;
use tick_bridge::forward_insert;
use tick_bridge::CoreState;
use tick_bridge::Entity;
use tick_bridge::InstantiateEntityEvent;
use tick_bridge::Notification;
use tick_bridge::PendingAction;
use tick_bridge::PlayerInputEvent;
use tick_bridge::SharedPendingQueue;
use tick_bridge::SimEvent;
use tick_bridge::Vec2;

fn ticked(state: &mut Option<CoreState>, queue: &SharedPendingQueue) -> tick_bridge::TickSummary {
    process_tick(state, queue).expect("tick should succeed on initialized state")
}

#[test]
fn tick_on_uninitialized_state_fails_and_changes_nothing() {
    let queue = SharedPendingQueue::new();
    let mut state: Option<CoreState> = None;
    let r = process_tick(&mut state, &queue);
    assert!(r.is_err());
    assert!(state.is_none());
}

#[test]
fn initialization_starts_entity_indices_at_one() {
    let (core, _senders, _pending) = init();
    assert_eq!(core.sim.next_entity_index, 1);
    assert_eq!(core.sim.entities.len(), 0);
    assert_eq!(core.db.count(), 0);
    assert_eq!(core.bus.channels.len(), 3);
}

#[test]
fn sent_insert_notification_surfaces_on_the_next_tick() {
    let (mut core, _senders, _pending) = init();
    let tx = core.bus.on_insert().unwrap();
    let queue = SharedPendingQueue::new();
    let r1 = Entity { entity_id: 7, position: Vec2 { x: 1, y: 2 }, owner_identity: 9 };
    forward_insert(&tx, r1).unwrap();
    let mut state = Some(core);
    let summary = ticked(&mut state, &queue);
    assert_eq!(summary.notifications_forwarded, 1);
    let core = state.as_ref().unwrap();
    let events = core.bus.events_for(ChannelKind::RowInserted).unwrap();
    assert_eq!(events.len(), 1);
    assert!(matches!(
        &events[0],
        Notification::Inserted(ev)
            if ev.row.entity_id == 7 && ev.row.position == Vec2 { x: 1, y: 2 }
    ));
}

#[test]
fn queued_create_executes_in_the_same_tick_and_later_actions_see_it() {
    let (mut core, _senders, _pending) = init();
    core.sim.next_entity_index = 42;
    let queue = SharedPendingQueue::new();
    schedule_bevy_action(
        &queue,
        create_send_event_action(SimEvent::Instantiate(InstantiateEntityEvent {
            owner_identity: 5,
            position: Vec2 { x: 3, y: 4 },
        })),
    );
    let mut state = Some(core);
    let summary = ticked(&mut state, &queue);
    assert!(!summary.actions_skipped);
    assert_eq!(summary.actions_executed, 1);
    // the spawn queued a creation and a position update, drained this same tick
    assert_eq!(summary.commands_processed, 2);
    {
        let core = state.as_ref().unwrap();
        assert_eq!(core.db.count(), 1);
        assert_eq!(core.db.rows[0].entity_id, 42);
        assert_eq!(core.db.rows[0].position, Vec2 { x: 3, y: 4 });
        assert_eq!(core.db.rows[0].owner_identity, 5);
    }
    // a later tick's action referencing the new id sees a consistent state
    schedule_bevy_action(
        &queue,
        create_send_event_action(SimEvent::PlayerInput(PlayerInputEvent {
            player_id: 42,
            direction: Vec2 { x: 1, y: 1 },
        })),
    );
    let summary2 = ticked(&mut state, &queue);
    assert_eq!(summary2.actions_executed, 1);
    assert_eq!(summary2.commands_processed, 1);
    let core = state.as_ref().unwrap();
    assert_eq!(core.sim.entities.len(), 1);
    assert_eq!(core.db.rows[0].position, Vec2 { x: 4, y: 5 });
}

#[test]
fn one_drain_observes_every_action_from_both_producers() {
    let (core, _senders, _pending) = init();
    let queue = SharedPendingQueue::new();
    for _ in 0..100 {
        schedule_bevy_action(
            &queue,
            create_send_event_action(SimEvent::Instantiate(InstantiateEntityEvent {
                owner_identity: 1,
                position: Vec2 { x: 0, y: 0 },
            })),
        );
    }
    for _ in 0..50 {
        schedule_bevy_action(
            &queue,
            create_send_event_action(SimEvent::Instantiate(InstantiateEntityEvent {
                owner_identity: 2,
                position: Vec2 { x: 0, y: 0 },
            })),
        );
    }
    let mut state = Some(core);
    let summary = ticked(&mut state, &queue);
    assert!(!summary.actions_skipped);
    assert_eq!(summary.actions_executed, 150);
    let core = state.as_ref().unwrap();
    // each action spawned exactly one entity, ids one through 150
    assert_eq!(core.sim.entities.len(), 150);
    assert_eq!(core.db.count(), 150);
    for (i, e) in core.sim.entities.iter().enumerate() {
        assert_eq!(e.id, i as u32 + 1);
    }
    // nothing left to drain afterwards
    let summary2 = ticked(&mut state, &queue);
    assert_eq!(summary2.actions_executed, 0);
    assert_eq!(summary2.commands_processed, 0);
}

#[test]
fn duplicate_registration_aborts_wiring_before_ticking() {
    let (mut core, _senders, _pending) = init();
    assert!(core.bus.on_insert().is_ok());
    let second = core.bus.on_insert();
    assert!(second.is_err());
    // the lifecycle kinds installed at initialization cannot be installed again
    assert!(core.bus.add_event_channel(ChannelKind::Connected).is_err());
    assert!(core.bus.add_event_channel(ChannelKind::Disconnected).is_err());
    assert!(core.bus.add_event_channel(ChannelKind::ConnectionError).is_err());
}

#[test]
fn enter_game_spawns_once_per_identity() {
    let (core, _senders, _pending) = init();
    let queue = SharedPendingQueue::new();
    let mut state = Some(core);
    {
        let core = state.as_ref().unwrap();
        assert!(enter_game(&core.db, &queue, 77, "doodoo".to_string()).is_ok());
    }
    let summary = ticked(&mut state, &queue);
    assert_eq!(summary.actions_executed, 1);
    {
        let core = state.as_ref().unwrap();
        assert_eq!(core.db.count(), 1);
        assert_eq!(core.db.rows[0].owner_identity, 77);
        assert_eq!(core.db.rows[0].position, Vec2 { x: 0, y: 0 });
        // the same identity asking again is ignored
        assert!(enter_game(&core.db, &queue, 77, "doodoo".to_string()).is_ok());
    }
    let summary2 = ticked(&mut state, &queue);
    assert_eq!(summary2.actions_executed, 0);
    assert_eq!(state.as_ref().unwrap().db.count(), 1);
}

#[test]
fn player_input_moves_exactly_the_senders_entity() {
    let (core, _senders, _pending) = init();
    let queue = SharedPendingQueue::new();
    let mut state = Some(core);
    {
        let core = state.as_ref().unwrap();
        enter_game(&core.db, &queue, 7, "one".to_string()).unwrap();
        enter_game(&core.db, &queue, 8, "two".to_string()).unwrap();
    }
    ticked(&mut state, &queue);
    {
        let core = state.as_ref().unwrap();
        assert_eq!(core.db.count(), 2);
        assert!(receive_player_input(&core.db, &queue, 7, 10, -3).is_ok());
        // input from an identity without an entity is ignored
        assert!(receive_player_input(&core.db, &queue, 99, 5, 5).is_ok());
    }
    let summary = ticked(&mut state, &queue);
    assert_eq!(summary.actions_executed, 1);
    let core = state.as_ref().unwrap();
    let moved = core.db.find_row(1).unwrap();
    assert_eq!(moved.owner_identity, 7);
    assert_eq!(moved.position, Vec2 { x: 10, y: -3 });
    let still = core.db.find_row(2).unwrap();
    assert_eq!(still.owner_identity, 8);
    assert_eq!(still.position, Vec2 { x: 0, y: 0 });
}

#[test]
fn decisions_depend_exactly_on_the_owners_row() {
    let mut db = DbState::new();
    assert!(enter_game_decision(&db, 5).is_some());
    assert!(receive_player_input_decision(&db, 5, 1, 1).is_none());
    execute_command(
        &mut db,
        &DbCommand::CreateEntity {
            entity_id: 3,
            position: Vec2 { x: 0, y: 0 },
            owner_identity: 5,
        },
    );
    assert!(enter_game_decision(&db, 5).is_none());
    let action = receive_player_input_decision(&db, 5, 2, -2).unwrap();
    assert_eq!(
        action,
        PendingAction::SendEvent(SimEvent::PlayerInput(PlayerInputEvent {
            player_id: 3,
            direction: Vec2 { x: 2, y: -2 },
        }))
    );
}
