use tick_bridge::create_send_event_action;
use tick_bridge::process_bevy_actions;
use tick_bridge::schedule_bevy_action;
use tick_bridge::DrainOutcome;
use tick_bridge::InstantiateEntityEvent;
use tick_bridge::PendingQueue;
use tick_bridge::PlayerInputEvent;
use tick_bridge::SharedPendingQueue;
use tick_bridge::SimEvent;
use tick_bridge::SimState;
use tick_bridge::Vec2;

fn spawn_action(owner: u64) -> tick_bridge::PendingAction {
    create_send_event_action(SimEvent::Instantiate(InstantiateEntityEvent {
        owner_identity: owner,
        position: Vec2 { x: 0, y: 0 },
    }))
}

fn input_action(player: u32, x: i64, y: i64) -> tick_bridge::PendingAction {
    create_send_event_action(SimEvent::PlayerInput(PlayerInputEvent {
        player_id: player,
        direction: Vec2 { x, y },
    }))
}

#[test]
fn drain_executes_every_action_once_in_fifo_order() {
    let mut q = PendingQueue::new();
    q.schedule(input_action(1, 10, 0));
    q.schedule(spawn_action(7));
    q.schedule(input_action(2, 0, 20));
    let mut sim = SimState::new();
    let r = q.drain_and_execute(&mut sim);
    assert_eq!(r, DrainOutcome::Executed(3));
    assert_eq!(q.items.len(), 0);
    assert_eq!(sim.instantiate_events.len(), 1);
    assert_eq!(sim.instantiate_events[0].owner_identity, 7);
    assert_eq!(sim.input_events.len(), 2);
    assert_eq!(sim.input_events[0].player_id, 1);
    assert_eq!(sim.input_events[1].player_id, 2);
}

#[test]
fn contended_drain_skips_and_leaves_queue_unchanged() {
    let mut q = PendingQueue::new();
    q.schedule(spawn_action(1));
    q.schedule(spawn_action(2));
    q.schedule(spawn_action(3));
    q.acquire();
    let mut sim = SimState::new();
    let r = q.drain_and_execute(&mut sim);
    assert_eq!(r, DrainOutcome::Skipped);
    assert_eq!(q.items.len(), 3);
    assert_eq!(sim.instantiate_events.len(), 0);
    q.release();
    let r2 = q.drain_and_execute(&mut sim);
    assert_eq!(r2, DrainOutcome::Executed(3));
    assert_eq!(q.items.len(), 0);
    assert_eq!(sim.instantiate_events.len(), 3);
}

#[test]
fn contended_drain_retries_next_tick_without_loss_or_duplication() {
    let mut q = PendingQueue::new();
    q.schedule(input_action(5, 1, 1));
    q.acquire();
    let mut sim = SimState::new();
    assert_eq!(q.drain_and_execute(&mut sim), DrainOutcome::Skipped);
    assert_eq!(q.drain_and_execute(&mut sim), DrainOutcome::Skipped);
    q.release();
    assert_eq!(q.drain_and_execute(&mut sim), DrainOutcome::Executed(1));
    assert_eq!(q.drain_and_execute(&mut sim), DrainOutcome::Executed(0));
    assert_eq!(sim.input_events.len(), 1);
}

#[test]
fn shared_queue_delivers_every_scheduled_action() {
    let queue = SharedPendingQueue::new();
    let first_producer: u64 = 100;
    let second_producer: u64 = 50;
    for i in 0..first_producer {
        schedule_bevy_action(&queue, input_action(1, i as i64, 0));
    }
    for i in 0..second_producer {
        schedule_bevy_action(&queue, input_action(2, 0, i as i64));
    }
    let mut sim = SimState::new();
    let r = process_bevy_actions(&queue, &mut sim);
    assert_eq!(r, DrainOutcome::Executed(150));
    assert_eq!(sim.input_events.len(), 150);
    let from_first: Vec<&PlayerInputEvent> =
        sim.input_events.iter().filter(|e| e.player_id == 1).collect();
    let from_second: Vec<&PlayerInputEvent> =
        sim.input_events.iter().filter(|e| e.player_id == 2).collect();
    assert_eq!(from_first.len(), 100);
    assert_eq!(from_second.len(), 50);
    for (i, e) in from_first.iter().enumerate() {
        assert_eq!(e.direction.x, i as i64);
    }
    for (i, e) in from_second.iter().enumerate() {
        assert_eq!(e.direction.y, i as i64);
    }
    let r2 = process_bevy_actions(&queue, &mut sim);
    assert_eq!(r2, DrainOutcome::Executed(0));
    assert_eq!(sim.input_events.len(), 150);
}
