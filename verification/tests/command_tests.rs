use tick_bridge::execute_command;
use tick_bridge::process_bevy_commands;
use tick_bridge::CommandOutcome;
use tick_bridge::CommandQueue;
use tick_bridge::DbCommand;
use tick_bridge::DbState;
use tick_bridge::Vec2;

#[test]
fn drain_runs_commands_once_in_fifo_order() {
    let mut queue = CommandQueue::new();
    queue.push(DbCommand::CreateEntity {
        entity_id: 1,
        position: Vec2 { x: 0, y: 0 },
        owner_identity: 10,
    });
    queue.push(DbCommand::UpdatePosition { entity_id: 1, position: Vec2 { x: 5, y: 5 } });
    queue.push(DbCommand::CreateEntity {
        entity_id: 2,
        position: Vec2 { x: 9, y: 9 },
        owner_identity: 20,
    });
    let mut db = DbState::new();
    let outs = process_bevy_commands(&mut queue, &mut db);
    assert_eq!(
        outs,
        vec![CommandOutcome::Created(1), CommandOutcome::Done, CommandOutcome::Created(2)]
    );
    assert_eq!(queue.0.len(), 0);
    assert_eq!(db.rows.len(), 2);
    assert_eq!(db.rows[0].entity_id, 1);
    assert_eq!(db.rows[0].position, Vec2 { x: 5, y: 5 });
    assert_eq!(db.rows[1].entity_id, 2);
    assert_eq!(db.rows[1].position, Vec2 { x: 9, y: 9 });
}

#[test]
fn failed_command_reports_failure_and_mutates_nothing() {
    let mut db = DbState::new();
    let create = DbCommand::CreateEntity {
        entity_id: 3,
        position: Vec2 { x: 1, y: 1 },
        owner_identity: 30,
    };
    assert_eq!(execute_command(&mut db, &create), CommandOutcome::Created(3));
    let duplicate = DbCommand::CreateEntity {
        entity_id: 3,
        position: Vec2 { x: 8, y: 8 },
        owner_identity: 31,
    };
    assert_eq!(execute_command(&mut db, &duplicate), CommandOutcome::Failed);
    assert_eq!(db.rows.len(), 1);
    assert_eq!(db.rows[0].position, Vec2 { x: 1, y: 1 });
    assert_eq!(db.rows[0].owner_identity, 30);
}

#[test]
fn failure_does_not_halt_the_rest_of_the_drain() {
    let mut queue = CommandQueue::new();
    queue.push(DbCommand::CreateEntity {
        entity_id: 1,
        position: Vec2 { x: 0, y: 0 },
        owner_identity: 1,
    });
    queue.push(DbCommand::CreateEntity {
        entity_id: 1,
        position: Vec2 { x: 2, y: 2 },
        owner_identity: 2,
    });
    queue.push(DbCommand::UpdatePosition { entity_id: 1, position: Vec2 { x: 7, y: 7 } });
    let mut db = DbState::new();
    let outs = process_bevy_commands(&mut queue, &mut db);
    assert_eq!(
        outs,
        vec![CommandOutcome::Created(1), CommandOutcome::Failed, CommandOutcome::Done]
    );
    assert_eq!(db.rows.len(), 1);
    assert_eq!(db.rows[0].owner_identity, 1);
    assert_eq!(db.rows[0].position, Vec2 { x: 7, y: 7 });
}

#[test]
fn update_of_absent_row_succeeds_and_changes_nothing() {
    let mut db = DbState::new();
    let update = DbCommand::UpdatePosition { entity_id: 99, position: Vec2 { x: 1, y: 2 } };
    assert_eq!(execute_command(&mut db, &update), CommandOutcome::Done);
    assert_eq!(db.rows.len(), 0);
}

#[test]
fn drain_of_empty_queue_reports_nothing() {
    let mut queue = CommandQueue::new();
    let mut db = DbState::new();
    let outs = process_bevy_commands(&mut queue, &mut db);
    assert_eq!(outs.len(), 0);
    assert_eq!(db.count(), 0);
}

#[test]
fn lookup_finds_exactly_the_keyed_row() {
    let mut db = DbState::new();
    let create = DbCommand::CreateEntity {
        entity_id: 4,
        position: Vec2 { x: 3, y: 4 },
        owner_identity: 44,
    };
    execute_command(&mut db, &create);
    assert!(db.contains_id(4));
    assert!(!db.contains_id(5));
    let found = db.find_row(4).unwrap();
    assert_eq!(found.entity_id, 4);
    assert_eq!(found.owner_identity, 44);
    assert!(db.find_row(5).is_none());
}
