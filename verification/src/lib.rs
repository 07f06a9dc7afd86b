//! Bridge between an asynchronous database client and a tick-driven
//! simulation loop.
//!
//! Three queues connect the two execution domains: a typed channel bridge
//! that turns asynchronous callback notifications into a synchronously
//! drainable event source, a mutex-protected pending-action queue through
//! which callbacks schedule deferred simulation mutations, and a command
//! queue through which simulation systems defer operations against the
//! database context. A tick coordinator drains all three once per step.

use vstd::prelude::*;

mod channel;
mod command;
mod connection;
mod events;
mod pending;
mod reducers;
mod sim;
mod tick;

pub use channel::forward_connected;
pub use channel::forward_connection_error;
pub use channel::forward_delete;
pub use channel::forward_disconnected;
pub use channel::forward_insert;
pub use channel::forward_insert_update;
pub use channel::forward_reducer_result;
pub use channel::forward_update;
pub use channel::publish;
pub use channel::ChannelBridge;
pub use channel::ChannelKind;
pub use channel::ChannelModel;
pub use channel::EventBus;

pub use command::execute_command;
pub use command::process_bevy_commands;
pub use command::CommandOutcome;
pub use command::CommandQueue;
pub use command::DbCommand;
pub use command::DbState;

pub use connection::StdbConnection;

pub use pending::create_send_event_action;
pub use pending::process_bevy_actions;
pub use pending::schedule_bevy_action;
pub use pending::DrainOutcome;
pub use pending::PendingAction;
pub use pending::PendingQueue;
pub use pending::SharedPendingQueue;
pub use pending::SimEvent;

pub use reducers::enter_game;
pub use reducers::enter_game_decision;
pub use reducers::find_owner_entity;
pub use reducers::receive_player_input;
pub use reducers::receive_player_input_decision;

pub use sim::add_single_entity_system;
pub use sim::apply_player_movement_system;
pub use sim::instantiate_entity_system;
pub use sim::run_bevy_update;
pub use sim::update_stdb_position_system;
pub use sim::Position;
pub use sim::SimEntity;
pub use sim::SimState;

pub use tick::init;
pub use tick::process_tick;
pub use tick::CoreState;
pub use tick::LifecycleSenders;
pub use tick::TickSummary;

pub use events::DeleteEvent;
pub use events::InsertEvent;
pub use events::InsertUpdateEvent;
pub use events::InstantiateEntityEvent;
pub use events::Notification;
pub use events::PlayerInputEvent;
pub use events::ReducerResultEvent;
pub use events::StdbConnectedEvent;
pub use events::StdbConnectionErrorEvent;
pub use events::StdbDisconnectedEvent;
pub use events::UpdateEvent;

verus! {

/// A two-dimensional coordinate in whole world units.
///
/// Positions and movement directions are integer vectors; one unit is the
/// smallest distance the simulation distinguishes.
#[derive(Clone, Copy, Debug, PartialEq, Eq, Structural)]
pub struct Vec2 {
    /// Horizontal component.
    pub x: i64,
    /// Vertical component.
    pub y: i64,
}

/// Links a simulation-side entity to the primary key of its row in the
/// database `entity` table.
#[derive(Clone, Copy, Debug, PartialEq, Eq, Structural)]
pub struct SpacetimeId(pub u32);

/// A row of the database `entity` table: one player or other dynamic
/// object, keyed by `entity_id` and owned by one client identity.
#[derive(Clone, Copy, Debug, PartialEq, Eq, Structural)]
pub struct Entity {
    /// Primary key; matches the simulation entity index it mirrors.
    pub entity_id: u32,
    /// Current position in the game world.
    pub position: Vec2,
    /// Identity of the client that owns this entity.
    pub owner_identity: u64,
}

/// A fatal wiring mistake detected while the bridge is being set up.
///
/// Configuration errors abort initialization: they indicate a one-time
/// programming error, not a runtime condition to mask.
#[derive(Clone, Copy, Debug, PartialEq, Eq, Structural)]
pub enum ConfigError {
    /// The same notification type was registered twice.
    DuplicateRegistration,
    /// A notification was sent on a channel whose receiving end is gone.
    SendFailed,
}

impl ConfigError {
    /// A human-readable description of the configuration error.
    pub fn message(&self) -> &'static str {
        match self {
            ConfigError::DuplicateRegistration => "this notification channel is already registered",
            ConfigError::SendFailed => "notification channel receiver was dropped",
        }
    }
}

} // verus!
