//! A condition-action trigger engine: rules watch a stream of state-change
//! events and a shared snapshot of the observed state, and fire templated
//! actions under cooldown and sequencing control.
//!
//! The engine does no reading, waiting or sending of its own. A caller
//! reads the observed process and hands over what it read; the listener
//! turns each snapshot into events; the handler hands each event to the
//! triggers that it concerns; and what comes back are the messages of the
//! triggers that fired, for the caller to send. Where a rule waits for
//! damage to be dealt, the evaluation stops with a ticket, and the caller
//! comes back with the damage that was collected.

pub mod actions;
pub mod clock;
pub mod conditions;
pub mod configs;
pub mod event;
pub mod game;
pub mod game_context;
pub mod handlers;
pub mod logger;
pub mod text;
pub mod triggers;
