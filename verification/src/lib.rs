//! Rule engine of a two-player herd-hunting game played on two hidden
//! 10x10 pastures.
//!
//! Each player places five herds on a private pasture. The players then
//! take turns shooting at each other's pasture; every shot has to be
//! confirmed by its target before the turn passes, so that nobody can probe
//! a pasture in silence.
//!
//! The crate holds the rules only: what a legal pasture is, how players are
//! admitted, and how the shoot/confirm protocol moves a game from state to
//! state. Storing games and encoding messages is left to the caller, who
//! hands in what was stored and gets back what has to be stored.

pub mod board;
pub mod contract;
pub mod error;
pub mod msg;
pub mod pasture;
pub mod state;
