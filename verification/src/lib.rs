//! Native-integration layer of the Read Master desktop shell.
//!
//! The crate holds the decisions of the shell as plain functions with
//! contracts: the identifier vocabulary of menu and tray items, the
//! platform-dependent menu description, the routing of tray events to window
//! actions, the shaping of command requests and replies, and the order of the
//! start-up stages. Talking to the operating system is left to the caller.

pub mod platform;
pub mod ids;
pub mod menu;
pub mod tray;
pub mod shell;
pub mod commands;
pub mod bootstrap;
