//! Shared runtime types: the command-error surface and the values of the
//! drone channel and the signal log.

pub mod cmd_error;
pub mod drone;
pub mod projection;
pub mod sql;
pub mod snapshot;
pub mod commands;
pub mod retry;
pub mod migrations;
pub mod response;
