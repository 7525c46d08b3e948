//! Verified cores of a collection of small Rust demo programs: the
//! decisions, counters and text that the programs compute, kept apart from
//! the windows, sockets and files that they drive.

pub mod actor;
pub mod clock;
pub mod combo_box;
pub mod counter;
pub mod decimal;
pub mod editor;
pub mod errors;
pub mod events_log;
pub mod exit;
pub mod keyboard;
mod lifetimes_demo;
pub mod layout;
pub mod numeric_input;
pub mod picklist;
pub mod proc_macros;
pub mod quic_server;
pub mod rainbow;
pub mod reactive_counter;
pub mod shared_state;
pub mod stopwatch;
pub mod text;
pub mod todos;
pub mod tooltip;

pub use lifetimes_demo::life;
pub use rainbow::{rainbow, Rainbow};
