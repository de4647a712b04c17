//! The core of a terminal dashboard that supervises a spawned process: the
//! events that its sources report, the queue that merges them, the state
//! that they change and the decisions of the render loop. Everything here
//! works on plain values; reading the terminal, the process, the system and
//! the database is left to the program around it.

pub mod adapters;
pub mod app;
pub mod args;
pub mod command;
pub mod driver;
pub mod event;
pub mod keyboard;
pub mod layout;
pub mod locks;
pub mod log;
pub mod mux;
pub mod process;
pub mod series;
