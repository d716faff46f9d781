//! termos: a local SSH connection manager.
//!
//! The library holds the connection store, the quick-command store, the
//! form editing and validation of the interactive wizards, the navigation
//! state machines of the terminal screens, and the construction of the
//! command lines handed to the system `ssh` binary. The terminal itself,
//! the configuration file and the processes are driven by the program
//! around the library.

pub mod text;
pub mod storage;
pub mod input;
pub mod tui;
pub mod ssh;
pub mod cli;
