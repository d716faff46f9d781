//! The terminal screens: their forms, navigation and layout, as state
//! machines that the program drives with key presses.

pub mod common;
pub mod filter;
pub mod form;
pub mod list;
pub mod qc_manager;
pub mod usage;
pub mod wizard;
