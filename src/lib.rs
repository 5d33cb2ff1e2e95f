//! Swaps a desktop's look (wallpaper, shell and GTK theme, icon theme) and
//! puts the previous settings back from a snapshot of the settings tree.
//!
//! The library decides; the caller acts. Commands for the settings tools are
//! built here as argument vectors, and the snapshot, restore and apply
//! procedures are state machines that tell the caller which action to perform
//! next and are fed the outcome of each action.
pub mod apply;
pub mod command;
pub mod desired;
pub mod machine;
pub mod model;
pub mod paths;
pub mod snapshot;
