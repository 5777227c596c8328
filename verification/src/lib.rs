//! Core state machine of an interactive raffle picker.
//!
//! The library holds the roster of participants as a navigable list, the tab
//! state that gates which view is active, and the spin state machine that
//! counts down a round budget and declares a single winner per spin. All
//! terminal rendering and input handling live outside the library; they drive
//! it through the methods on the application state and read its fields back.

/// Application state and the spin state machine.
pub mod app;

/// Participants.
pub mod data;

/// Navigable list with a single optional selection.
pub mod list;

/// Tab state.
pub mod tabs;
