//! Tray-menu synchronization: builds the checkable tray menu from a
//! configuration snapshot, encodes menu identifiers, and routes menu
//! selections to actions.
pub mod ident;
pub mod menu;
pub mod tray;
