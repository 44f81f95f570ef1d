//! Core of a synthetic mouse-click automation tool.
//!
//! A user configures a repeat interval, a mouse button, a click arity and a
//! target position, and the engine repeatedly emits the corresponding
//! synthetic input events while a shared run flag is set. This crate holds
//! the verified core: the configuration data model, the timing converter,
//! and the automation loop's state machine. Window creation, widget layout
//! and OS input injection live outside the crate and talk to it through
//! message channels, the shared run flag, and the event plans the engine
//! hands back.

pub mod channels;
pub mod controls;
pub mod engine;
pub mod timing;
pub mod types;
