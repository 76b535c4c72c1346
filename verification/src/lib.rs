//! A status-bar panel for a compositor: the client-side protocol state
//! machine and the plan of its render cycle.
//!
//! The panel is driven from outside. A driver owns the connection to the
//! compositor and the rendering backend; it hands every event to the panel
//! and carries out what the panel asks for in return. The panel itself only
//! decides:
//!
//! - [`seat`] tracks which input devices the seat offers and holds at most
//!   one handle for each class of device;
//! - [`surface`] settles the size the compositor assigns and the place the
//!   panel asks for;
//! - [`input`] names the keyboard and pointer events that are routed to it;
//! - [`render`] lays out the frame of a render cycle and the order of its
//!   steps;
//! - [`panel`] holds the state of one session and its handlers;
//! - [`model`] says what each handler does, as a state machine over plain
//!   mathematical values;
//! - [`laws`] proves what holds of that state machine over every run of
//!   events.

pub mod error;
pub mod event;
pub mod geometry;
pub mod input;
pub mod laws;
pub mod model;
pub mod panel;
pub mod render;
pub mod seat;
pub mod surface;

pub use panel::YarrBar;
