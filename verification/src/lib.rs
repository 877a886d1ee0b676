//! Directional navigation over menus of focusable elements.
//!
//! The crate decides, from plain values, which element holds the focus.
//! Every length is a whole number of lattice units, ten thousand to the
//! pixel; every time is a whole number of microseconds; every element is
//! known by a number.
//!
//! - [`utils`] and [`focus_node`]: rectangles, their overlap and distance,
//!   and how one node lies relative to another.
//! - [`resolve`]: the resolver that picks the element a move lands on, with
//!   what holds of it in [`resolve_laws`] and [`row_laws`].
//! - [`input`], [`input_reader`], [`action_state`], [`default_input_map`]
//!   and [`input_requests`]: from the state of keys, buttons and sticks to
//!   the six actions and to navigation requests.
//! - [`world`], [`spatial_map`] and [`plugin`]: the scene as plain values,
//!   the state machine of focus, menu and lock, and the handling of the
//!   requests of one frame, with what holds of it in [`nav_laws`].
//! - [`setup`] and [`interaction`]: new and removed menus and focusables,
//!   visibility, timers, and the pointer.

pub mod action_state;
pub mod components;
pub mod default_input_map;
pub mod events;
pub mod focus_node;
pub mod input;
pub mod input_reader;
pub mod input_requests;
pub mod interaction;
pub mod nav_laws;
pub mod plugin;
pub mod prelude;
pub mod resolve;
pub mod resolve_laws;
pub mod resources;
pub mod row_laws;
pub mod seq_util;
pub mod setup;
pub mod spatial_map;
pub mod types;
pub mod utils;
pub mod world;
