//! A small interactive demo for a pixel display, as a library of decisions.
//!
//! The application owns its state. Once per frame it builds a widget tree
//! from that state and hands it to a painter, together with the input events
//! that have come in. The painter finds the controls that the events hit and
//! reports their actions back, and the actions change the state for the next
//! frame. Nothing here draws, listens or waits: the library says what is to
//! be shown and what follows from what happened.

pub mod app;
pub mod builder;
pub mod color;
pub mod event;
pub mod geometry;
pub mod scheduler;
pub mod state;
pub mod text;
pub mod theme;
pub mod widget;

pub use app::App;
pub use color::rgb565_to_rgb888;
pub use theme::get_theme_colors;
