//! Scene model and request handling of the MPF media controller.
//!
//! The controller keeps a set of slides, each holding widgets, and shows
//! one of them at a time.  Requests add slides, switch the shown slide and
//! put widgets on slides; each frame the widgets of the shown slide that
//! still need work are rendered.  Rendering, decoding and networking are
//! done by the embedding program; this crate holds the state and every
//! decision about it.

pub mod color;
pub mod error;
pub mod widget;
pub mod slide;
pub mod scene;
pub mod server;
pub mod pipeline;
pub mod display;
pub mod laws;
