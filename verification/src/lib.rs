//! An interactive terminal menu: a titled list of options, a highlighted
//! index moved by navigation keys, an accept key and cancel keys.
//!
//! The selection logic is a pure state machine over discrete key presses
//! ([`menu`]), the frame it shows is computed exactly ([`render`]), and the
//! whole render/input loop runs against a model of the terminal ([`engine`]),
//! so that mode restoration, clamping and frame consistency are proved
//! rather than hoped for ([`laws`]). The text handling of the surrounding
//! display-attach workflow lives in [`workflow`]. A thin unverified shell
//! drives the same state machine against a real terminal.

pub mod engine;
pub mod key;
pub mod laws;
pub mod menu;
pub mod render;
pub mod workflow;
