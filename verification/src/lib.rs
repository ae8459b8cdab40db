//! Decision logic of a tray-resident helper that receives an authentication
//! token on a loopback HTTP callback and stores it in the user's configuration
//! directory.
//!
//! The crate decides; its host performs. Every function here is a pure step
//! from plain values to plain values, so that the host's event loop, HTTP
//! server and filesystem calls stay outside and the rules stay provable.

pub mod cors;
pub mod listener;
pub mod model;
pub mod store;
pub mod text;
pub mod tray;
