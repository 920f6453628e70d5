//! Session-cookie retrieval for single-sign-on VPN portals.
//!
//! The library decides; the caller acts. Every component that waits on a
//! browser, a socket or a clock is written as a state machine that takes the
//! outcome of the last action (and a millisecond clock reading) and returns
//! the next action to perform. The caller performs it and reports back.
pub mod args;
pub mod controller;
pub mod cookie;
pub mod driver;
pub mod error;
pub mod login;
pub mod poller;
pub mod session;
pub mod text;
pub mod vpn;
pub mod wait;
