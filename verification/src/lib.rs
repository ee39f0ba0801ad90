//! Verified core of a terminal client that drives an editor engine over a
//! line-framed remote-procedure protocol: which frames are written, how
//! incoming frames are routed, how key presses become calls, and in which
//! order a session starts and ends.

pub mod bootstrap;
pub mod config;
pub mod frame;
pub mod input;
pub mod keymap;
pub mod keys;
pub mod pending;
pub mod render;
pub mod session;
pub mod text;
pub mod trace;
pub mod wire;
