//! Input handling and event dispatch for a game in which the player pushes a
//! single square around the window with the arrow keys.
//!
//! The crate holds the part of the game that is decided on exact values: which
//! controls are held down, which unit pushes a frame's physics step applies
//! for them, and how the stream of window events drives the game from
//! `Running` to `Terminated`. The frame loop, the drawing and the
//! floating-point integration belong to the program built around it.

pub mod controls;
pub mod direction;
pub mod event;
pub mod game;
