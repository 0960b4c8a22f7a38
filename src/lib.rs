//! Device-state model, frame hand-off, display decoding and screen geometry
//! for an interactive PinMAME ROM tester.

pub mod display;
pub mod error;
pub mod geometry;
pub mod segment;
pub mod grid;
pub mod panels;
pub mod state;
pub mod channel;
pub mod switches;
pub mod text;
pub mod pinmame;
pub mod db;
pub mod control;
