//! An expression-driven grid: a short script is evaluated once per frame for
//! every cell of a fixed canvas, and a two-state machine switches between
//! running the animation and editing the script.
//!
//! Scalars are held as the bit patterns of IEEE-754 doubles (`u64`), so that
//! every value the library stores or hands on is a plain integer.
//!
//! - `canvas`: the grid, and one pass over its cells.
//! - `ieee`: doubles as bit patterns, and their order.
//! - `scripting`: the functions that a script may call.
//! - `script`: compiling a script and evaluating it for one cell.
//! - `patterns`: the built-in scripts.
//! - `keys`, `editor`: key presses, and the line editor they drive.
//! - `mode`: the running and the editing mode, and what moves between them.
//! - `render`, `pacing`: what is drawn where, and how long a frame waits.

pub mod canvas;
pub mod editor;
pub mod ieee;
pub mod keys;
pub mod mode;
pub mod pacing;
pub mod patterns;
pub mod render;
pub mod script;
pub mod scripting;
