//! Navigation decisions for a viewer of the Mandelbrot set.
//!
//! The viewer shows a rectangle of the complex plane and lets the user pan,
//! zoom and change the detail of the image with the keyboard. This crate is
//! the part of it that decides: which command a key is bound to, what a
//! command asks of the visible region, how the detail level steps up and
//! down, and what follows each event of the window. Every function is
//! verified against a contract that fixes its result.
//!
//! The crate holds no floating-point numbers. The visible region belongs to
//! the caller; the dispatcher names the transformation to apply to it, with
//! exact integer parameters, and the caller carries it out.
//!
//! - [`input`]: keys and window events.
//! - [`command`]: commands and the keys bound to them.
//! - [`view`]: the changes a command can ask of the visible region.
//! - [`detail`]: the detail level and its two steps.
//! - [`dispatch`]: the dispatcher.

pub mod command;
pub mod detail;
pub mod dispatch;
pub mod input;
pub mod view;
