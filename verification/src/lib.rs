//! A modal-editing command-composition core.
//!
//! Keystrokes arriving at a text-editing surface are interpreted under a
//! small set of mutually exclusive input modes (normal, insert, visual).
//! Multi-keystroke commands are composed on a last-in-first-out operator
//! stack: numeric count prefixes accumulate digit by digit, operators wait
//! for a completing motion or a literal-character argument, and a router
//! discards stale pending operators when an unrelated keystroke arrives.
//!
//! The controller is explicit, injectable state: it binds to at most one
//! surface at a time through a handle looked up in a [`surface::Registry`],
//! and reconciles the surface's settings (cursor shape, clipping, input
//! forwarding, line-selection mode, keymap context layer) after every
//! transition.

pub mod state;
pub mod surface;
pub mod controller;
pub mod router;
pub mod laws;
