//! Verified core of a stone-skipping game.
//!
//! The physics engine, rendering and input devices live outside this crate;
//! the crate holds the decisions the game makes on what they report:
//! the round's flow from aiming to the result screen, the skip rule on the
//! water, the boost rule of accelerators and the naming of accelerators.

pub mod accelerator;
pub mod flow;
pub mod rules;
