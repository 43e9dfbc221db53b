//! The root controller of a small desktop tools panel: its state, the messages
//! it takes, and what each message does to the state.
//!
//! The controller owns no widget. It is a transition function: a message goes
//! in, the state changes, and an [`gui::Effect`] comes out that tells the
//! hosting runtime what to run next. The bar and the left navigation view live
//! with that runtime; their messages pass through here unopened.

pub mod clock;
pub mod theme;
pub mod gui;
pub mod laws;
