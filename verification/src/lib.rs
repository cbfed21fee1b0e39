//! A minimal productivity-timer library.
//!
//! The heart of the library is a timer lifecycle engine: a state machine
//! that alternates work and break phases forever, counting down minute by
//! minute and emitting, at each step, the notification action (show a fresh
//! notification, or sleep a minute and update its body) that keeps a desktop
//! notification in sync with the remaining time. A thin driver around the
//! library performs the actions; everything the engine decides is stated in
//! contracts and proved.

pub mod engine;
pub mod phase;
pub mod service;
pub mod text;
