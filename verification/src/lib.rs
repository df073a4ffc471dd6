//! Real-time playback of a musical event timeline on a terminal keyboard.
//!
//! Two engines consume the same timeline, one for the audio device and one for the display.
//! Both are paced against one wall clock through the shared [`clock::ClockState`], which the
//! user can pause and skip ahead. The display engine resolves, key by key, which of the notes
//! that sound at once decides the colour of the key.
//!
//! The library decides and computes; it neither sleeps nor reads nor writes. A driver runs
//! each engine: it lets the engine take a step, does what the step asks for (a poll, a precise
//! sleep, a write to the device) and steps again, until the timeline is exhausted. All times
//! are in nanoseconds.

pub mod clock;
pub mod colors;
pub mod engine;
pub mod event;
pub mod keyboard;
pub mod menu;
pub mod message;
pub mod overlap;
pub mod palette;
pub mod render;
pub mod schedule;
