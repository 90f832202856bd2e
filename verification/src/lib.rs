//! A lazy display-data resolver for playback-queue entries.
//!
//! Each entry of a playback queue owns one reactive cell that eventually
//! holds rich display metadata (cover art, title, artist name) for the
//! entry's audio file. The metadata comes from one of two sources of very
//! different cost: a fast structured library database, tried first, and a
//! slow on-disk metadata scan, used as a fallback. Both sources live
//! outside this crate; the resolver here is the decision core. Each step
//! of the resolution is a verified transition on the entry, and the step's
//! result tells the host which outside action to perform next: look up
//! records in the database, or subscribe for a scan completion and issue a
//! scan request. The host hands the outcome of each action back to the
//! next step.
//!
//! Every cell mutation counts as one dependent notification, so the
//! contracts also pin down exactly when the surrounding UI is told to
//! re-render.

pub mod display;
pub mod laws;
pub mod queue;
pub mod reactive;
pub mod records;
