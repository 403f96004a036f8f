//! Verified core of a multiplayer skill-rating evaluation: contests with
//! tie-aware standings, a chronologically ordered dataset of them, the
//! resolution of a rating system by name, the checks made before a run, and
//! the per-player event histories that a run produces.

pub mod contest;
pub mod dataset;
pub mod error;
pub mod event;
pub mod result;
pub mod run;
pub mod system;
