//! Event-driven audio rendering to every active output device: the decisions
//! behind format discovery, session lifecycle, buffer accounting and looped
//! playback, each with a contract checked by Verus.

pub mod error;
pub mod device;
pub mod format;
pub mod property;
pub mod resample;
pub mod session;
