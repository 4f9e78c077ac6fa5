//! The decisions of a WASAPI audio host.
//!
//! Windows answers questions about audio endpoints through COM calls. This crate
//! holds everything that is decided from those answers: which stream formats an
//! endpoint supports, what its default format is, which error a failed call turns
//! into, when two devices are the same, and how the default devices follow the
//! notifications of the system. The calls themselves are made by the program
//! around it, which hands their results in as plain values.
pub mod config;
pub mod default_device;
pub mod device;
pub mod error;
pub mod formats;
pub mod host;
pub mod laws;
pub mod waveformat;
pub mod wide;
