//! What the operations of the host are for, said of their arguments and results.
//!
//! A law here speaks of the fields and variants that go into a call and come out of it, and
//! of the numbers that Windows uses. `call_ensures(f, args, r)` reads: a call of `f` with
//! `args` may return `r`.
pub mod default_devices;
pub mod devices;
pub mod errors;
pub mod queries;
pub mod text;
pub mod wave_formats;
