//! A verified boundary layer between safe Rust and a native storage engine.
//!
//! - `status`: the native outcome of an operation, its predicates and its rendering.
//! - `error`: the owned error that a failed status becomes, rendered the same way.
//! - `carrier`: the one conversion from a "status and maybe a value" bundle into
//!   a `Result`, which reads the value only after a success.
//! - `bytes`: copies of native nul-terminated or explicit-length byte buffers.
//! - `math`, `options`, `debug`: bit helpers and plain values shared with the engine.

pub mod bytes;
pub mod carrier;
pub mod debug;
pub mod error;
pub mod math;
pub mod options;
pub mod status;
