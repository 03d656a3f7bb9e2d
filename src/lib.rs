//! Loads a waPC guest compiled to WebAssembly, invokes its exported
//! operations with opaque byte payloads, and answers the calls the guest
//! makes back into the host.
pub mod dispatch;
mod engine;
pub mod error;
pub mod module;

pub use dispatch::{dispatch_host_call, reply_to_guest};
pub use error::Error;
pub use module::{invocation_outcome, Module};
