use vstd::prelude::*;

use wapc::WapcHost;

use crate::engine::{
    compile, engine_error_text, engine_with_limits, guest_call, host_error_text, instantiate,
    wasmtime_error_text,
};
use crate::error::Error;

verus! {

/// The address space reserved up front for each linear memory of a guest.
/// A memory that outgrows it is moved, not refused.
pub const MEMORY_RESERVATION: u64 = 64 * 1024 * 1024;

/// The inaccessible region kept after each linear memory of a guest.
pub const MEMORY_GUARD: u64 = 64 * 1024;

/// One instantiated guest module. A value of this type exists only once the
/// module was compiled, linked and instantiated: a failed load hands back an
/// error and no module.
pub struct Module {
    host: WapcHost,
}

/// Holds when `r` is a failure to turn bytes into a running guest.
pub open spec fn is_instantiation_error<T>(r: Result<T, Error>) -> bool {
    r matches Err(Error::InstantiationError(_))
}

/// Holds when `r` is a failure to run a guest operation.
pub open spec fn is_invocation_error<T>(r: Result<T, Error>) -> bool {
    r matches Err(Error::InvocationError(_))
}

/// Holds when `r` is the failure to read the file at `path` with `message`.
pub open spec fn is_io_error<T>(r: Result<T, Error>, path: Seq<char>, message: Seq<char>) -> bool {
    match r {
        Err(Error::IoError { path: p, message: m }) => p@ == path && m@ == message,
        _ => false,
    }
}

/// What a guest call comes to, given what the host reported: the guest's
/// reply, byte for byte, or an `InvocationError` with the host's diagnostic.
pub fn invocation_outcome(outcome: Result<Vec<u8>, String>) -> (r: Result<Vec<u8>, Error>)
    ensures
        match outcome {
            Ok(reply) => r matches Ok(bytes) && bytes@ == reply@,
            Err(message) => r matches Err(Error::InvocationError(m)) && m@ == message@,
        },
{
    match outcome {
        Ok(reply) => Ok(reply),
        Err(message) => Err(Error::InvocationError(message)),
    }
}

impl Module {
    /// Compiles and instantiates the guest held in `bytes`, with the default
    /// dispatcher answering its calls into the host. Every failure is an
    /// `InstantiationError` carrying the engine's diagnostic; an empty byte
    /// sequence is never a module.
    pub fn new(bytes: &[u8]) -> (r: Result<Module, Error>)
        ensures
            r is Ok ==> bytes@.len() > 0,
            r is Err ==> is_instantiation_error(r),
    {
        if bytes.len() == 0 {
            return Err(Error::InstantiationError("module bytes are empty".to_owned()));
        }
        let engine = match engine_with_limits(MEMORY_RESERVATION, MEMORY_GUARD) {
            Ok(engine) => engine,
            Err(e) => return Err(Error::InstantiationError(wasmtime_error_text(&e))),
        };
        let engine = match compile(engine, bytes) {
            Ok(engine) => engine,
            Err(e) => return Err(Error::InstantiationError(engine_error_text(&e))),
        };
        match instantiate(engine) {
            Ok(host) => Ok(Module { host }),
            Err(e) => Err(Error::InstantiationError(host_error_text(&e))),
        }
    }

    /// Loads a module from what reading the file at `path` gave: the file's
    /// bytes, or the reason it could not be read. A read failure is an
    /// `IoError` naming the path; otherwise this is `new` on the bytes.
    pub fn from_file_contents(path: &str, contents: Result<Vec<u8>, String>) -> (r: Result<
        Module,
        Error,
    >)
        ensures
            match contents {
                Err(message) => is_io_error(r, path@, message@),
                Ok(bytes) => (r is Ok ==> bytes@.len() > 0) && (r is Err
                    ==> is_instantiation_error(r)),
            },
    {
        match contents {
            Err(message) => Err(Error::IoError { path: path.to_owned(), message }),
            Ok(bytes) => Module::new(bytes.as_slice()),
        }
    }

    /// Runs the guest's handler for `operation` on `payload` and returns the
    /// guest's reply. Every failure (an operation the guest does not export,
    /// a trap, a failed host call passed on by the guest) is an
    /// `InvocationError` carrying the host's diagnostic.
    pub fn run(&self, operation: &str, payload: &[u8]) -> (r: Result<Vec<u8>, Error>)
        requires
            operation@.len() > 0,
        ensures
            r is Err ==> is_invocation_error(r),
    {
        let outcome = match guest_call(&self.host, operation, payload) {
            Ok(reply) => Ok(reply),
            Err(e) => Err(host_error_text(&e)),
        };
        invocation_outcome(outcome)
    }
}

} // verus!
