//! The boundary with the waPC host and the Wasmtime engine. Everything here
//! is taken on trust; each item names what it relies on.
use vstd::prelude::*;

use wapc::errors::Error as HostError;
use wapc::WapcHost;
use wasmtime_provider::errors::Error as EngineError;
use wasmtime_provider::wasmtime::{Config, Engine, Error as WasmtimeError};
use wasmtime_provider::{WasmtimeEngineProvider, WasmtimeEngineProviderBuilder};

use crate::dispatch::reply_to_guest;

verus! {

/// A waPC host: an instantiated guest together with its host-call dispatcher.
#[verifier::external_type_specification]
#[verifier::external_body]
pub struct ExWapcHost(wapc::WapcHost);

/// The errors that the waPC host reports.
#[verifier::external_type_specification]
#[verifier::external_body]
pub struct ExWapcError(HostError);

/// A guest module compiled by Wasmtime, ready to be instantiated.
#[verifier::external_type_specification]
#[verifier::external_body]
pub struct ExEngineProvider(wasmtime_provider::WasmtimeEngineProvider);

/// The errors that the Wasmtime provider reports.
#[verifier::external_type_specification]
#[verifier::external_body]
pub struct ExEngineError(EngineError);

/// A Wasmtime engine: the compiler and the settings shared by its modules.
#[verifier::external_type_specification]
#[verifier::external_body]
pub struct ExEngine(wasmtime_provider::wasmtime::Engine);

/// The errors that Wasmtime reports.
#[verifier::external_type_specification]
#[verifier::external_body]
pub struct ExWasmtimeError(WasmtimeError);

/// Relies on wasmtime::Config (`new`, `memory_reservation`,
/// `memory_guard_size`) and wasmtime::Engine::new: an engine with default
/// settings but for the address space reserved for each linear memory and
/// the guard region after it.
#[verifier::external_body]
pub(crate) fn engine_with_limits(reservation: u64, guard: u64) -> (r: Result<
    Engine,
    WasmtimeError,
>) {
    let mut config = Config::new();
    config.memory_reservation(reservation);
    config.memory_guard_size(guard);
    Engine::new(&config)
}

/// Relies on wasmtime_provider::WasmtimeEngineProviderBuilder (`new`,
/// `engine`, `module_bytes`, `build`): compiles `bytes` on `engine`, or says
/// why the engine cannot.
#[verifier::external_body]
pub(crate) fn compile(engine: Engine, bytes: &[u8]) -> (r: Result<
    WasmtimeEngineProvider,
    EngineError,
>) {
    WasmtimeEngineProviderBuilder::new().engine(engine).module_bytes(bytes).build()
}

/// Relies on wapc::WapcHost::new: instantiates the compiled guest, with
/// `reply_to_guest` answering every call the guest makes into the host.
#[verifier::external_body]
pub(crate) fn instantiate(engine: WasmtimeEngineProvider) -> (r: Result<
    WapcHost,
    HostError,
>) {
    WapcHost::new(
        Box::new(engine),
        Some(
            Box::new(
                |id: u64, binding: &str, namespace: &str, operation: &str, payload: &[u8]|
                    reply_to_guest(id, binding, namespace, operation, payload).map_err(
                        Into::into,
                    ),
            ),
        ),
    )
}

/// Relies on wapc::WapcHost::call: runs the guest's handler for `operation`
/// on `payload` and hands back its reply or its failure.
#[verifier::external_body]
pub(crate) fn guest_call(host: &WapcHost, operation: &str, payload: &[u8]) -> (r: Result<
    Vec<u8>,
    HostError,
>) {
    host.call(operation, payload)
}

/// Relies on the `Display` of wasmtime_provider::errors::Error for a
/// human-readable diagnostic.
#[verifier::external_body]
pub(crate) fn engine_error_text(e: &EngineError) -> (r: String) {
    e.to_string()
}

/// Relies on the `Display` of wasmtime::Error for a human-readable
/// diagnostic.
#[verifier::external_body]
pub(crate) fn wasmtime_error_text(e: &WasmtimeError) -> (r: String) {
    e.to_string()
}

/// Relies on the `Display` of wapc::errors::Error for a human-readable
/// diagnostic.
#[verifier::external_body]
pub(crate) fn host_error_text(e: &HostError) -> (r: String) {
    e.to_string()
}

} // verus!
