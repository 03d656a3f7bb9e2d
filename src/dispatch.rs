use vstd::prelude::*;

use crate::error::Error;

verus! {

/// Holds when `e` refuses a host call routed to `binding`, `namespace` and
/// `operation`, naming that route.
pub open spec fn is_refusal(
    e: Error,
    binding: Seq<char>,
    namespace: Seq<char>,
    operation: Seq<char>,
) -> bool {
    match e {
        Error::NotImplemented { binding: b, namespace: n, operation: o } => b@ == binding
            && n@ == namespace && o@ == operation,
        _ => false,
    }
}

/// The default host-call dispatcher. The host offers no operations to its
/// guests, so every call the guest makes back into the host is refused with
/// `NotImplemented`, whatever its routing and payload. It never panics.
pub fn dispatch_host_call(
    instance_id: u64,
    binding: &str,
    namespace: &str,
    operation: &str,
    payload: &[u8],
) -> (r: Result<Vec<u8>, Error>)
    ensures
        r is Err,
        is_refusal(r->Err_0, binding@, namespace@, operation@),
{
    Err(
        Error::NotImplemented {
            binding: binding.to_owned(),
            namespace: namespace.to_owned(),
            operation: operation.to_owned(),
        },
    )
}

/// What the guest receives for a host call: the dispatcher's bytes, or the
/// diagnostic of its error. A refusal reaches the guest as a failure, never
/// as an empty payload.
pub fn reply_to_guest(
    instance_id: u64,
    binding: &str,
    namespace: &str,
    operation: &str,
    payload: &[u8],
) -> (r: Result<Vec<u8>, String>)
    ensures
        r is Err,
        r->Err_0@ == crate::error::not_implemented_text(),
{
    match dispatch_host_call(instance_id, binding, namespace, operation, payload) {
        Ok(bytes) => Ok(bytes),
        Err(e) => Err(e.diagnostic()),
    }
}

} // verus!
