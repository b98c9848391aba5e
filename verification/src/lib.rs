//! Core of a hypervisor connection gateway.
//!
//! The library owns the logic of a service that exposes virtual-machine
//! ("domain") lifecycle operations and host USB device inventory over a
//! remote procedure protocol: translating between the hypervisor's native
//! state and error vocabulary and the wire vocabulary, deciding the outcome
//! of domain-targeted operations, filtering raw USB device property sets,
//! building hotplug descriptors, and streaming materialized result sets
//! through a bounded queue.  The hypervisor itself, the device scan and the
//! network transport are collaborators reached from a host program.

use vstd::prelude::*;

pub mod device;
pub mod fake;
pub mod hotplug;
pub mod lifecycle;
pub mod render;
pub mod schema;
pub mod stream;
pub mod translate;
pub mod wire;

verus! {

/// An error reported by the gateway to its own callers, carrying a
/// human-readable message.
#[derive(Debug)]
pub struct GRPCAPIError {
    msg: String,
}

impl GRPCAPIError {
    /// The message this error was built from.
    pub closed spec fn view(&self) -> Seq<char> {
        self.msg@
    }

    /// Wraps a message in an error value.
    pub fn new(msg: String) -> (r: GRPCAPIError)
        ensures
            r@ == msg@,
    {
        GRPCAPIError { msg }
    }

    /// The human-readable message.
    pub fn msg(&self) -> (r: &String)
        ensures
            r@ == self@,
    {
        &self.msg
    }
}

/// Interprets a raw byte vector from the wire as a domain identifier.
///
/// Exactly the 16-byte vectors are accepted; anything else is the sole
/// class of fault that is surfaced as a protocol-level error rather than a
/// structured failure.
pub fn byte_vec_to_uuid(vec: Vec<u8>) -> (r: Result<schema::DomainUuid, GRPCAPIError>)
    ensures
        vec@.len() == 16 <==> r is Ok,
        r matches Ok(u) ==> u@ == vec@ && u.wf(),
{
    match schema::DomainUuid::from_bytes(vec) {
        Some(u) => Ok(u),
        None => Err(GRPCAPIError::new("domain uuid must be exactly 16 bytes".to_owned())),
    }
}

} // verus!
