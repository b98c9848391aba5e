//! Wire-form domain snapshots: what the gateway sends for each domain,
//! and what a client reads back.

use vstd::prelude::*;

use crate::lifecycle::SuccessResponse;
use crate::schema::{Domain, DomainState, DomainUuid};
use crate::translate::{spec_state_of_wire, spec_wire_of_state, state_to_wire, wire_to_state};
use crate::{byte_vec_to_uuid, GRPCAPIError};

verus! {

/// One domain snapshot in wire form: identifier bytes and the encoded
/// state, with every other field carried as is.
#[derive(Debug)]
pub struct WireDomain {
    /// The identifier's 16 bytes.
    pub uuid: Vec<u8>,
    /// Transient numeric handle.
    pub id: u32,
    /// Human-readable label.
    pub name: String,
    /// Reported host name, when present.
    pub hostname: Option<String>,
    /// Reported guest OS type, when present.
    pub os_type: Option<String>,
    /// The encoded domain state.
    pub state: i32,
    /// Memory in bytes.
    pub memory: u64,
    /// Maximum memory in bytes.
    pub memory_max: u64,
    /// Count of virtual CPUs.
    pub virt_cpu_num: u32,
    /// Cumulative CPU time.
    pub virt_cpu_time: u64,
}

/// Encodes a snapshot for the wire: the identifier as its bytes, the
/// state through the wire table, every other field unchanged.
pub fn domain_to_wire(d: Domain) -> (w: WireDomain)
    ensures
        w.uuid@ == d.uuid@,
        w.id == d.id,
        w.name == d.name,
        w.hostname == d.hostname,
        w.os_type == d.os_type,
        w.state == spec_wire_of_state(d.state),
        w.memory == d.memory,
        w.memory_max == d.memory_max,
        w.virt_cpu_num == d.virt_cpu_num,
        w.virt_cpu_time == d.virt_cpu_time,
{
    let state = state_to_wire(d.state);
    WireDomain {
        uuid: d.uuid.into_bytes(),
        id: d.id,
        name: d.name,
        hostname: d.hostname,
        os_type: d.os_type,
        state,
        memory: d.memory,
        memory_max: d.memory_max,
        virt_cpu_num: d.virt_cpu_num,
        virt_cpu_time: d.virt_cpu_time,
    }
}

/// The state a client reads from a wire code: a code outside the table is
/// taken as `Unspecified` on the reading side.
pub open spec fn spec_client_state(code: i32) -> DomainState {
    match spec_state_of_wire(code) {
        Some(s) => s,
        None => DomainState::Unspecified,
    }
}

/// Decodes a wire snapshot on the client side.  Identifier bytes of any
/// length but 16 are the one malformation that surfaces as an error.
pub fn domain_from_wire(w: WireDomain) -> (r: Result<Domain, GRPCAPIError>)
    ensures
        w.uuid@.len() == 16 <==> r is Ok,
        r matches Ok(d) ==> {
            &&& d.uuid@ == w.uuid@
            &&& d.id == w.id
            &&& d.name == w.name
            &&& d.hostname == w.hostname
            &&& d.os_type == w.os_type
            &&& d.state == spec_client_state(w.state)
            &&& d.memory == w.memory
            &&& d.memory_max == w.memory_max
            &&& d.virt_cpu_num == w.virt_cpu_num
            &&& d.virt_cpu_time == w.virt_cpu_time
        },
{
    let uuid: DomainUuid = match byte_vec_to_uuid(w.uuid) {
        Ok(u) => u,
        Err(e) => {
            return Err(e);
        },
    };
    let state = match wire_to_state(w.state) {
        Some(s) => s,
        None => DomainState::Unspecified,
    };
    Ok(
        Domain {
            uuid,
            id: w.id,
            name: w.name,
            hostname: w.hostname,
            os_type: w.os_type,
            state,
            memory: w.memory,
            memory_max: w.memory_max,
            virt_cpu_num: w.virt_cpu_num,
            virt_cpu_time: w.virt_cpu_time,
        },
    )
}

/// The message a failure payload carries, or the empty message where it
/// carries none.
pub open spec fn spec_failure_message(error: Option<String>) -> Seq<char> {
    match error {
        Some(m) => m@,
        None => Seq::empty(),
    }
}

/// What a client makes of a success/failure payload: success is plain
/// success, and a failure becomes an error carrying the payload's
/// message.
pub fn client_result(resp: SuccessResponse) -> (r: Result<(), GRPCAPIError>)
    ensures
        resp.success <==> r is Ok,
        r matches Err(e) ==> e@ == spec_failure_message(resp.error),
{
    if resp.success {
        Ok(())
    } else {
        match resp.error {
            Some(m) => Err(GRPCAPIError::new(m)),
            None => Err(GRPCAPIError::new(String::new())),
        }
    }
}

/// Law: reading inverts sending for every state: what a client decodes
/// from an encoded state is that state again.
pub proof fn lemma_client_state_round_trip(s: DomainState)
    ensures
        spec_client_state(spec_wire_of_state(s)) == s,
{
}

} // verus!
