//! The state and error translator: pure, total mappings between the
//! hypervisor's native vocabulary and the wire vocabulary.

use vstd::prelude::*;

use crate::schema::DomainState;

verus! {

/// Native state code: the domain has no state.
pub const NATIVE_NOSTATE: u32 = 0;
/// Native state code: the domain is running.
pub const NATIVE_RUNNING: u32 = 1;
/// Native state code: the domain is blocked on a resource.
pub const NATIVE_BLOCKED: u32 = 2;
/// Native state code: the domain is paused.
pub const NATIVE_PAUSED: u32 = 3;
/// Native state code: the domain is being shut down.
pub const NATIVE_SHUTDOWN: u32 = 4;
/// Native state code: the domain is shut off.
pub const NATIVE_SHUTOFF: u32 = 5;
/// Native state code: the domain has crashed.
pub const NATIVE_CRASHED: u32 = 6;
/// Native state code: the domain is suspended by guest power management.
pub const NATIVE_PMSUSPENDED: u32 = 7;

/// An error value reported by the hypervisor: a native code and the native
/// message verbatim.
#[derive(Debug)]
pub struct HvError {
    /// Native error code.
    pub code: u32,
    /// Native human-readable message.
    pub message: String,
}

/// The view of a hypervisor error.
pub struct HvErrorView {
    /// Native error code.
    pub code: u32,
    /// Native message.
    pub message: Seq<char>,
}

impl View for HvError {
    type V = HvErrorView;

    open spec fn view(&self) -> HvErrorView {
        HvErrorView { code: self.code, message: self.message@ }
    }
}

/// The view of a native call result whose success carries a code.
pub open spec fn spec_result_view(r: Result<u32, HvError>) -> Result<u32, HvErrorView> {
    match r {
        Ok(c) => Ok(c),
        Err(e) => Err(e@),
    }
}

/// The view of a native call result whose success carries nothing.
pub open spec fn spec_unit_result_view(r: Result<(), HvError>) -> Result<(), HvErrorView> {
    match r {
        Ok(u) => Ok(u),
        Err(e) => Err(e@),
    }
}

/// A structured failure payload built from a hypervisor error: the native
/// message is preserved verbatim and the native code is carried along, so
/// no native detail is discarded.
#[derive(Debug)]
pub struct StructuredFailure {
    /// The native message, unmodified.
    pub message: String,
    /// The native code, where the source of the failure had one.
    pub native_code: Option<u32>,
}

/// A native domain-state code outside the known set: a compatibility fault
/// that must be surfaced loudly, never silently coerced to `Unspecified`.
/// It is fatal to the single call that met it, not to the process.
#[derive(Debug)]
pub struct TranslationFault {
    /// The unrecognized native code.
    pub code: u32,
}

/// The native state table: which wire state each known native code
/// denotes.  Codes outside the table denote nothing.
pub open spec fn spec_native_state(code: u32) -> Option<DomainState> {
    if code == NATIVE_NOSTATE {
        Some(DomainState::NoState)
    } else if code == NATIVE_RUNNING {
        Some(DomainState::Running)
    } else if code == NATIVE_BLOCKED {
        Some(DomainState::Blocked)
    } else if code == NATIVE_PAUSED {
        Some(DomainState::Paused)
    } else if code == NATIVE_SHUTDOWN {
        Some(DomainState::ShutDown)
    } else if code == NATIVE_SHUTOFF {
        Some(DomainState::ShutOff)
    } else if code == NATIVE_CRASHED {
        Some(DomainState::Crashed)
    } else if code == NATIVE_PMSUSPENDED {
        Some(DomainState::PMSuspended)
    } else {
        None
    }
}

/// What a whole native state report translates to.  A report is either a
/// state code, or the explicit absence of one, which legitimately maps to
/// `Unspecified`.
pub open spec fn spec_state_of_report(report: Option<u32>) -> Option<DomainState> {
    match report {
        Some(code) => spec_native_state(code),
        None => Some(DomainState::Unspecified),
    }
}

/// Translates a native domain-state code to the wire vocabulary.
///
/// Total over the known codes; an unknown code is a translation fault
/// carrying the offending code, never `Unspecified`.
pub fn native_state_to_state(code: u32) -> (r: Result<DomainState, TranslationFault>)
    ensures
        match r {
            Ok(s) => spec_native_state(code) == Some(s),
            Err(f) => spec_native_state(code) is None && f.code == code,
        },
{
    if code == NATIVE_NOSTATE {
        Ok(DomainState::NoState)
    } else if code == NATIVE_RUNNING {
        Ok(DomainState::Running)
    } else if code == NATIVE_BLOCKED {
        Ok(DomainState::Blocked)
    } else if code == NATIVE_PAUSED {
        Ok(DomainState::Paused)
    } else if code == NATIVE_SHUTDOWN {
        Ok(DomainState::ShutDown)
    } else if code == NATIVE_SHUTOFF {
        Ok(DomainState::ShutOff)
    } else if code == NATIVE_CRASHED {
        Ok(DomainState::Crashed)
    } else if code == NATIVE_PMSUSPENDED {
        Ok(DomainState::PMSuspended)
    } else {
        Err(TranslationFault { code })
    }
}

/// Translates a whole state report: a missing state is the explicit
/// "no state known" case and maps to `Unspecified`; a present code goes
/// through the native state table.
pub fn state_of_report(report: Option<u32>) -> (r: Result<DomainState, TranslationFault>)
    ensures
        match r {
            Ok(s) => spec_state_of_report(report) == Some(s),
            Err(f) => spec_state_of_report(report) is None && report == Some(f.code),
        },
{
    match report {
        Some(code) => native_state_to_state(code),
        None => Ok(DomainState::Unspecified),
    }
}

/// The wire encoding of each domain state.
pub open spec fn spec_wire_of_state(s: DomainState) -> i32 {
    match s {
        DomainState::Unspecified => 0,
        DomainState::NoState => 1,
        DomainState::Running => 2,
        DomainState::Blocked => 3,
        DomainState::Paused => 4,
        DomainState::ShutDown => 5,
        DomainState::ShutOff => 6,
        DomainState::Crashed => 7,
        DomainState::PMSuspended => 8,
    }
}

/// The state a wire code decodes to, if any.
pub open spec fn spec_state_of_wire(code: i32) -> Option<DomainState> {
    if code == 0 {
        Some(DomainState::Unspecified)
    } else if code == 1 {
        Some(DomainState::NoState)
    } else if code == 2 {
        Some(DomainState::Running)
    } else if code == 3 {
        Some(DomainState::Blocked)
    } else if code == 4 {
        Some(DomainState::Paused)
    } else if code == 5 {
        Some(DomainState::ShutDown)
    } else if code == 6 {
        Some(DomainState::ShutOff)
    } else if code == 7 {
        Some(DomainState::Crashed)
    } else if code == 8 {
        Some(DomainState::PMSuspended)
    } else {
        None
    }
}

/// Encodes a domain state for the wire.
pub fn state_to_wire(s: DomainState) -> (r: i32)
    ensures
        r == spec_wire_of_state(s),
{
    match s {
        DomainState::Unspecified => 0,
        DomainState::NoState => 1,
        DomainState::Running => 2,
        DomainState::Blocked => 3,
        DomainState::Paused => 4,
        DomainState::ShutDown => 5,
        DomainState::ShutOff => 6,
        DomainState::Crashed => 7,
        DomainState::PMSuspended => 8,
    }
}

/// Decodes a wire state code; codes outside the table decode to nothing.
pub fn wire_to_state(code: i32) -> (r: Option<DomainState>)
    ensures
        r == spec_state_of_wire(code),
{
    if code == 0 {
        Some(DomainState::Unspecified)
    } else if code == 1 {
        Some(DomainState::NoState)
    } else if code == 2 {
        Some(DomainState::Running)
    } else if code == 3 {
        Some(DomainState::Blocked)
    } else if code == 4 {
        Some(DomainState::Paused)
    } else if code == 5 {
        Some(DomainState::ShutDown)
    } else if code == 6 {
        Some(DomainState::ShutOff)
    } else if code == 7 {
        Some(DomainState::Crashed)
    } else if code == 8 {
        Some(DomainState::PMSuspended)
    } else {
        None
    }
}

/// Translates a hypervisor error to a structured failure payload, keeping
/// the native message verbatim and carrying the native code.
pub fn translate_error(e: HvError) -> (r: StructuredFailure)
    ensures
        r.message@ == e.message@,
        r.native_code == Some(e.code),
{
    StructuredFailure { message: e.message, native_code: Some(e.code) }
}

/// Law: the translation of native state reports is total over the nine
/// report shapes (the eight known codes and the explicit "no state known"
/// report) and distinct: no two reports share a wire state.
pub proof fn lemma_report_translation_total_distinct(a: Option<u32>, b: Option<u32>)
    requires
        a matches Some(c) ==> c <= NATIVE_PMSUSPENDED,
        b matches Some(c) ==> c <= NATIVE_PMSUSPENDED,
    ensures
        spec_state_of_report(a) is Some,
        a != b ==> spec_state_of_report(a) != spec_state_of_report(b),
{
}

/// Law: only the explicit "no state known" report translates to
/// `Unspecified`; an unknown native code never does, it fails instead.
pub proof fn lemma_unknown_code_is_fault(code: u32)
    ensures
        spec_native_state(code) != Some(DomainState::Unspecified),
        code > NATIVE_PMSUSPENDED ==> spec_native_state(code) is None,
{
}

/// Law: the wire encoding of states is injective, and decoding inverts
/// encoding for every state, so the two mappings are inverse-compatible.
pub proof fn lemma_wire_round_trip(a: DomainState, b: DomainState)
    ensures
        spec_state_of_wire(spec_wire_of_state(a)) == Some(a),
        a != b ==> spec_wire_of_state(a) != spec_wire_of_state(b),
{
}

} // verus!
