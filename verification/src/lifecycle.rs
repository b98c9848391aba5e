//! The domain lifecycle service: the decisions of every domain-targeted
//! operation, stated against an abstract hypervisor capability.
//!
//! Every operation that targets one domain has the same shape: resolve the
//! identifier, then invoke the native operation on the resolved domain.
//! An identifier that does not resolve yields a structured not-found
//! failure; a native error yields a structured failure carrying the native
//! message verbatim; a native success with a non-zero advisory code is a
//! failure naming the code.
//!
//! The capability's contract records every native call in a boundary log,
//! so each operation's contract pins down exactly which calls crossed the
//! hypervisor boundary, and that they crossed it as one contiguous block.

use vstd::prelude::*;

use crate::render::{not_found_message, nonzero_message, spec_not_found_message,
    spec_nonzero_message};
use crate::schema::{Domain, DomainState, DomainUuid};
use crate::translate::{state_of_report, spec_result_view, spec_state_of_report,
    spec_unit_result_view, HvError, HvErrorView, TranslationFault, NATIVE_PAUSED, NATIVE_RUNNING,
    NATIVE_SHUTOFF};

verus! {

/// List filter: select domains that are running.
pub const LIST_FLAG_RUNNING: u32 = 16;

/// List filter: select domains that are paused.
pub const LIST_FLAG_PAUSED: u32 = 32;

/// List filter: select domains that are shut off.
pub const LIST_FLAG_SHUTOFF: u32 = 64;

/// List filter: select domains in any other state.
pub const LIST_FLAG_OTHER: u32 = 128;

/// The success/failure payload of a domain-targeted operation: a success
/// flag, and a message when the operation failed.  Callers inspect the
/// flag; a failure is never a protocol-level error.
#[derive(Debug)]
pub struct SuccessResponse {
    /// Whether the operation succeeded.
    pub success: bool,
    /// The failure message, present exactly when the operation failed.
    pub error: Option<String>,
}

/// One raw domain record as the hypervisor reports it: plain readings of
/// every per-domain attribute the gateway consumes.
#[derive(Debug)]
pub struct NativeDomainInfo {
    /// The domain's stable identifier.
    pub uuid: DomainUuid,
    /// Transient numeric handle, `0` when the domain is not running.
    pub id: u32,
    /// Human-readable label.
    pub name: String,
    /// Reported host name, when the hypervisor could read it.
    pub hostname: Option<String>,
    /// Reported guest OS type, when the hypervisor could read it.
    pub os_type: Option<String>,
    /// The native state code, or nothing when no state could be read.
    pub state_report: Option<u32>,
    /// Memory in bytes.
    pub memory: u64,
    /// Maximum memory in bytes.
    pub memory_max: u64,
    /// Count of virtual CPUs.
    pub virt_cpu_num: u32,
    /// Cumulative CPU time.
    pub virt_cpu_time: u64,
}

/// The view of one raw domain record.
pub struct NativeDomainInfoView {
    /// The domain's stable identifier.
    pub uuid: Seq<u8>,
    /// Transient numeric handle.
    pub id: u32,
    /// Human-readable label.
    pub name: Seq<char>,
    /// Reported host name, when present.
    pub hostname: Option<Seq<char>>,
    /// Reported guest OS type, when present.
    pub os_type: Option<Seq<char>>,
    /// The native state code, or nothing.
    pub state_report: Option<u32>,
    /// Memory in bytes.
    pub memory: u64,
    /// Maximum memory in bytes.
    pub memory_max: u64,
    /// Count of virtual CPUs.
    pub virt_cpu_num: u32,
    /// Cumulative CPU time.
    pub virt_cpu_time: u64,
}

impl View for NativeDomainInfo {
    type V = NativeDomainInfoView;

    open spec fn view(&self) -> NativeDomainInfoView {
        NativeDomainInfoView {
            uuid: self.uuid@,
            id: self.id,
            name: self.name@,
            hostname: self.hostname.deep_view(),
            os_type: self.os_type.deep_view(),
            state_report: self.state_report,
            memory: self.memory,
            memory_max: self.memory_max,
            virt_cpu_num: self.virt_cpu_num,
            virt_cpu_time: self.virt_cpu_time,
        }
    }
}

/// Copies an optional string.
fn clone_opt_string(o: &Option<String>) -> (r: Option<String>)
    ensures
        r == *o,
{
    match o {
        Some(s) => Some(s.clone()),
        None => None,
    }
}

impl NativeDomainInfo {
    /// A copy of this record.
    pub fn duplicate(&self) -> (r: NativeDomainInfo)
        ensures
            r@ == self@,
    {
        NativeDomainInfo {
            uuid: self.uuid.duplicate(),
            id: self.id,
            name: self.name.clone(),
            hostname: clone_opt_string(&self.hostname),
            os_type: clone_opt_string(&self.os_type),
            state_report: self.state_report,
            memory: self.memory,
            memory_max: self.memory_max,
            virt_cpu_num: self.virt_cpu_num,
            virt_cpu_time: self.virt_cpu_time,
        }
    }
}

/// The view of one domain snapshot.
pub struct DomainView {
    /// The domain's stable identifier.
    pub uuid: Seq<u8>,
    /// Transient numeric handle.
    pub id: u32,
    /// Human-readable label.
    pub name: Seq<char>,
    /// Reported host name, when present.
    pub hostname: Option<Seq<char>>,
    /// Reported guest OS type, when present.
    pub os_type: Option<Seq<char>>,
    /// Current state in the wire vocabulary.
    pub state: DomainState,
    /// Memory in bytes.
    pub memory: u64,
    /// Maximum memory in bytes.
    pub memory_max: u64,
    /// Count of virtual CPUs.
    pub virt_cpu_num: u32,
    /// Cumulative CPU time.
    pub virt_cpu_time: u64,
}

impl View for Domain {
    type V = DomainView;

    open spec fn view(&self) -> DomainView {
        DomainView {
            uuid: self.uuid@,
            id: self.id,
            name: self.name@,
            hostname: self.hostname.deep_view(),
            os_type: self.os_type.deep_view(),
            state: self.state,
            memory: self.memory,
            memory_max: self.memory_max,
            virt_cpu_num: self.virt_cpu_num,
            virt_cpu_time: self.virt_cpu_time,
        }
    }
}

/// The domain snapshot a raw record translates to, or nothing when its
/// state report does not translate.
pub open spec fn spec_domain_of_native(n: NativeDomainInfoView) -> Option<DomainView> {
    match spec_state_of_report(n.state_report) {
        Some(s) => Some(
            DomainView {
                uuid: n.uuid,
                id: n.id,
                name: n.name,
                hostname: n.hostname,
                os_type: n.os_type,
                state: s,
                memory: n.memory,
                memory_max: n.memory_max,
                virt_cpu_num: n.virt_cpu_num,
                virt_cpu_time: n.virt_cpu_time,
            },
        ),
        None => None,
    }
}

/// Translates one raw record into a domain snapshot; a state report that
/// does not translate is a translation fault carrying the offending code.
pub fn domain_from_native(n: NativeDomainInfo) -> (r: Result<Domain, TranslationFault>)
    ensures
        match r {
            Ok(d) => spec_domain_of_native(n@) == Some(d@),
            Err(f) => spec_domain_of_native(n@) is None && n.state_report == Some(f.code),
        },
{
    let state = match state_of_report(n.state_report) {
        Ok(s) => s,
        Err(f) => {
            return Err(f);
        },
    };
    Ok(
        Domain {
            uuid: n.uuid,
            id: n.id,
            name: n.name,
            hostname: n.hostname,
            os_type: n.os_type,
            state,
            memory: n.memory,
            memory_max: n.memory_max,
            virt_cpu_num: n.virt_cpu_num,
            virt_cpu_time: n.virt_cpu_time,
        },
    )
}

/// Translates a whole list of raw records.  A record whose state does not
/// translate aborts the whole list: no partial or degraded list is ever
/// returned.
pub fn materialize_domains(raw: &Vec<NativeDomainInfo>) -> (r: Result<Vec<Domain>, TranslationFault>)
    ensures
        match r {
            Ok(ds) => {
                &&& ds@.len() == raw@.len()
                &&& forall|i: int|
                    0 <= i < raw@.len() ==> Some(#[trigger] ds@[i]@) == spec_domain_of_native(
                        raw@[i]@,
                    )
            },
            Err(f) => exists|i: int|
                0 <= i < raw@.len() && spec_domain_of_native(#[trigger] raw@[i]@) is None
                    && raw@[i]@.state_report == Some(f.code),
        },
        r is Ok <==> (forall|i: int|
            0 <= i < raw@.len() ==> spec_domain_of_native(#[trigger] raw@[i]@) is Some),
{
    let mut out: Vec<Domain> = Vec::new();
    let mut i: usize = 0;
    while i < raw.len()
        invariant
            i <= raw@.len(),
            out@.len() == i,
            forall|j: int|
                0 <= j < i ==> Some(#[trigger] out@[j]@) == spec_domain_of_native(raw@[j]@),
        decreases raw@.len() - i,
    {
        match domain_from_native(raw[i].duplicate()) {
            Ok(d) => {
                out.push(d);
            },
            Err(f) => {
                return Err(f);
            },
        }
        i += 1;
    }
    proof {
        assert forall|j: int| 0 <= j < raw@.len() implies spec_domain_of_native(
            #[trigger] raw@[j]@,
        ) is Some by {
            assert(Some(out@[j]@) == spec_domain_of_native(raw@[j]@));
        }
    }
    Ok(out)
}

/// Whether a state report is selected by the list filter flags: with no
/// state-group bit set the filter selects everything; otherwise a running,
/// paused or shut-off report needs its own bit, and every other report
/// (including an unreadable state) falls under the other-states bit.
pub open spec fn spec_flags_select(flags: u32, state_report: Option<u32>) -> bool {
    if flags & (LIST_FLAG_RUNNING | LIST_FLAG_PAUSED | LIST_FLAG_SHUTOFF | LIST_FLAG_OTHER) == 0 {
        true
    } else if state_report == Some(NATIVE_RUNNING) {
        flags & LIST_FLAG_RUNNING != 0
    } else if state_report == Some(NATIVE_PAUSED) {
        flags & LIST_FLAG_PAUSED != 0
    } else if state_report == Some(NATIVE_SHUTOFF) {
        flags & LIST_FLAG_SHUTOFF != 0
    } else {
        flags & LIST_FLAG_OTHER != 0
    }
}

/// Decides whether a state report is selected by the list filter flags.
pub fn flags_select(flags: u32, state_report: Option<u32>) -> (r: bool)
    ensures
        r == spec_flags_select(flags, state_report),
{
    if flags & (LIST_FLAG_RUNNING | LIST_FLAG_PAUSED | LIST_FLAG_SHUTOFF | LIST_FLAG_OTHER) == 0 {
        return true;
    }
    match state_report {
        Some(code) => {
            if code == NATIVE_RUNNING {
                flags & LIST_FLAG_RUNNING != 0
            } else if code == NATIVE_PAUSED {
                flags & LIST_FLAG_PAUSED != 0
            } else if code == NATIVE_SHUTOFF {
                flags & LIST_FLAG_SHUTOFF != 0
            } else {
                flags & LIST_FLAG_OTHER != 0
            }
        },
        None => flags & LIST_FLAG_OTHER != 0,
    }
}

/// The domains a list call selects: the table filtered by the flags, in
/// table order.
pub open spec fn spec_filter_domains(domains: Seq<NativeDomainInfoView>, flags: u32) -> Seq<
    NativeDomainInfoView,
>
    decreases domains.len(),
{
    if domains.len() == 0 {
        Seq::empty()
    } else {
        spec_filter_domains(domains.drop_last(), flags) + (if spec_flags_select(
            flags,
            domains.last().state_report,
        ) {
            seq![domains.last()]
        } else {
            Seq::empty()
        })
    }
}

/// Law: the list filter is sound: every record it selects passes the
/// filter flags with its own state report.
pub proof fn lemma_filter_domains_sound(domains: Seq<NativeDomainInfoView>, flags: u32, i: int)
    requires
        0 <= i < spec_filter_domains(domains, flags).len(),
    ensures
        spec_flags_select(flags, spec_filter_domains(domains, flags)[i].state_report),
    decreases domains.len(),
{
    if domains.len() > 0 {
        let prefix = spec_filter_domains(domains.drop_last(), flags);
        if i < prefix.len() {
            lemma_filter_domains_sound(domains.drop_last(), flags, i);
        }
    }
}

/// Whether some domain in the table has the given identifier.
pub open spec fn spec_uuid_known(domains: Seq<NativeDomainInfoView>, uuid: Seq<u8>) -> bool {
    exists|i: int| 0 <= i < domains.len() && domains[i].uuid == uuid
}

/// One call that crossed the hypervisor boundary, with what it carried and
/// what came back.
#[allow(inconsistent_fields)]
pub enum HvCall {
    /// A list of all domains selected by the flags.
    List {
        /// The filter flags of the call.
        flags: u32,
    },
    /// A lookup of a domain by identifier.
    Lookup {
        /// The identifier looked up.
        uuid: Seq<u8>,
        /// Whether a domain resolved.
        found: bool,
    },
    /// A power-on of the resolved domain.
    Create {
        /// Index of the targeted domain in the table at the call.
        dom: int,
        /// The native result.
        result: Result<u32, HvErrorView>,
    },
    /// A power-off of the resolved domain.
    Destroy {
        /// Index of the targeted domain in the table at the call.
        dom: int,
        /// The native result.
        result: Result<u32, HvErrorView>,
    },
    /// A device attach with a hotplug descriptor.
    Attach {
        /// Index of the targeted domain in the table at the call.
        dom: int,
        /// The descriptor submitted, byte for byte.
        xml: Seq<char>,
        /// The native result.
        result: Result<(), HvErrorView>,
    },
    /// A device detach with a hotplug descriptor.
    Detach {
        /// Index of the targeted domain in the table at the call.
        dom: int,
        /// The descriptor submitted, byte for byte.
        xml: Seq<char>,
        /// The native result.
        result: Result<(), HvErrorView>,
    },
}

/// The hypervisor capability: one connection, consumed under exclusive
/// access.  Its model is the domain table it reports and the log of every
/// call that crossed the boundary; each method appends exactly its own
/// call to the log, so whoever holds the connection exclusively appends a
/// contiguous block.
///
/// Nothing is promised of the result of a mutating call: the hypervisor
/// alone decides success, and the gateway's contracts state what is
/// returned for every value of that result.
pub trait Hypervisor: Sized {
    /// The domain table this hypervisor currently reports, in its order.
    spec fn domains(&self) -> Seq<NativeDomainInfoView>;

    /// Every call that crossed the hypervisor boundary so far, in order.
    spec fn calls(&self) -> Seq<HvCall>;

    /// Enumerates the domains selected by the filter flags, in table
    /// order, as fresh records.
    fn native_list_domains(&mut self, flags: u32) -> (r: Vec<NativeDomainInfo>)
        ensures
            final(self).domains() == old(self).domains(),
            final(self).calls() == old(self).calls().push(HvCall::List { flags }),
            r@.map_values(|d: NativeDomainInfo| d@) == spec_filter_domains(
                old(self).domains(),
                flags,
            ),
    ;

    /// Resolves a domain by identifier: an index into the table when some
    /// domain has the identifier, nothing otherwise.
    fn native_lookup(&mut self, uuid: &DomainUuid) -> (r: Option<usize>)
        ensures
            final(self).domains() == old(self).domains(),
            final(self).calls() == old(self).calls().push(
                HvCall::Lookup { uuid: uuid@, found: r is Some },
            ),
            match r {
                Some(i) => 0 <= i < old(self).domains().len() && old(self).domains()[i as int].uuid
                    == uuid@,
                None => !spec_uuid_known(old(self).domains(), uuid@),
            },
    ;

    /// Powers on the resolved domain.
    fn native_create(&mut self, dom: usize) -> (r: Result<u32, HvError>)
        requires
            dom < old(self).domains().len(),
        ensures
            final(self).calls() == old(self).calls().push(
                HvCall::Create { dom: dom as int, result: spec_result_view(r) },
            ),
    ;

    /// Powers off the resolved domain.
    fn native_destroy(&mut self, dom: usize) -> (r: Result<u32, HvError>)
        requires
            dom < old(self).domains().len(),
        ensures
            final(self).calls() == old(self).calls().push(
                HvCall::Destroy { dom: dom as int, result: spec_result_view(r) },
            ),
    ;

    /// Submits a hotplug descriptor to attach a device to the resolved
    /// domain.
    fn native_attach(&mut self, dom: usize, xml: String) -> (r: Result<(), HvError>)
        requires
            dom < old(self).domains().len(),
        ensures
            final(self).calls() == old(self).calls().push(
                HvCall::Attach { dom: dom as int, xml: xml@, result: spec_unit_result_view(r) },
            ),
    ;

    /// Submits a hotplug descriptor to detach a device from the resolved
    /// domain.
    fn native_detach(&mut self, dom: usize, xml: String) -> (r: Result<(), HvError>)
        requires
            dom < old(self).domains().len(),
        ensures
            final(self).calls() == old(self).calls().push(
                HvCall::Detach { dom: dom as int, xml: xml@, result: spec_unit_result_view(r) },
            ),
    ;
}

/// What a domain-targeted operation responds for each result of a native
/// call whose success carries an advisory code: zero is success, a
/// non-zero code is a failure naming the operation and the code, and a
/// native error is a failure carrying the native message verbatim.
pub open spec fn spec_outcome_with_code(
    op: Seq<char>,
    result: Result<u32, HvErrorView>,
    resp: SuccessResponse,
) -> bool {
    match result {
        Ok(code) => if code == 0 {
            resp.success && resp.error is None
        } else {
            &&& !resp.success
            &&& resp.error matches Some(m) && m@ == spec_nonzero_message(op, code as nat)
        },
        Err(e) => {
            &&& !resp.success
            &&& resp.error matches Some(m) && m@ == e.message
        },
    }
}

/// What a device operation responds for each result of a native call
/// whose success carries nothing: success, or a failure carrying the
/// native message verbatim.
pub open spec fn spec_outcome_plain(result: Result<(), HvErrorView>, resp: SuccessResponse) -> bool {
    match result {
        Ok(_) => resp.success && resp.error is None,
        Err(e) => {
            &&& !resp.success
            &&& resp.error matches Some(m) && m@ == e.message
        },
    }
}

/// The structured not-found failure for an identifier that did not
/// resolve.
pub fn not_found_response(uuid: &DomainUuid) -> (resp: SuccessResponse)
    requires
        uuid.wf(),
    ensures
        !resp.success,
        resp.error matches Some(m) && m@ == spec_not_found_message(uuid@),
{
    SuccessResponse { success: false, error: Some(not_found_message(uuid)) }
}

/// Builds the response for a native call whose success carries an
/// advisory code, preserving the zero-is-success convention of the native
/// layer.
pub fn outcome_with_code(op: &str, r: Result<u32, HvError>) -> (resp: SuccessResponse)
    ensures
        spec_outcome_with_code(op@, spec_result_view(r), resp),
{
    match r {
        Ok(code) => {
            if code == 0 {
                SuccessResponse { success: true, error: None }
            } else {
                SuccessResponse { success: false, error: Some(nonzero_message(op, code)) }
            }
        },
        Err(e) => SuccessResponse { success: false, error: Some(e.message) },
    }
}

/// Builds the response for a native call whose success carries nothing.
pub fn outcome_plain(r: Result<(), HvError>) -> (resp: SuccessResponse)
    ensures
        spec_outcome_plain(spec_unit_result_view(r), resp),
{
    match r {
        Ok(_) => SuccessResponse { success: true, error: None },
        Err(e) => SuccessResponse { success: false, error: Some(e.message) },
    }
}

/// The gateway service: owns the single hypervisor connection and serves
/// every lifecycle and device operation through it.  Each operation
/// borrows the connection exclusively for the duration of its native
/// calls, so the boundary log grows by one contiguous block per
/// operation.
pub struct LibvirtAPIService<H: Hypervisor> {
    /// The hypervisor connection.
    pub hv: H,
}

impl<H: Hypervisor> LibvirtAPIService<H> {
    /// Builds the service around a connection.
    pub fn new(hv: H) -> (s: LibvirtAPIService<H>)
        ensures
            s.hv == hv,
    {
        LibvirtAPIService { hv }
    }

    /// Lists the domains selected by the filter flags as fresh snapshots,
    /// in the hypervisor's order.  A record whose state does not
    /// translate aborts the whole list.
    pub fn list_domains(&mut self, flags: u32) -> (r: Result<Vec<Domain>, TranslationFault>)
        ensures
            final(self).hv.domains() == old(self).hv.domains(),
            final(self).hv.calls() == old(self).hv.calls().push(HvCall::List { flags }),
            ({
                let selected = spec_filter_domains(old(self).hv.domains(), flags);
                match r {
                    Ok(ds) => {
                        &&& ds@.len() == selected.len()
                        &&& forall|i: int|
                            0 <= i < selected.len() ==> Some(#[trigger] ds@[i]@)
                                == spec_domain_of_native(selected[i])
                    },
                    Err(f) => exists|i: int|
                        0 <= i < selected.len() && spec_domain_of_native(
                            #[trigger] selected[i],
                        ) is None,
                }
            }),
    {
        let raw = self.hv.native_list_domains(flags);
        let r = materialize_domains(&raw);
        proof {
            let selected = spec_filter_domains(old(self).hv.domains(), flags);
            assert(raw@.map_values(|d: NativeDomainInfo| d@).len() == raw@.len());
            assert forall|i: int| 0 <= i < selected.len() implies #[trigger] selected[i]
                == raw@[i]@ by {
                assert(raw@.map_values(|d: NativeDomainInfo| d@)[i] == raw@[i]@);
            }
        }
        match &r {
            Ok(ds) => {
                proof {
                    let selected = spec_filter_domains(old(self).hv.domains(), flags);
                    assert forall|i: int| 0 <= i < selected.len() implies Some(#[trigger] ds@[i]@)
                        == spec_domain_of_native(selected[i]) by {
                        assert(Some(ds@[i]@) == spec_domain_of_native(raw@[i]@));
                        assert(selected[i] == raw@[i]@);
                    }
                }
            },
            Err(f) => {
                proof {
                    let selected = spec_filter_domains(old(self).hv.domains(), flags);
                    let i = choose|i: int|
                        0 <= i < raw@.len() && spec_domain_of_native(#[trigger] raw@[i]@) is None;
                    assert(selected[i] == raw@[i]@);
                    assert(0 <= i < selected.len() && spec_domain_of_native(
                        #[trigger] selected[i],
                    ) is None);
                }
            },
        }
        r
    }

    /// Powers on the domain with the given identifier.  An identifier
    /// that does not resolve yields the structured not-found failure and
    /// nothing but the lookup crosses the boundary; otherwise exactly the
    /// lookup and one power-on cross, and the response follows the native
    /// result.
    pub fn create_domain(&mut self, uuid: &DomainUuid) -> (resp: SuccessResponse)
        requires
            uuid.wf(),
        ensures
            !spec_uuid_known(old(self).hv.domains(), uuid@) ==> {
                &&& final(self).hv.calls() == old(self).hv.calls().push(
                    HvCall::Lookup { uuid: uuid@, found: false },
                )
                &&& !resp.success
                &&& resp.error matches Some(m) && m@ == spec_not_found_message(uuid@)
            },
            spec_uuid_known(old(self).hv.domains(), uuid@) ==> {
                &&& final(self).hv.calls().len() == old(self).hv.calls().len() + 2
                &&& final(self).hv.calls().subrange(0, old(self).hv.calls().len() as int) == old(
                    self,
                ).hv.calls()
                &&& final(self).hv.calls()[old(self).hv.calls().len() as int] == HvCall::Lookup {
                    uuid: uuid@,
                    found: true,
                }
                &&& (final(self).hv.calls().last() matches HvCall::Create { dom, result } && 0
                    <= dom < old(self).hv.domains().len() && old(self).hv.domains()[dom].uuid
                    == uuid@ && spec_outcome_with_code("virDomainCreate"@, result, resp))
            },
    {
        match self.hv.native_lookup(uuid) {
            None => not_found_response(uuid),
            Some(dom) => {
                let r = self.hv.native_create(dom);
                proof {
                    assert(final(self).hv.calls().subrange(0, old(self).hv.calls().len() as int)
                        =~= old(self).hv.calls());
                }
                outcome_with_code("virDomainCreate", r)
            },
        }
    }

    /// Powers off the domain with the given identifier, with the same
    /// resolution and response shape as powering on.  Destroying an
    /// already-stopped domain surfaces whatever the hypervisor reports,
    /// unmodified.
    pub fn destroy_domain(&mut self, uuid: &DomainUuid) -> (resp: SuccessResponse)
        requires
            uuid.wf(),
        ensures
            !spec_uuid_known(old(self).hv.domains(), uuid@) ==> {
                &&& final(self).hv.calls() == old(self).hv.calls().push(
                    HvCall::Lookup { uuid: uuid@, found: false },
                )
                &&& !resp.success
                &&& resp.error matches Some(m) && m@ == spec_not_found_message(uuid@)
            },
            spec_uuid_known(old(self).hv.domains(), uuid@) ==> {
                &&& final(self).hv.calls().len() == old(self).hv.calls().len() + 2
                &&& final(self).hv.calls().subrange(0, old(self).hv.calls().len() as int) == old(
                    self,
                ).hv.calls()
                &&& final(self).hv.calls()[old(self).hv.calls().len() as int] == HvCall::Lookup {
                    uuid: uuid@,
                    found: true,
                }
                &&& (final(self).hv.calls().last() matches HvCall::Destroy { dom, result } && 0
                    <= dom < old(self).hv.domains().len() && old(self).hv.domains()[dom].uuid
                    == uuid@ && spec_outcome_with_code("virDomainDestroy"@, result, resp))
            },
    {
        match self.hv.native_lookup(uuid) {
            None => not_found_response(uuid),
            Some(dom) => {
                let r = self.hv.native_destroy(dom);
                proof {
                    assert(final(self).hv.calls().subrange(0, old(self).hv.calls().len() as int)
                        =~= old(self).hv.calls());
                }
                outcome_with_code("virDomainDestroy", r)
            },
        }
    }

    /// Attaches the USB device with the given vendor/product identifier
    /// pair to the domain with the given identifier.  The descriptor that
    /// crosses the boundary is exactly the hotplug descriptor for the
    /// pair; whether the pair names a device actually present is the
    /// hypervisor's sole concern.
    pub fn attach_device(&mut self, uuid: &DomainUuid, vendor_id: &str, product_id: &str) -> (resp:
        SuccessResponse)
        requires
            uuid.wf(),
        ensures
            !spec_uuid_known(old(self).hv.domains(), uuid@) ==> {
                &&& final(self).hv.calls() == old(self).hv.calls().push(
                    HvCall::Lookup { uuid: uuid@, found: false },
                )
                &&& !resp.success
                &&& resp.error matches Some(m) && m@ == spec_not_found_message(uuid@)
            },
            spec_uuid_known(old(self).hv.domains(), uuid@) ==> {
                &&& final(self).hv.calls().len() == old(self).hv.calls().len() + 2
                &&& final(self).hv.calls().subrange(0, old(self).hv.calls().len() as int) == old(
                    self,
                ).hv.calls()
                &&& final(self).hv.calls()[old(self).hv.calls().len() as int] == HvCall::Lookup {
                    uuid: uuid@,
                    found: true,
                }
                &&& (final(self).hv.calls().last() matches HvCall::Attach { dom, xml, result } && 0
                    <= dom < old(self).hv.domains().len() && old(self).hv.domains()[dom].uuid
                    == uuid@ && xml == crate::hotplug::spec_hostdev_xml(vendor_id@, product_id@)
                    && spec_outcome_plain(result, resp))
            },
    {
        match self.hv.native_lookup(uuid) {
            None => not_found_response(uuid),
            Some(dom) => {
                let xml = crate::hotplug::hostdev_xml(vendor_id, product_id);
                let r = self.hv.native_attach(dom, xml);
                proof {
                    assert(final(self).hv.calls().subrange(0, old(self).hv.calls().len() as int)
                        =~= old(self).hv.calls());
                }
                outcome_plain(r)
            },
        }
    }

    /// Detaches the USB device with the given vendor/product identifier
    /// pair from the domain with the given identifier, with the same
    /// shape as attaching.
    pub fn detach_device(&mut self, uuid: &DomainUuid, vendor_id: &str, product_id: &str) -> (resp:
        SuccessResponse)
        requires
            uuid.wf(),
        ensures
            !spec_uuid_known(old(self).hv.domains(), uuid@) ==> {
                &&& final(self).hv.calls() == old(self).hv.calls().push(
                    HvCall::Lookup { uuid: uuid@, found: false },
                )
                &&& !resp.success
                &&& resp.error matches Some(m) && m@ == spec_not_found_message(uuid@)
            },
            spec_uuid_known(old(self).hv.domains(), uuid@) ==> {
                &&& final(self).hv.calls().len() == old(self).hv.calls().len() + 2
                &&& final(self).hv.calls().subrange(0, old(self).hv.calls().len() as int) == old(
                    self,
                ).hv.calls()
                &&& final(self).hv.calls()[old(self).hv.calls().len() as int] == HvCall::Lookup {
                    uuid: uuid@,
                    found: true,
                }
                &&& (final(self).hv.calls().last() matches HvCall::Detach { dom, xml, result } && 0
                    <= dom < old(self).hv.domains().len() && old(self).hv.domains()[dom].uuid
                    == uuid@ && xml == crate::hotplug::spec_hostdev_xml(vendor_id@, product_id@)
                    && spec_outcome_plain(result, resp))
            },
    {
        match self.hv.native_lookup(uuid) {
            None => not_found_response(uuid),
            Some(dom) => {
                let xml = crate::hotplug::hostdev_xml(vendor_id, product_id);
                let r = self.hv.native_detach(dom, xml);
                proof {
                    assert(final(self).hv.calls().subrange(0, old(self).hv.calls().len() as int)
                        =~= old(self).hv.calls());
                }
                outcome_plain(r)
            },
        }
    }
}

/// Law: serialized operations leave serialized traces.  Every operation
/// of the service extends the boundary log by one block of its own calls;
/// when one operation's block is appended and a second operation's block
/// is appended after it, the final log is the old log followed by the two
/// blocks, adjacent, whole and in order — no call of either operation
/// sits inside the other's block.
pub proof fn lemma_ops_serialized(log0: Seq<HvCall>, b1: Seq<HvCall>, b2: Seq<HvCall>)
    ensures
        (log0 + b1) + b2 == log0 + (b1 + b2),
        ((log0 + b1) + b2).subrange(0, log0.len() as int) == log0,
        ((log0 + b1) + b2).subrange(log0.len() as int, (log0.len() + b1.len()) as int) == b1,
        ((log0 + b1) + b2).subrange(
            (log0.len() + b1.len()) as int,
            (log0.len() + b1.len() + b2.len()) as int,
        ) == b2,
{
    assert((log0 + b1) + b2 =~= log0 + (b1 + b2));
    assert(((log0 + b1) + b2).subrange(0, log0.len() as int) =~= log0);
    assert(((log0 + b1) + b2).subrange(log0.len() as int, (log0.len() + b1.len()) as int) =~= b1);
    assert(((log0 + b1) + b2).subrange(
        (log0.len() + b1.len()) as int,
        (log0.len() + b1.len() + b2.len()) as int,
    ) =~= b2);
}

} // verus!
