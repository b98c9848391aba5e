//! An in-memory hypervisor capability: a fixed domain table, scripted
//! results for mutating calls, and a full record of every boundary call.
//! It stands in for the real hypervisor wherever the gateway is exercised
//! without one, and its record is how a harness observes exactly what
//! crossed the boundary.

use vstd::prelude::*;

use crate::lifecycle::{flags_select, spec_filter_domains, HvCall, Hypervisor, NativeDomainInfo,
    NativeDomainInfoView};
use crate::schema::DomainUuid;
use crate::translate::{spec_result_view, spec_unit_result_view, HvError};

verus! {

/// One recorded boundary call, in executable form.  Its view is the call
/// as the capability's contract speaks of it.
#[allow(inconsistent_fields)]
#[derive(Debug)]
pub enum CallRecord {
    /// A list of the domains selected by the flags.
    List {
        /// The filter flags of the call.
        flags: u32,
    },
    /// A lookup of a domain by identifier.
    Lookup {
        /// The identifier looked up.
        uuid: DomainUuid,
        /// Whether a domain resolved.
        found: bool,
    },
    /// A power-on of the domain at the index.
    Create {
        /// Index of the targeted domain.
        dom: usize,
        /// The result handed back.
        result: Result<u32, HvError>,
    },
    /// A power-off of the domain at the index.
    Destroy {
        /// Index of the targeted domain.
        dom: usize,
        /// The result handed back.
        result: Result<u32, HvError>,
    },
    /// A device attach with a hotplug descriptor.
    Attach {
        /// Index of the targeted domain.
        dom: usize,
        /// The descriptor submitted, byte for byte.
        xml: String,
        /// The result handed back.
        result: Result<(), HvError>,
    },
    /// A device detach with a hotplug descriptor.
    Detach {
        /// Index of the targeted domain.
        dom: usize,
        /// The descriptor submitted, byte for byte.
        xml: String,
        /// The result handed back.
        result: Result<(), HvError>,
    },
}

impl View for CallRecord {
    type V = HvCall;

    open spec fn view(&self) -> HvCall {
        match self {
            CallRecord::List { flags } => HvCall::List { flags: *flags },
            CallRecord::Lookup { uuid, found } => HvCall::Lookup { uuid: uuid@, found: *found },
            CallRecord::Create { dom, result } => HvCall::Create {
                dom: *dom as int,
                result: spec_result_view(*result),
            },
            CallRecord::Destroy { dom, result } => HvCall::Destroy {
                dom: *dom as int,
                result: spec_result_view(*result),
            },
            CallRecord::Attach { dom, xml, result } => HvCall::Attach {
                dom: *dom as int,
                xml: xml@,
                result: spec_unit_result_view(*result),
            },
            CallRecord::Detach { dom, xml, result } => HvCall::Detach {
                dom: *dom as int,
                xml: xml@,
                result: spec_unit_result_view(*result),
            },
        }
    }
}

/// Copies a hypervisor error.
fn dup_hv_error(e: &HvError) -> (r: HvError)
    ensures
        r@ == e@,
{
    HvError { code: e.code, message: e.message.clone() }
}

/// The in-memory hypervisor.
pub struct FakeHypervisor {
    table: Vec<NativeDomainInfo>,
    op_code: u32,
    op_error: Option<HvError>,
    log: Vec<CallRecord>,
}

impl FakeHypervisor {
    /// A fake hypervisor with the given domain table; every mutating call
    /// initially reports success with advisory code zero.
    pub fn new(table: Vec<NativeDomainInfo>) -> (h: FakeHypervisor)
        ensures
            h.domains() == table@.map_values(|d: NativeDomainInfo| d@),
            h.calls() == Seq::<HvCall>::empty(),
    {
        let h = FakeHypervisor { table, op_code: 0, op_error: None, log: Vec::new() };
        proof {
            assert(h.log@.map_values(|c: CallRecord| c@) =~= Seq::<HvCall>::empty());
        }
        h
    }

    /// Scripts the advisory code that successful mutating calls report
    /// from now on.
    pub fn script_code(&mut self, code: u32)
        ensures
            final(self).domains() == old(self).domains(),
            final(self).calls() == old(self).calls(),
    {
        self.op_code = code;
        self.op_error = None;
    }

    /// Scripts a native error that every mutating call reports from now
    /// on.
    pub fn script_error(&mut self, e: HvError)
        ensures
            final(self).domains() == old(self).domains(),
            final(self).calls() == old(self).calls(),
    {
        self.op_error = Some(e);
    }

    /// The recorded boundary calls, in order.
    pub fn log(&self) -> (r: &Vec<CallRecord>)
        ensures
            r@.map_values(|c: CallRecord| c@) == self.calls(),
    {
        &self.log
    }

    /// The scripted result of a mutating call whose success carries a
    /// code.
    fn op_result_with_code(&self) -> (r: Result<u32, HvError>) {
        match &self.op_error {
            Some(e) => Err(dup_hv_error(e)),
            None => Ok(self.op_code),
        }
    }

    /// The scripted result of a mutating call whose success carries
    /// nothing.
    fn op_result_plain(&self) -> (r: Result<(), HvError>) {
        match &self.op_error {
            Some(e) => Err(dup_hv_error(e)),
            None => Ok(()),
        }
    }
}

/// Copies a native call result that carries a code.
fn dup_code_result(r: &Result<u32, HvError>) -> (d: Result<u32, HvError>)
    ensures
        spec_result_view(d) == spec_result_view(*r),
{
    match r {
        Ok(c) => Ok(*c),
        Err(e) => Err(dup_hv_error(e)),
    }
}

/// Copies a native call result that carries nothing.
fn dup_plain_result(r: &Result<(), HvError>) -> (d: Result<(), HvError>)
    ensures
        spec_unit_result_view(d) == spec_unit_result_view(*r),
{
    match r {
        Ok(_) => Ok(()),
        Err(e) => Err(dup_hv_error(e)),
    }
}

impl Hypervisor for FakeHypervisor {
    closed spec fn domains(&self) -> Seq<NativeDomainInfoView> {
        self.table@.map_values(|d: NativeDomainInfo| d@)
    }

    closed spec fn calls(&self) -> Seq<HvCall> {
        self.log@.map_values(|c: CallRecord| c@)
    }

    fn native_list_domains(&mut self, flags: u32) -> (r: Vec<NativeDomainInfo>) {
        let ghost dv = self.table@.map_values(|d: NativeDomainInfo| d@);
        let mut out: Vec<NativeDomainInfo> = Vec::new();
        proof {
            assert(dv.take(0) =~= Seq::<NativeDomainInfoView>::empty());
            assert(out@.map_values(|d: NativeDomainInfo| d@) =~= spec_filter_domains(
                dv.take(0),
                flags,
            ));
        }
        let mut i: usize = 0;
        while i < self.table.len()
            invariant
                i <= self.table@.len(),
                dv == self.table@.map_values(|d: NativeDomainInfo| d@),
                dv.len() == self.table@.len(),
                out@.map_values(|d: NativeDomainInfo| d@) == spec_filter_domains(
                    dv.take(i as int),
                    flags,
                ),
            decreases self.table@.len() - i,
        {
            proof {
                assert(dv[i as int] == self.table@[i as int]@);
            }
            if flags_select(flags, self.table[i].state_report) {
                let d = self.table[i].duplicate();
                out.push(d);
            }
            proof {
                assert(dv.take(i + 1).drop_last() =~= dv.take(i as int));
                assert(dv.take(i + 1).last() == dv[i as int]);
                assert(out@.map_values(|d: NativeDomainInfo| d@) =~= spec_filter_domains(
                    dv.take(i + 1),
                    flags,
                ));
            }
            i += 1;
        }
        proof {
            assert(dv.take(self.table@.len() as int) =~= dv);
        }
        self.log.push(CallRecord::List { flags });
        proof {
            assert(self.log@.map_values(|c: CallRecord| c@) =~= old(self).log@.map_values(
                |c: CallRecord| c@,
            ).push(HvCall::List { flags }));
        }
        out
    }

    fn native_lookup(&mut self, uuid: &DomainUuid) -> (r: Option<usize>) {
        let ghost dv = self.table@.map_values(|d: NativeDomainInfo| d@);
        let mut found: Option<usize> = None;
        let mut i: usize = 0;
        while i < self.table.len()
            invariant
                i <= self.table@.len(),
                dv == self.table@.map_values(|d: NativeDomainInfo| d@),
                dv.len() == self.table@.len(),
                match found {
                    Some(k) => k < self.table@.len() && dv[k as int].uuid == uuid@,
                    None => forall|j: int| 0 <= j < i ==> (#[trigger] dv[j].uuid) != uuid@,
                },
            decreases self.table@.len() - i,
        {
            proof {
                assert(dv[i as int] == self.table@[i as int]@);
            }
            if found.is_none() && self.table[i].uuid.matches(uuid) {
                found = Some(i);
            }
            i += 1;
        }
        self.log.push(CallRecord::Lookup { uuid: uuid.duplicate(), found: found.is_some() });
        proof {
            assert(self.log@.map_values(|c: CallRecord| c@) =~= old(self).log@.map_values(
                |c: CallRecord| c@,
            ).push(HvCall::Lookup { uuid: uuid@, found: found is Some }));
        }
        found
    }

    fn native_create(&mut self, dom: usize) -> (r: Result<u32, HvError>) {
        let result = self.op_result_with_code();
        let recorded = dup_code_result(&result);
        self.log.push(CallRecord::Create { dom, result: recorded });
        proof {
            assert(self.log@.map_values(|c: CallRecord| c@) =~= old(self).log@.map_values(
                |c: CallRecord| c@,
            ).push(HvCall::Create { dom: dom as int, result: spec_result_view(result) }));
        }
        result
    }

    fn native_destroy(&mut self, dom: usize) -> (r: Result<u32, HvError>) {
        let result = self.op_result_with_code();
        let recorded = dup_code_result(&result);
        self.log.push(CallRecord::Destroy { dom, result: recorded });
        proof {
            assert(self.log@.map_values(|c: CallRecord| c@) =~= old(self).log@.map_values(
                |c: CallRecord| c@,
            ).push(HvCall::Destroy { dom: dom as int, result: spec_result_view(result) }));
        }
        result
    }

    fn native_attach(&mut self, dom: usize, xml: String) -> (r: Result<(), HvError>) {
        let result = self.op_result_plain();
        let recorded = dup_plain_result(&result);
        self.log.push(CallRecord::Attach { dom, xml, result: recorded });
        proof {
            assert(self.log@.map_values(|c: CallRecord| c@) =~= old(self).log@.map_values(
                |c: CallRecord| c@,
            ).push(
                HvCall::Attach { dom: dom as int, xml: xml@, result: spec_unit_result_view(result) },
            ));
        }
        result
    }

    fn native_detach(&mut self, dom: usize, xml: String) -> (r: Result<(), HvError>) {
        let result = self.op_result_plain();
        let recorded = dup_plain_result(&result);
        self.log.push(CallRecord::Detach { dom, xml, result: recorded });
        proof {
            assert(self.log@.map_values(|c: CallRecord| c@) =~= old(self).log@.map_values(
                |c: CallRecord| c@,
            ).push(
                HvCall::Detach { dom: dom as int, xml: xml@, result: spec_unit_result_view(result) },
            ));
        }
        result
    }
}

} // verus!
