//! Data model of the gateway: domain snapshots, domain states, domain
//! identifiers and USB device records.

use vstd::prelude::*;
use vstd::std_specs::cmp::PartialEqSpec;

verus! {

/// The wire vocabulary of domain states.
///
/// `Unspecified` is the explicit "no state known" report; every
/// hypervisor-native state code maps to exactly one of the other variants,
/// and a code outside the known set is a translation fault, never coerced
/// to `Unspecified`.
#[derive(Clone, Copy, PartialEq, Eq, Structural, Debug)]
pub enum DomainState {
    Unspecified,
    NoState,
    Running,
    Blocked,
    Paused,
    ShutDown,
    ShutOff,
    Crashed,
    PMSuspended,
}

/// A 128-bit domain identifier, the sole key used for lookups from the
/// wire protocol.
#[derive(Debug)]
pub struct DomainUuid {
    bytes: Vec<u8>,
}

impl View for DomainUuid {
    type V = Seq<u8>;

    closed spec fn view(&self) -> Seq<u8> {
        self.bytes@
    }
}

impl DomainUuid {
    /// Well-formedness: an identifier always holds exactly 16 bytes.
    pub open spec fn wf(&self) -> bool {
        self@.len() == 16
    }

    /// Builds an identifier from raw bytes; exactly the 16-byte vectors
    /// are accepted.
    pub fn from_bytes(bytes: Vec<u8>) -> (r: Option<DomainUuid>)
        ensures
            bytes@.len() == 16 <==> r is Some,
            r matches Some(u) ==> u@ == bytes@ && u.wf(),
    {
        if bytes.len() == 16 {
            Some(DomainUuid { bytes })
        } else {
            None
        }
    }

    /// The identifier's bytes.
    pub fn bytes(&self) -> (r: &Vec<u8>)
        ensures
            r@ == self@,
    {
        &self.bytes
    }

    /// Byte-for-byte equality of two identifiers.
    pub fn matches(&self, other: &DomainUuid) -> (r: bool)
        ensures
            r == (self@ == other@),
    {
        let r = self.bytes == other.bytes;
        proof {
            if self.bytes@ == other.bytes@ {
                assert(self.bytes.eq_spec(&other.bytes));
            }
            if self.bytes.eq_spec(&other.bytes) {
                assert(self.bytes@ =~= other.bytes@);
            }
        }
        r
    }

    /// A copy of this identifier.
    pub fn duplicate(&self) -> (r: DomainUuid)
        ensures
            r@ == self@,
    {
        DomainUuid { bytes: self.bytes.clone() }
    }

    /// The identifier's bytes, as an owned vector.
    pub fn into_bytes(self) -> (r: Vec<u8>)
        ensures
            r@ == self@,
    {
        self.bytes
    }
}

/// One virtual machine known to the hypervisor, as a fresh immutable
/// snapshot taken on a list or lookup call.
#[derive(Debug)]
pub struct Domain {
    /// Transient numeric handle, `0` when the domain is not running.
    pub id: u32,
    /// Stable 128-bit identifier.
    pub uuid: DomainUuid,
    /// Human-readable label.
    pub name: String,
    /// Reported host name, absent when the hypervisor cannot report it.
    pub hostname: Option<String>,
    /// Reported guest OS type, absent when the hypervisor cannot report it.
    pub os_type: Option<String>,
    /// Current state in the wire vocabulary.
    pub state: DomainState,
    /// Memory in bytes.
    pub memory: u64,
    /// Maximum memory in bytes.
    pub memory_max: u64,
    /// Count of virtual CPUs.
    pub virt_cpu_num: u32,
    /// Cumulative CPU time.
    pub virt_cpu_time: u64,
}

/// One host USB peripheral.
///
/// A record is only ever produced from a raw property set that holds both
/// a vendor identifier and a product identifier.
#[derive(Debug)]
pub struct USBDevice {
    /// Host device path.
    pub device: String,
    /// Hex vendor identifier, half of the join key for attach/detach.
    pub vendor_id: String,
    /// Hex product identifier, the other half of the join key.
    pub product_id: String,
    /// Descriptive model string.
    pub model: String,
    /// Vendor name from the local hardware-ID database, when it has one.
    pub vendor_name: Option<String>,
    /// Model name from the local hardware-ID database, when it has one.
    pub model_name: Option<String>,
}

} // verus!
