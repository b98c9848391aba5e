use libvirt_gateway::byte_vec_to_uuid;
use libvirt_gateway::fake::{CallRecord, FakeHypervisor};
use libvirt_gateway::lifecycle::{
    LibvirtAPIService, NativeDomainInfo, LIST_FLAG_PAUSED, LIST_FLAG_RUNNING,
};
use libvirt_gateway::schema::{DomainState, DomainUuid};
use libvirt_gateway::translate::HvError;

fn uuid(tag: u8) -> DomainUuid {
    let mut bytes = vec![0u8; 16];
    bytes[15] = tag;
    DomainUuid::from_bytes(bytes).unwrap()
}

fn native(name: &str, tag: u8, state_report: Option<u32>) -> NativeDomainInfo {
    NativeDomainInfo {
        uuid: uuid(tag),
        id: tag as u32,
        name: name.to_string(),
        hostname: Some(format!("host-{}", name)),
        os_type: Some("hvm".to_string()),
        state_report,
        memory: 1024,
        memory_max: 2048,
        virt_cpu_num: 2,
        virt_cpu_time: 777,
    }
}

#[test]
fn list_returns_running_domains_in_reported_order() {
    // Two running and one shut-off domain; the filter asks for running
    // and paused: exactly the two running come back, in order.
    let fake = FakeHypervisor::new(vec![
        native("vm-a", 1, Some(1)),
        native("vm-b", 2, Some(1)),
        native("vm-c", 3, Some(5)),
    ]);
    let mut svc = LibvirtAPIService::new(fake);
    let domains = svc.list_domains(LIST_FLAG_RUNNING | LIST_FLAG_PAUSED).unwrap();
    assert_eq!(domains.len(), 2);
    assert_eq!(domains[0].name, "vm-a");
    assert_eq!(domains[0].state, DomainState::Running);
    assert_eq!(domains[1].name, "vm-b");
    assert_eq!(domains[1].state, DomainState::Running);
}

#[test]
fn list_with_no_state_filter_returns_everything() {
    let fake = FakeHypervisor::new(vec![
        native("vm-a", 1, Some(1)),
        native("vm-b", 2, Some(5)),
        native("vm-c", 3, None),
    ]);
    let mut svc = LibvirtAPIService::new(fake);
    let domains = svc.list_domains(0).unwrap();
    assert_eq!(domains.len(), 3);
    assert_eq!(domains[0].state, DomainState::Running);
    assert_eq!(domains[1].state, DomainState::ShutOff);
    // An unreadable state is the explicit "no state known" report.
    assert_eq!(domains[2].state, DomainState::Unspecified);
}

#[test]
fn list_aborts_whole_call_on_unknown_state_code() {
    let fake = FakeHypervisor::new(vec![
        native("vm-a", 1, Some(1)),
        native("vm-bad", 2, Some(42)),
        native("vm-c", 3, Some(1)),
    ]);
    let mut svc = LibvirtAPIService::new(fake);
    let fault = svc.list_domains(0).unwrap_err();
    assert_eq!(fault.code, 42);
}

#[test]
fn domain_fields_survive_materialization() {
    let fake = FakeHypervisor::new(vec![native("vm-a", 9, Some(3))]);
    let mut svc = LibvirtAPIService::new(fake);
    let domains = svc.list_domains(0).unwrap();
    let d = &domains[0];
    assert_eq!(d.id, 9);
    assert_eq!(d.name, "vm-a");
    assert_eq!(d.hostname.as_deref(), Some("host-vm-a"));
    assert_eq!(d.os_type.as_deref(), Some("hvm"));
    assert_eq!(d.state, DomainState::Paused);
    assert_eq!(d.memory, 1024);
    assert_eq!(d.memory_max, 2048);
    assert_eq!(d.virt_cpu_num, 2);
    assert_eq!(d.virt_cpu_time, 777);
    assert_eq!(d.uuid.bytes()[15], 9);
}

#[test]
fn create_on_unknown_uuid_fails_with_message_naming_it() {
    let fake = FakeHypervisor::new(vec![native("vm-a", 1, Some(5))]);
    let mut svc = LibvirtAPIService::new(fake);
    let missing = uuid(0xab);
    let resp = svc.create_domain(&missing);
    assert!(!resp.success);
    let msg = resp.error.unwrap();
    assert_eq!(msg, "domain with UUID '00000000-0000-0000-0000-0000000000ab' not found");
    assert!(msg.contains("00000000-0000-0000-0000-0000000000ab"));
    // Nothing but the lookup crossed the hypervisor boundary.
    let log = svc.hv.log();
    assert_eq!(log.len(), 1);
    match &log[0] {
        CallRecord::Lookup { uuid: u, found } => {
            assert_eq!(u.bytes()[15], 0xab);
            assert!(!*found);
        },
        _ => panic!("expected a lookup record"),
    }
}

#[test]
fn destroy_on_unknown_uuid_fails_with_message_naming_it() {
    let fake = FakeHypervisor::new(Vec::new());
    let mut svc = LibvirtAPIService::new(fake);
    let missing = uuid(0x01);
    let resp = svc.destroy_domain(&missing);
    assert!(!resp.success);
    let msg = resp.error.unwrap();
    assert_eq!(msg, "domain with UUID '00000000-0000-0000-0000-000000000001' not found");
}

#[test]
fn create_reports_native_zero_as_success() {
    let fake = FakeHypervisor::new(vec![native("vm-a", 1, Some(5))]);
    let mut svc = LibvirtAPIService::new(fake);
    let resp = svc.create_domain(&uuid(1));
    assert!(resp.success);
    assert!(resp.error.is_none());
}

#[test]
fn create_reports_nonzero_native_code_as_failure_naming_it() {
    let fake = FakeHypervisor::new(vec![native("vm-a", 1, Some(5))]);
    let mut svc = LibvirtAPIService::new(fake);
    svc.hv.script_code(3);
    let resp = svc.create_domain(&uuid(1));
    assert!(!resp.success);
    assert_eq!(resp.error.as_deref(), Some("virDomainCreate returned a non-0 response: 3"));
}

#[test]
fn destroy_reports_nonzero_native_code_as_failure_naming_it() {
    let fake = FakeHypervisor::new(vec![native("vm-a", 1, Some(1))]);
    let mut svc = LibvirtAPIService::new(fake);
    svc.hv.script_code(17);
    let resp = svc.destroy_domain(&uuid(1));
    assert!(!resp.success);
    assert_eq!(resp.error.as_deref(), Some("virDomainDestroy returned a non-0 response: 17"));
}

#[test]
fn native_errors_surface_verbatim() {
    let fake = FakeHypervisor::new(vec![native("vm-a", 1, Some(5))]);
    let mut svc = LibvirtAPIService::new(fake);
    svc.hv.script_error(HvError { code: 9, message: "Requested operation is not valid".to_string() });
    let resp = svc.destroy_domain(&uuid(1));
    assert!(!resp.success);
    assert_eq!(resp.error.as_deref(), Some("Requested operation is not valid"));
}

#[test]
fn attach_submits_exactly_the_hotplug_descriptor() {
    let fake = FakeHypervisor::new(vec![native("vm-x", 7, Some(1))]);
    let mut svc = LibvirtAPIService::new(fake);
    let resp = svc.attach_device(&uuid(7), "1234", "5678");
    assert!(resp.success);
    let log = svc.hv.log();
    assert_eq!(log.len(), 2);
    match &log[1] {
        CallRecord::Attach { dom, xml, result } => {
            assert_eq!(*dom, 0);
            assert_eq!(
                xml.as_str(),
                "<hostdev mode='subsystem' type='usb' managed='no'><source><vendor id='0x1234'/><product id='0x5678'/></source></hostdev>"
            );
            assert!(result.is_ok());
        },
        _ => panic!("expected an attach record"),
    }
}

#[test]
fn detach_submits_exactly_the_hotplug_descriptor() {
    let fake = FakeHypervisor::new(vec![native("vm-x", 7, Some(1))]);
    let mut svc = LibvirtAPIService::new(fake);
    let resp = svc.detach_device(&uuid(7), "0a1b", "ffff");
    assert!(resp.success);
    let log = svc.hv.log();
    assert_eq!(log.len(), 2);
    match &log[1] {
        CallRecord::Detach { xml, .. } => {
            assert_eq!(
                xml.as_str(),
                "<hostdev mode='subsystem' type='usb' managed='no'><source><vendor id='0x0a1b'/><product id='0xffff'/></source></hostdev>"
            );
        },
        _ => panic!("expected a detach record"),
    }
}

#[test]
fn sequential_operations_leave_non_interleaved_boundary_blocks() {
    // Two domain-mutating operations in sequence: the boundary record is
    // the first operation's whole block followed by the second's, with
    // no call of one inside the other's block.
    let fake = FakeHypervisor::new(vec![native("vm-a", 1, Some(5)), native("vm-b", 2, Some(1))]);
    let mut svc = LibvirtAPIService::new(fake);
    let r1 = svc.create_domain(&uuid(1));
    let r2 = svc.attach_device(&uuid(2), "1111", "2222");
    assert!(r1.success);
    assert!(r2.success);
    let log = svc.hv.log();
    assert_eq!(log.len(), 4);
    assert!(matches!(&log[0], CallRecord::Lookup { found: true, .. }));
    assert!(matches!(&log[1], CallRecord::Create { dom: 0, .. }));
    assert!(matches!(&log[2], CallRecord::Lookup { found: true, .. }));
    assert!(matches!(&log[3], CallRecord::Attach { dom: 1, .. }));
}

#[test]
fn malformed_uuid_bytes_are_a_protocol_error() {
    assert!(byte_vec_to_uuid(vec![0u8; 15]).is_err());
    assert!(byte_vec_to_uuid(vec![0u8; 17]).is_err());
    assert!(byte_vec_to_uuid(Vec::new()).is_err());
    let u = byte_vec_to_uuid(vec![7u8; 16]).unwrap();
    assert_eq!(u.bytes().as_slice(), &[7u8; 16]);
}
