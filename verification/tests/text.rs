use libvirt_gateway::hotplug::hostdev_xml;
use libvirt_gateway::render::{dec_string, not_found_message, nonzero_message, uuid_string};
use libvirt_gateway::schema::{DomainState, DomainUuid};
use libvirt_gateway::lifecycle::SuccessResponse;
use libvirt_gateway::wire::{client_result, domain_from_wire, domain_to_wire, WireDomain};
use libvirt_gateway::GRPCAPIError;

#[test]
fn uuid_renders_hyphenated_lowercase_hex() {
    let bytes = vec![
        0x12, 0x34, 0x56, 0x78, 0x9a, 0xbc, 0xde, 0xf0, 0x01, 0x23, 0x45, 0x67, 0x89, 0xab, 0xcd,
        0xef,
    ];
    let u = DomainUuid::from_bytes(bytes).unwrap();
    assert_eq!(uuid_string(&u), "12345678-9abc-def0-0123-456789abcdef");
}

#[test]
fn zero_uuid_renders_all_zeros() {
    let u = DomainUuid::from_bytes(vec![0u8; 16]).unwrap();
    assert_eq!(uuid_string(&u), "00000000-0000-0000-0000-000000000000");
}

#[test]
fn decimal_rendering_has_no_leading_zeros() {
    assert_eq!(dec_string(0), "0");
    assert_eq!(dec_string(7), "7");
    assert_eq!(dec_string(10), "10");
    assert_eq!(dec_string(305), "305");
    assert_eq!(dec_string(u32::MAX), "4294967295");
}

#[test]
fn not_found_message_names_the_uuid() {
    let u = DomainUuid::from_bytes(vec![0xffu8; 16]).unwrap();
    assert_eq!(
        not_found_message(&u),
        "domain with UUID 'ffffffff-ffff-ffff-ffff-ffffffffffff' not found"
    );
}

#[test]
fn nonzero_message_names_operation_and_code() {
    assert_eq!(
        nonzero_message("virDomainCreate", 2),
        "virDomainCreate returned a non-0 response: 2"
    );
}

#[test]
fn hostdev_descriptor_is_byte_for_byte() {
    assert_eq!(
        hostdev_xml("1234", "5678"),
        "<hostdev mode='subsystem' type='usb' managed='no'><source><vendor id='0x1234'/><product id='0x5678'/></source></hostdev>"
    );
}

#[test]
fn api_error_carries_its_message() {
    let e = GRPCAPIError::new("boom".to_string());
    assert_eq!(e.msg().as_str(), "boom");
}

fn wire_domain() -> WireDomain {
    WireDomain {
        uuid: vec![9u8; 16],
        id: 4,
        name: "vm-w".to_string(),
        hostname: None,
        os_type: Some("hvm".to_string()),
        state: 2,
        memory: 100,
        memory_max: 200,
        virt_cpu_num: 1,
        virt_cpu_time: 5,
    }
}

#[test]
fn wire_snapshot_round_trips() {
    let d = domain_from_wire(wire_domain()).unwrap();
    assert_eq!(d.state, DomainState::Running);
    assert_eq!(d.name, "vm-w");
    let w = domain_to_wire(d);
    assert_eq!(w.uuid, vec![9u8; 16]);
    assert_eq!(w.id, 4);
    assert_eq!(w.name, "vm-w");
    assert_eq!(w.hostname, None);
    assert_eq!(w.os_type.as_deref(), Some("hvm"));
    assert_eq!(w.state, 2);
    assert_eq!(w.memory, 100);
    assert_eq!(w.memory_max, 200);
    assert_eq!(w.virt_cpu_num, 1);
    assert_eq!(w.virt_cpu_time, 5);
}

#[test]
fn wire_snapshot_with_short_uuid_is_rejected() {
    let mut w = wire_domain();
    w.uuid = vec![9u8; 3];
    assert!(domain_from_wire(w).is_err());
}

#[test]
fn client_turns_failure_payloads_into_errors() {
    assert!(client_result(SuccessResponse { success: true, error: None }).is_ok());
    let e = client_result(SuccessResponse {
        success: false,
        error: Some("no such domain".to_string()),
    })
    .unwrap_err();
    assert_eq!(e.msg().as_str(), "no such domain");
}

#[test]
fn unknown_wire_state_reads_as_unspecified() {
    let mut w = wire_domain();
    w.state = 77;
    let d = domain_from_wire(w).unwrap();
    assert_eq!(d.state, DomainState::Unspecified);
}
