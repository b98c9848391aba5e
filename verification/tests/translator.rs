use libvirt_gateway::schema::DomainState;
use libvirt_gateway::translate::{
    native_state_to_state, state_of_report, state_to_wire, translate_error, wire_to_state, HvError,
};

#[test]
fn native_table_is_total_and_distinct() {
    let table = [
        (0u32, DomainState::NoState),
        (1u32, DomainState::Running),
        (2u32, DomainState::Blocked),
        (3u32, DomainState::Paused),
        (4u32, DomainState::ShutDown),
        (5u32, DomainState::ShutOff),
        (6u32, DomainState::Crashed),
        (7u32, DomainState::PMSuspended),
    ];
    for (code, expected) in table {
        assert_eq!(native_state_to_state(code).unwrap(), expected);
    }
    // The ninth report shape: no state known.
    assert_eq!(state_of_report(None).unwrap(), DomainState::Unspecified);
    // Distinct: no two report shapes share a state.
    let mut seen: Vec<DomainState> = vec![DomainState::Unspecified];
    for (code, _) in table {
        let s = native_state_to_state(code).unwrap();
        assert!(!seen.contains(&s));
        seen.push(s);
    }
}

#[test]
fn unknown_native_code_is_a_fault_not_unspecified() {
    for code in [8u32, 9, 100, u32::MAX] {
        let f = native_state_to_state(code).unwrap_err();
        assert_eq!(f.code, code);
    }
    // A state that cannot be read is not a fault: it is the explicit
    // "no state known" report.
    assert_eq!(state_of_report(None).unwrap(), DomainState::Unspecified);
    assert_eq!(state_of_report(Some(8)).unwrap_err().code, 8);
}

#[test]
fn wire_encoding_round_trips() {
    let states = [
        DomainState::Unspecified,
        DomainState::NoState,
        DomainState::Running,
        DomainState::Blocked,
        DomainState::Paused,
        DomainState::ShutDown,
        DomainState::ShutOff,
        DomainState::Crashed,
        DomainState::PMSuspended,
    ];
    let mut codes: Vec<i32> = Vec::new();
    for s in states {
        let w = state_to_wire(s);
        assert_eq!(wire_to_state(w), Some(s));
        assert!(!codes.contains(&w));
        codes.push(w);
    }
    assert_eq!(wire_to_state(9), None);
    assert_eq!(wire_to_state(-1), None);
}

#[test]
fn wire_codes_match_the_protocol_table() {
    assert_eq!(state_to_wire(DomainState::Unspecified), 0);
    assert_eq!(state_to_wire(DomainState::NoState), 1);
    assert_eq!(state_to_wire(DomainState::Running), 2);
    assert_eq!(state_to_wire(DomainState::Blocked), 3);
    assert_eq!(state_to_wire(DomainState::Paused), 4);
    assert_eq!(state_to_wire(DomainState::ShutDown), 5);
    assert_eq!(state_to_wire(DomainState::ShutOff), 6);
    assert_eq!(state_to_wire(DomainState::Crashed), 7);
    assert_eq!(state_to_wire(DomainState::PMSuspended), 8);
}

#[test]
fn error_translation_keeps_every_native_detail() {
    let e = HvError { code: 55, message: "operation failed: domain is not running".to_string() };
    let f = translate_error(e);
    assert_eq!(f.message, "operation failed: domain is not running");
    assert_eq!(f.native_code, Some(55));
}
