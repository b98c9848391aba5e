use libvirt_gateway::device::{device_from_props, prop_get, usb_devices_from_scan};

fn props(pairs: &[(&str, &str)]) -> Vec<(String, String)> {
    pairs.iter().map(|(k, v)| (k.to_string(), v.to_string())).collect()
}

fn full_set() -> Vec<(String, String)> {
    props(&[
        ("DEVNAME", "/dev/bus/usb/001/004"),
        ("ID_MODEL", "Flash_Drive"),
        ("ID_VENDOR_ID", "0781"),
        ("ID_MODEL_ID", "5567"),
        ("ID_VENDOR_FROM_DATABASE", "SanDisk Corp."),
        ("ID_MODEL_FROM_DATABASE", "Cruzer Blade"),
    ])
}

#[test]
fn device_with_both_identifiers_is_included() {
    let d = device_from_props(&full_set()).unwrap();
    assert_eq!(d.device, "/dev/bus/usb/001/004");
    assert_eq!(d.model, "Flash_Drive");
    assert_eq!(d.vendor_id, "0781");
    assert_eq!(d.product_id, "5567");
    assert_eq!(d.vendor_name.as_deref(), Some("SanDisk Corp."));
    assert_eq!(d.model_name.as_deref(), Some("Cruzer Blade"));
}

#[test]
fn device_missing_vendor_id_is_excluded() {
    let p = props(&[
        ("DEVNAME", "/dev/bus/usb/001/005"),
        ("ID_MODEL", "Hub"),
        ("ID_MODEL_ID", "0610"),
    ]);
    assert!(device_from_props(&p).is_none());
}

#[test]
fn device_missing_product_id_is_excluded() {
    let p = props(&[
        ("DEVNAME", "/dev/bus/usb/001/006"),
        ("ID_MODEL", "Hub"),
        ("ID_VENDOR_ID", "05e3"),
    ]);
    assert!(device_from_props(&p).is_none());
}

#[test]
fn device_with_identifiers_alone_is_still_included() {
    // Only the two join-key identifiers are required; path and model fall
    // back to empty, database names to absent.
    let p = props(&[("ID_VENDOR_ID", "1234"), ("ID_MODEL_ID", "5678")]);
    let d = device_from_props(&p).unwrap();
    assert_eq!(d.vendor_id, "1234");
    assert_eq!(d.product_id, "5678");
    assert_eq!(d.device, "");
    assert_eq!(d.model, "");
    assert!(d.vendor_name.is_none());
    assert!(d.model_name.is_none());
}

#[test]
fn scan_keeps_order_and_drops_only_incomplete_sets() {
    let scan = vec![
        props(&[("DEVNAME", "/dev/a"), ("ID_VENDOR_ID", "0001"), ("ID_MODEL_ID", "000a"),
            ("ID_MODEL", "A")]),
        props(&[("DEVNAME", "/dev/b"), ("ID_MODEL", "B")]),
        props(&[("DEVNAME", "/dev/c"), ("ID_VENDOR_ID", "0003"), ("ID_MODEL_ID", "000c"),
            ("ID_MODEL", "C")]),
        props(&[("DEVNAME", "/dev/d"), ("ID_MODEL_ID", "000d"), ("ID_MODEL", "D")]),
    ];
    let out = usb_devices_from_scan(&scan);
    assert_eq!(out.len(), 2);
    assert_eq!(out[0].device, "/dev/a");
    assert_eq!(out[0].vendor_id, "0001");
    assert_eq!(out[1].device, "/dev/c");
    assert_eq!(out[1].product_id, "000c");
}

#[test]
fn empty_scan_yields_no_devices() {
    let scan: Vec<Vec<(String, String)>> = Vec::new();
    assert!(usb_devices_from_scan(&scan).is_empty());
}

#[test]
fn description_includes_database_names_only_when_both_are_known() {
    let d = device_from_props(&full_set()).unwrap();
    assert_eq!(
        d.describe(),
        "/dev/bus/usb/001/004: 0781:5567 Flash_Drive (SanDisk Corp. Cruzer Blade)"
    );
    let mut p = full_set();
    p.retain(|(k, _)| k != "ID_MODEL_FROM_DATABASE");
    let d = device_from_props(&p).unwrap();
    assert_eq!(d.describe(), "/dev/bus/usb/001/004: 0781:5567 Flash_Drive");
}

#[test]
fn lookup_takes_the_first_occurrence() {
    let p = props(&[("K", "first"), ("K", "second")]);
    assert_eq!(prop_get(&p, &"K".to_string()).as_deref(), Some("first"));
    assert!(prop_get(&p, &"MISSING".to_string()).is_none());
}
