//! The device service's pure core: turning raw device property sets from
//! the host's device scan into USB device records.
//!
//! A raw device is a list of name/value property pairs in scan order.  A
//! record is produced exactly when the set holds both a vendor identifier
//! and a product identifier; a device missing either is discarded, not
//! surfaced as an error.

use vstd::prelude::*;
use vstd::string::StringExecFns;

use crate::schema::USBDevice;

verus! {

/// The property key that names the host device path.
pub open spec fn spec_key_devname() -> Seq<char> {
    "DEVNAME"@
}

/// The property key that names the device model.
pub open spec fn spec_key_model() -> Seq<char> {
    "ID_MODEL"@
}

/// The property key that names the hex vendor identifier.
pub open spec fn spec_key_vendor_id() -> Seq<char> {
    "ID_VENDOR_ID"@
}

/// The property key that names the hex product identifier.
pub open spec fn spec_key_product_id() -> Seq<char> {
    "ID_MODEL_ID"@
}

/// The property key for the vendor name from the hardware-ID database.
pub open spec fn spec_key_vendor_name() -> Seq<char> {
    "ID_VENDOR_FROM_DATABASE"@
}

/// The property key for the model name from the hardware-ID database.
pub open spec fn spec_key_model_name() -> Seq<char> {
    "ID_MODEL_FROM_DATABASE"@
}

/// The view of one raw property set: name/value pairs in scan order.
pub open spec fn spec_props_view(props: Seq<(String, String)>) -> Seq<(Seq<char>, Seq<char>)> {
    props.map_values(|p: (String, String)| (p.0@, p.1@))
}

/// The value of the first property with the given name, if any.
pub open spec fn spec_prop_get(props: Seq<(Seq<char>, Seq<char>)>, key: Seq<char>) -> Option<
    Seq<char>,
>
    decreases props.len(),
{
    if props.len() == 0 {
        None
    } else if props.first().0 == key {
        Some(props.first().1)
    } else {
        spec_prop_get(props.drop_first(), key)
    }
}

/// Looks up the first property with the given name.
pub fn prop_get(props: &Vec<(String, String)>, key: &String) -> (r: Option<String>)
    ensures
        match r {
            Some(v) => spec_prop_get(spec_props_view(props@), key@) == Some(v@),
            None => spec_prop_get(spec_props_view(props@), key@) is None,
        },
{
    let ghost pv = spec_props_view(props@);
    proof {
        assert(pv.skip(0) =~= pv);
    }
    let mut i: usize = 0;
    while i < props.len()
        invariant
            i <= props@.len(),
            pv == spec_props_view(props@),
            pv.len() == props@.len(),
            spec_prop_get(pv, key@) == spec_prop_get(pv.skip(i as int), key@),
        decreases props@.len() - i,
    {
        proof {
            assert(pv[i as int] == (props@[i as int].0@, props@[i as int].1@));
            assert(pv.skip(i as int).first() == pv[i as int]);
            assert(pv.skip(i as int).drop_first() =~= pv.skip(i + 1));
        }
        if props[i].0 == *key {
            let v = props[i].1.clone();
            proof {
                assert(pv.skip(i as int).first().0 == key@);
                assert(spec_prop_get(pv.skip(i as int), key@) == Some(pv[i as int].1));
            }
            return Some(v);
        }
        i += 1;
    }
    proof {
        assert(pv.skip(props@.len() as int) =~= Seq::<(Seq<char>, Seq<char>)>::empty());
    }
    None
}

/// Whether a raw property set yields a device record: it must hold both
/// the vendor identifier and the product identifier.
pub open spec fn spec_device_included(props: Seq<(Seq<char>, Seq<char>)>) -> bool {
    spec_prop_get(props, spec_key_vendor_id()) is Some && spec_prop_get(
        props,
        spec_key_product_id(),
    ) is Some
}

/// A property value, or the empty string where the set lacks it.
pub open spec fn spec_prop_or_empty(o: Option<Seq<char>>) -> Seq<char> {
    match o {
        Some(s) => s,
        None => Seq::empty(),
    }
}

/// The view of one USB device record.
pub struct USBDeviceView {
    /// Host device path.
    pub device: Seq<char>,
    /// Hex vendor identifier.
    pub vendor_id: Seq<char>,
    /// Hex product identifier.
    pub product_id: Seq<char>,
    /// Descriptive model string.
    pub model: Seq<char>,
    /// Vendor name from the hardware-ID database, when present.
    pub vendor_name: Option<Seq<char>>,
    /// Model name from the hardware-ID database, when present.
    pub model_name: Option<Seq<char>>,
}

impl View for USBDevice {
    type V = USBDeviceView;

    open spec fn view(&self) -> USBDeviceView {
        USBDeviceView {
            device: self.device@,
            vendor_id: self.vendor_id@,
            product_id: self.product_id@,
            model: self.model@,
            vendor_name: self.vendor_name.deep_view(),
            model_name: self.model_name.deep_view(),
        }
    }
}

/// The record an included raw property set yields: the join-key
/// identifiers and the names the set holds, with the path and model empty
/// where the set lacks them.
pub open spec fn spec_device_of(props: Seq<(Seq<char>, Seq<char>)>) -> USBDeviceView
    recommends
        spec_device_included(props),
{
    USBDeviceView {
        device: spec_prop_or_empty(spec_prop_get(props, spec_key_devname())),
        vendor_id: spec_prop_or_empty(spec_prop_get(props, spec_key_vendor_id())),
        product_id: spec_prop_or_empty(spec_prop_get(props, spec_key_product_id())),
        model: spec_prop_or_empty(spec_prop_get(props, spec_key_model())),
        vendor_name: spec_prop_get(props, spec_key_vendor_name()),
        model_name: spec_prop_get(props, spec_key_model_name()),
    }
}

/// Turns one raw property set into a device record, or nothing when the
/// set lacks the vendor identifier or the product identifier.
pub fn device_from_props(props: &Vec<(String, String)>) -> (r: Option<USBDevice>)
    ensures
        r is Some <==> spec_device_included(spec_props_view(props@)),
        r matches Some(d) ==> d@ == spec_device_of(spec_props_view(props@)),
{
    let vendor_id = match prop_get(props, &String::from_str("ID_VENDOR_ID")) {
        Some(v) => v,
        None => {
            return None;
        },
    };
    let product_id = match prop_get(props, &String::from_str("ID_MODEL_ID")) {
        Some(v) => v,
        None => {
            return None;
        },
    };
    let device = match prop_get(props, &String::from_str("DEVNAME")) {
        Some(v) => v,
        None => String::new(),
    };
    let model = match prop_get(props, &String::from_str("ID_MODEL")) {
        Some(v) => v,
        None => String::new(),
    };
    let vendor_name = prop_get(props, &String::from_str("ID_VENDOR_FROM_DATABASE"));
    let model_name = prop_get(props, &String::from_str("ID_MODEL_FROM_DATABASE"));
    Some(USBDevice { device, vendor_id, product_id, model, vendor_name, model_name })
}

/// The one-line description of a device: path, the identifier pair, the
/// model, and the database names where both are known.
pub open spec fn spec_describe(d: USBDeviceView) -> Seq<char> {
    let base = d.device + ": "@ + d.vendor_id + ":"@ + d.product_id + " "@ + d.model;
    if d.vendor_name is Some && d.model_name is Some {
        base + " ("@ + d.vendor_name.unwrap() + " "@ + d.model_name.unwrap() + ")"@
    } else {
        base
    }
}

impl USBDevice {
    /// Renders the one-line description of this device.
    pub fn describe(&self) -> (r: String)
        ensures
            r@ == spec_describe(self@),
    {
        let mut out = self.device.clone();
        out.append(": ");
        out.append(self.vendor_id.as_str());
        out.append(":");
        out.append(self.product_id.as_str());
        out.append(" ");
        out.append(self.model.as_str());
        match (&self.vendor_name, &self.model_name) {
            (Some(v), Some(m)) => {
                out.append(" (");
                out.append(v.as_str());
                out.append(" ");
                out.append(m.as_str());
                out.append(")");
            },
            _ => {},
        }
        proof {
            assert(out@ =~= spec_describe(self@));
        }
        out
    }
}

/// The device records a whole scan yields, in scan order: one record per
/// included raw set, none for the rest.
pub open spec fn spec_devices_of(scan: Seq<Seq<(Seq<char>, Seq<char>)>>) -> Seq<USBDeviceView>
    decreases scan.len(),
{
    if scan.len() == 0 {
        Seq::empty()
    } else {
        spec_devices_of(scan.drop_last()) + (if spec_device_included(scan.last()) {
            seq![spec_device_of(scan.last())]
        } else {
            Seq::empty()
        })
    }
}

/// The view of a whole scan: each raw set viewed.
pub open spec fn spec_scan_view(scan: Seq<Vec<(String, String)>>) -> Seq<
    Seq<(Seq<char>, Seq<char>)>,
> {
    scan.map_values(|p: Vec<(String, String)>| spec_props_view(p@))
}

/// Turns a whole device scan into USB device records, in scan order,
/// keeping exactly the raw sets that hold both identifiers.
pub fn usb_devices_from_scan(scan: &Vec<Vec<(String, String)>>) -> (r: Vec<USBDevice>)
    ensures
        r@.map_values(|d: USBDevice| d@) == spec_devices_of(spec_scan_view(scan@)),
{
    let ghost sv = spec_scan_view(scan@);
    let mut out: Vec<USBDevice> = Vec::new();
    let mut i: usize = 0;
    while i < scan.len()
        invariant
            i <= scan@.len(),
            sv == spec_scan_view(scan@),
            sv.len() == scan@.len(),
            out@.map_values(|d: USBDevice| d@) == spec_devices_of(sv.take(i as int)),
        decreases scan@.len() - i,
    {
        let ghost pre = out@.map_values(|d: USBDevice| d@);
        match device_from_props(&scan[i]) {
            Some(d) => {
                out.push(d);
            },
            None => {},
        }
        proof {
            assert(sv.take(i + 1).drop_last() =~= sv.take(i as int));
            assert(sv.take(i + 1).last() == sv[i as int]);
            assert(out@.map_values(|d: USBDevice| d@) =~= spec_devices_of(sv.take(i + 1)));
        }
        i += 1;
    }
    proof {
        assert(sv.take(scan@.len() as int) =~= sv);
    }
    out
}

} // verus!
