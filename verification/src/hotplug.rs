//! The hotplug descriptor: the exact device-attachment fragment submitted
//! to the hypervisor for USB passthrough.

use vstd::prelude::*;
use vstd::string::StringExecFns;

verus! {

/// The descriptor submitted for an unmanaged USB passthrough device with
/// the given hex vendor and product identifiers.  Its exact shape is a
/// compatibility contract with the hypervisor driver.
pub open spec fn spec_hostdev_xml(vendor_id: Seq<char>, product_id: Seq<char>) -> Seq<char> {
    "<hostdev mode='subsystem' type='usb' managed='no'><source><vendor id='0x"@ + vendor_id
        + "'/><product id='0x"@ + product_id + "'/></source></hostdev>"@
}

/// Builds the hotplug descriptor for a vendor/product identifier pair,
/// byte for byte in the shape the hypervisor driver expects.
pub fn hostdev_xml(vendor_id: &str, product_id: &str) -> (r: String)
    ensures
        r@ == spec_hostdev_xml(vendor_id@, product_id@),
{
    let mut out = String::from_str(
        "<hostdev mode='subsystem' type='usb' managed='no'><source><vendor id='0x",
    );
    out.append(vendor_id);
    out.append("'/><product id='0x");
    out.append(product_id);
    out.append("'/></source></hostdev>");
    proof {
        assert(out@ =~= spec_hostdev_xml(vendor_id@, product_id@));
    }
    out
}

} // verus!
