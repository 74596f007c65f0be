use vstd::prelude::*;
use crate::text::{hex_upper, spec_hex_upper};

verus! {

/// The rules every tablet needs, whatever its ids: access to `uinput`, and no joystick
/// device for the virtual tablet.
pub const REQUIRED_UDEV_STR: &'static str = r#"
KERNEL=="uinput", SUBSYSTEM=="misc", OPTIONS+="static_node=uinput", TAG+="uaccess", TAG+="udev-acl"
KERNEL=="js[0-9]*", SUBSYSTEM=="input", ATTRS{name}=="OpenTabletDriver Virtual Tablet", RUN+="/usr/bin/env rm %E{DEVNAME}"
"#;

/// The name of the file that holds the rules.
pub const UDEV_FILE_NAME: &'static str = "70-opentabletdriver.rules";

/// What the user is told to do with the rules.
pub const UDEV_INSTRUCTIONS: &'static str = "place this file in `/etc/udev/rules.d/70-opentabletdriver.rules` then run the following:\n ```\nsudo udevadm control --reload-rules && sudo udevadm trigger\n```";

/// The attribute match for a device with these ids, written in upper-case hexadecimal.
pub open spec fn device_match(id_vendor: u64, id_product: u64) -> Seq<char> {
    "ATTRS{idVendor}==\""@ + spec_hex_upper(id_vendor as nat) + "\", ATTRS{idProduct}==\""@
        + spec_hex_upper(id_product as nat) + "\""@
}

/// The rules for the device with these ids: its `hidraw` and `usb` nodes are given to the
/// user, and, with the libinput override, its `input` node is matched as well.
pub open spec fn device_rules(id_vendor: u64, id_product: u64, libinput_override: bool) -> Seq<char> {
    let m = device_match(id_vendor, id_product);
    let rules = "KERNEL==\"hidraw*\", "@ + m + ", TAG+=\"uaccess\", TAG+=\"udev-acl\"\nSUBSYSTEM==\"usb\", "@
        + m + ", TAG+=\"uaccess\", TAG+=\"udev-acl\""@;
    if libinput_override {
        rules + "\nSUBSYSTEM==\"input\", "@ + m
    } else {
        rules
    }
}

/// The whole rules file for the device with these ids.
pub open spec fn spec_gen_udev(id_vendor: u64, id_product: u64, libinput_override: bool) -> Seq<char> {
    REQUIRED_UDEV_STR@ + "\n# Generated by TabletBot\n"@ + device_rules(id_vendor, id_product, libinput_override)
}

fn push_device_match(rules: &mut String, vendor: &str, product: &str)
    ensures
        final(rules)@ == old(rules)@ + "ATTRS{idVendor}==\""@ + vendor@ + "\", ATTRS{idProduct}==\""@
            + product@ + "\""@,
{
    rules.append("ATTRS{idVendor}==\"");
    rules.append(vendor);
    rules.append("\", ATTRS{idProduct}==\"");
    rules.append(product);
    rules.append("\"");
}

/// Writes the udev rules file for the device with these ids.
pub fn gen_udev(id_vendor: u64, id_product: u64, libinput_override: bool) -> (res: String)
    ensures
        res@ == spec_gen_udev(id_vendor, id_product, libinput_override),
{
    let vendor = hex_upper(id_vendor);
    let product = hex_upper(id_product);
    let ghost m = device_match(id_vendor, id_product);
    let mut res = String::from_str(REQUIRED_UDEV_STR);
    res.append("\n# Generated by TabletBot\n");
    let ghost head = res@;
    res.append("KERNEL==\"hidraw*\", ");
    push_device_match(&mut res, vendor.as_str(), product.as_str());
    res.append(", TAG+=\"uaccess\", TAG+=\"udev-acl\"\nSUBSYSTEM==\"usb\", ");
    push_device_match(&mut res, vendor.as_str(), product.as_str());
    res.append(", TAG+=\"uaccess\", TAG+=\"udev-acl\"");
    if libinput_override {
        res.append("\nSUBSYSTEM==\"input\", ");
        push_device_match(&mut res, vendor.as_str(), product.as_str());
    }
    assert(res@ =~= head + device_rules(id_vendor, id_product, libinput_override));
    res
}

/// What the bot sends for the udev command: instructions, and the rules as a file.
pub struct UdevReply {
    pub content: String,
    pub file_name: String,
    pub rules: String,
}

/// The answer to the udev command for the device with these ids; the libinput override is
/// on unless it is turned off.
pub fn generate_udev(vendor_id: u64, product_id: u64, libinput_override: Option<bool>) -> (res: UdevReply)
    ensures
        res.content@ == UDEV_INSTRUCTIONS@,
        res.file_name@ == UDEV_FILE_NAME@,
        res.rules@ == spec_gen_udev(
            vendor_id,
            product_id,
            match libinput_override {
                Some(b) => b,
                None => true,
            },
        ),
{
    let libinput = match libinput_override {
        Some(b) => b,
        None => true,
    };
    UdevReply {
        content: String::from_str(UDEV_INSTRUCTIONS),
        file_name: String::from_str(UDEV_FILE_NAME),
        rules: gen_udev(vendor_id, product_id, libinput),
    }
}

} // verus!
