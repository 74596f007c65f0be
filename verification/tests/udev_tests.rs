use tabletbot::udev::{gen_udev, generate_udev, REQUIRED_UDEV_STR, UDEV_FILE_NAME};

fn formatted_rules(id_vendor: u64, id_product: u64, libinput_override: bool) -> String {
    let mut udev_rules = format!(
        "KERNEL==\"hidraw*\", ATTRS{{idVendor}}==\"{id_vendor:X}\", ATTRS{{idProduct}}==\"{id_product:X}\", TAG+=\"uaccess\", TAG+=\"udev-acl\"\n\
        SUBSYSTEM==\"usb\", ATTRS{{idVendor}}==\"{id_vendor:X}\", ATTRS{{idProduct}}==\"{id_product:X}\", TAG+=\"uaccess\", TAG+=\"udev-acl\""
    );
    if libinput_override {
        udev_rules.push_str(&format!(
            "\nSUBSYSTEM==\"input\", ATTRS{{idVendor}}==\"{id_vendor:X}\", ATTRS{{idProduct}}==\"{id_product:X}\""
        ));
    }
    format!("{REQUIRED_UDEV_STR}\n# Generated by TabletBot\n{udev_rules}")
}

#[test]
fn gen_udev_writes_the_rules() {
    for (v, p) in [(1386u64, 890u64), (0, 0), (0x28bd, 0x0937), (u64::MAX, 1)] {
        for lib in [true, false] {
            assert_eq!(gen_udev(v, p, lib), formatted_rules(v, p, lib));
        }
    }
}

#[test]
fn gen_udev_exact_text() {
    let rules = gen_udev(1386, 890, false);
    assert!(rules.starts_with("\nKERNEL==\"uinput\", SUBSYSTEM==\"misc\""));
    assert!(rules.ends_with(
        "\n# Generated by TabletBot\nKERNEL==\"hidraw*\", ATTRS{idVendor}==\"56A\", ATTRS{idProduct}==\"37A\", TAG+=\"uaccess\", TAG+=\"udev-acl\"\nSUBSYSTEM==\"usb\", ATTRS{idVendor}==\"56A\", ATTRS{idProduct}==\"37A\", TAG+=\"uaccess\", TAG+=\"udev-acl\""
    ));
    let with_input = gen_udev(1386, 890, true);
    assert!(with_input.ends_with("\nSUBSYSTEM==\"input\", ATTRS{idVendor}==\"56A\", ATTRS{idProduct}==\"37A\""));
}

#[test]
fn generate_udev_defaults_to_libinput_override() {
    let reply = generate_udev(1386, 890, None);
    assert_eq!(reply.rules, gen_udev(1386, 890, true));
    assert_eq!(reply.file_name, UDEV_FILE_NAME);
    assert_eq!(reply.file_name, "70-opentabletdriver.rules");
    assert!(reply.content.starts_with("place this file in `/etc/udev/rules.d/70-opentabletdriver.rules`"));
    let off = generate_udev(1386, 890, Some(false));
    assert_eq!(off.rules, gen_udev(1386, 890, false));
}
