use spice_gtk_usb_portal::devices::description::hub_verdict;
use spice_gtk_usb_portal::devices::{DeviceDescription, Fd, OwnedUsbDevice, UsbDeviceInfo};
use spice_gtk_usb_portal::DeviceID;

fn info(model: Option<&str>) -> UsbDeviceInfo {
    UsbDeviceInfo {
        parent: Some(DeviceID::new("/sys/bus/usb/1".to_string())),
        readable: true,
        writable: false,
        vendor: Some("Logitech, Inc.".to_string()),
        model: model.map(|m| m.to_string()),
    }
}

#[test]
fn description_getters() {
    let d = DeviceDescription::new(DeviceID::new("dev-1".to_string()), info(Some("Unifying Receiver")));
    assert_eq!(d.id().as_str(), "dev-1");
    assert_eq!(d.model().as_deref(), Some("Unifying Receiver"));
    assert_eq!(d.vendor().as_deref(), Some("Logitech, Inc."));
    assert!(d.readable());
    assert!(!d.writable());
    assert_eq!(d.parent_id().map(|p| p.as_str()), Some("/sys/bus/usb/1"));
    let root = DeviceDescription::new(
        DeviceID::new("root".to_string()),
        UsbDeviceInfo { parent: None, readable: false, writable: true, vendor: None, model: None },
    );
    assert!(root.parent_id().is_none());
    assert!(root.model().is_none());
    assert!(root.writable());
    let copy = d.duplicate();
    assert_eq!(copy.id().as_str(), "dev-1");
}

#[test]
fn hub_heuristic_matches_hubs() {
    for model in ["USB 2.0 Hub", "usb hub", "4-Port USB 3.0 Hub", "2.0 root hub", "USB Billboard Device", "hub", "  Hub device"] {
        let d = DeviceDescription::new(DeviceID::new("x".to_string()), info(Some(model)));
        let expected = !model.starts_with("4-Port");
        assert_eq!(d.is_likely_usb_hub(), expected, "model {model:?}");
    }
}

#[test]
fn hub_heuristic_rejects_other_devices() {
    for model in ["Unifying Receiver", "Hub Mouse", "Linux Foundation 2.0 root hub", "hubble"] {
        let d = DeviceDescription::new(DeviceID::new("x".to_string()), info(Some(model)));
        assert!(!d.is_likely_usb_hub(), "model {model:?}");
    }
    let none = DeviceDescription::new(DeviceID::new("x".to_string()), info(None));
    assert!(!none.is_likely_usb_hub());
}

#[test]
fn owned_device_from_portal() {
    let d = OwnedUsbDevice::new(DeviceID::new("dev-7".to_string()), 42);
    assert_eq!(d.device_id().map(|i| i.as_str().to_string()), Some("dev-7".to_string()));
    assert_eq!(d.as_raw_fd(), 42);
    assert!(d.owns_fd());
    assert!(!d.attached());
}

#[test]
fn owned_device_from_plain_fd_skips_portal_release() {
    let mut d = OwnedUsbDevice::from_owned_fd(9);
    assert!(d.device_id().is_none());
    d.set_spice_device();
    let plan = d.dispose();
    assert!(plan.disconnect_from_spice);
    assert!(plan.release_from_portal.is_none());
}

#[test]
fn release_fd_hands_over_the_descriptor() {
    let mut d = OwnedUsbDevice::from_owned_fd(17);
    assert_eq!(d.as_raw_fd(), 17);
    d.release_fd();
    assert_eq!(d.as_raw_fd(), -1);
    assert!(!d.owns_fd());
    d.release_fd();
    assert_eq!(d.as_raw_fd(), -1);
    assert!(!d.owns_fd());
}

#[test]
fn default_fd_is_invalid() {
    let fd = Fd::default();
    assert_eq!(fd, Fd::Released(-1));
    assert_eq!(fd.raw(), -1);
}

#[test]
fn detach_is_idempotent() {
    let mut d = OwnedUsbDevice::new(DeviceID::new("a".to_string()), 3);
    assert!(!d.detach_from_spice());
    d.set_spice_device();
    assert!(d.attached());
    assert!(d.detach_from_spice());
    assert!(!d.attached());
    assert!(!d.detach_from_spice());
}

#[test]
fn dispose_twice_does_nothing_the_second_time() {
    let mut d = OwnedUsbDevice::new(DeviceID::new("a".to_string()), 3);
    d.set_spice_device();
    let first = d.dispose();
    assert!(first.disconnect_from_spice);
    assert_eq!(first.release_from_portal.map(|i| i.as_str().to_string()), Some("a".to_string()));
    let second = d.dispose();
    assert!(!second.disconnect_from_spice);
    assert!(second.release_from_portal.is_none());
    assert_eq!(d.as_raw_fd(), 3);
    assert!(d.owns_fd());
}

#[test]
fn dispose_of_unattached_plain_device_is_empty() {
    let mut d = OwnedUsbDevice::from_owned_fd(5);
    let plan = d.dispose();
    assert!(!plan.disconnect_from_spice);
    assert!(plan.release_from_portal.is_none());
}

#[test]
fn device_id_comparison() {
    let a = DeviceID::new("a".to_string());
    let b = DeviceID::new("b".to_string());
    assert!(a.same_as(&a.duplicate()));
    assert!(!a.same_as(&b));
}

#[test]
fn hub_verdict_on_regex_answers() {
    assert!(hub_verdict(Some(true)));
    assert!(!hub_verdict(Some(false)));
    assert!(!hub_verdict(None));
}
