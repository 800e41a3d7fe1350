use spice_gtk_usb_portal::error::{Error, GlibError};
use spice_gtk_usb_portal::usbredir::UsbredirError;
use spice_gtk_usb_portal::devices::{DeviceError, PortalFailure, UsbError};

#[test]
fn error_codes_are_fixed() {
    assert_eq!(Error::Portal.code(), 0);
    assert_eq!(Error::Usb.code(), 1);
    assert_eq!(Error::NotConnected.code(), 2);
    assert_eq!(Error::AttachFailed.code(), 3);
    assert_eq!(Error::Failed.code(), 4);
}

#[test]
fn error_code_round_trip() {
    for e in [Error::Portal, Error::Usb, Error::NotConnected, Error::AttachFailed, Error::Failed] {
        assert_eq!(Error::from_code(e.code()), Some(e));
    }
    assert_eq!(Error::from_code(5), None);
    assert_eq!(Error::from_code(-1), None);
}

#[test]
fn error_domain_name() {
    assert_eq!(Error::domain(), "SpiceUsbPortalError");
}

#[test]
fn glib_error_new_and_kind() {
    let e = GlibError::new(Error::AttachFailed, "nope");
    assert_eq!(e.domain, "SpiceUsbPortalError");
    assert_eq!(e.code, 3);
    assert_eq!(e.message, "nope");
    assert_eq!(e.kind(), Some(Error::AttachFailed));
    let foreign = GlibError { domain: "g-io-error-quark".to_string(), code: 3, message: String::new() };
    assert_eq!(foreign.kind(), None);
    let d = e.duplicate();
    assert_eq!(d.message, "nope");
    assert_eq!(d.code, 3);
}

#[test]
fn usbredir_error_messages() {
    assert_eq!(UsbredirError::NotConnected.message(), "the SPICE session is not connected");
    assert_eq!(
        UsbredirError::DeviceAttachFailed.message(),
        "the device could not be attached to the SPICE session"
    );
    let g = GlibError::new(Error::Failed, "spice said no");
    assert_eq!(UsbredirError::Glib(g).message(), "spice said no");
}

#[test]
fn usbredir_error_to_glib_error() {
    let e = UsbredirError::NotConnected.to_glib_error();
    assert_eq!(e.kind(), Some(Error::NotConnected));
    assert_eq!(e.message, "the SPICE session is not connected");
    let e = UsbredirError::DeviceAttachFailed.to_glib_error();
    assert_eq!(e.kind(), Some(Error::AttachFailed));
    let inner = GlibError { domain: "spice-client-error-quark".to_string(), code: 7, message: "x".to_string() };
    let e = UsbredirError::from(inner).to_glib_error();
    assert_eq!(e.kind(), Some(Error::AttachFailed));
    assert_eq!(e.message, "x");
    let ours = GlibError::new(Error::Usb, "already ours");
    let e = UsbredirError::Glib(ours).to_glib_error();
    assert_eq!(e.kind(), Some(Error::Usb));
    assert_eq!(e.message, "already ours");
}

#[test]
fn usbredir_setup_error_to_glib_error() {
    let inner = GlibError { domain: "spice-client-error-quark".to_string(), code: 1, message: "no manager".to_string() };
    let e = UsbredirError::Glib(inner).to_setup_glib_error();
    assert_eq!(e.kind(), Some(Error::Failed));
    assert_eq!(e.message, "no manager");
    let e = UsbredirError::NotConnected.to_setup_glib_error();
    assert_eq!(e.kind(), Some(Error::NotConnected));
}

#[test]
fn device_error_messages() {
    let usb = DeviceError::from(UsbError::new(Some("permission denied".to_string())));
    assert_eq!(usb.message(), "permission denied");
    let usb_empty = DeviceError::Usb(UsbError::new(None));
    assert_eq!(usb_empty.message(), "");
    let init = DeviceError::Init(GlibError::new(Error::Portal, "no portal"));
    assert_eq!(init.message(), "Initialization error: no portal");
    let portal = DeviceError::from(PortalFailure::new("Portal request was cancelled".to_string()));
    assert_eq!(portal.message(), "Portal request was cancelled");
}

#[test]
fn device_error_to_glib_error() {
    let g = DeviceError::Usb(UsbError::new(Some("busy".to_string()))).to_glib_error();
    assert_eq!(g.kind(), Some(Error::Usb));
    assert_eq!(g.message, "busy");
    let g = DeviceError::Portal(PortalFailure::new("gone".to_string())).to_glib_error();
    assert_eq!(g.kind(), Some(Error::Portal));
    assert_eq!(g.message, "gone");
    let inner = GlibError { domain: "g-io-error-quark".to_string(), code: 19, message: "m".to_string() };
    let g = DeviceError::Init(inner).to_glib_error();
    assert_eq!(g.kind(), Some(Error::Portal));
    assert_eq!(g.message, "m");
    let ours = GlibError::new(Error::Portal, "portal gone");
    let g = DeviceError::Init(ours).to_glib_error();
    assert_eq!(g.kind(), Some(Error::Portal));
    assert_eq!(g.message, "portal gone");
}

#[test]
fn portal_init_error_is_portal_code() {
    let g = spice_gtk_usb_portal::devices::error::portal_init_error(&PortalFailure::new(
        "A portal frontend was not found".to_string(),
    ));
    assert_eq!(g.kind(), Some(Error::Portal));
    assert_eq!(g.message, "A portal frontend was not found");
}

#[test]
fn in_portal_domain_keeps_own_errors_and_maps_others() {
    let ours = GlibError::new(Error::NotConnected, "a");
    let kept = ours.in_portal_domain(Error::Failed);
    assert_eq!(kept.kind(), Some(Error::NotConnected));
    let foreign = GlibError { domain: "spice-client-error-quark".to_string(), code: 0, message: "b".to_string() };
    let mapped = foreign.in_portal_domain(Error::Failed);
    assert_eq!(mapped.kind(), Some(Error::Failed));
    assert_eq!(mapped.message, "b");
}
