use spice_gtk_usb_portal::capi_support::{
    bool_to_gboolean, device_id_argument, gboolean_to_bool, session_argument, text_argument,
};
use spice_gtk_usb_portal::error::Error;

#[test]
fn text_argument_checks_utf8() {
    assert_eq!(text_argument(Some(b"abc".as_slice())), Some("abc".to_string()));
    assert_eq!(text_argument(Some("é".as_bytes())), Some("é".to_string()));
    assert_eq!(text_argument(Some(&[0xff, 0xfe][..])), None);
    assert_eq!(text_argument(None), None);
}

#[test]
fn device_id_argument_rules() {
    let id = device_id_argument(Some(b"usb-1".as_slice())).expect("valid");
    assert_eq!(id.as_str(), "usb-1");
    let e = device_id_argument(None).unwrap_err();
    assert_eq!(e.kind(), Some(Error::Failed));
    assert_eq!(e.message, "device_id must be a non-NULL UTF-8 string");
    let e = device_id_argument(Some(&[0xc3][..])).unwrap_err();
    assert_eq!(e.code, 4);
}

#[test]
fn session_argument_rules() {
    assert!(session_argument(true).is_ok());
    let e = session_argument(false).unwrap_err();
    assert_eq!(e.kind(), Some(Error::Failed));
    assert_eq!(e.message, "session must not be NULL");
}

#[test]
fn gboolean_conversions() {
    assert!(!gboolean_to_bool(0));
    assert!(gboolean_to_bool(1));
    assert!(gboolean_to_bool(-7));
    assert_eq!(bool_to_gboolean(true), 1);
    assert_eq!(bool_to_gboolean(false), 0);
    assert_eq!(gboolean_to_bool(bool_to_gboolean(true)), true);
}
