use spice_gtk_usb_portal::devices::OwnedUsbDevice;
use spice_gtk_usb_portal::error::{Error, GlibError};
use spice_gtk_usb_portal::usbredir::{
    channel_event_refreshes, AttachAction, AttachEvent, AttachPhase, ChannelSnapshot, Usbredir, UsbredirError,
};
use spice_gtk_usb_portal::DeviceID;

fn snapshot(flags: &[bool], free: i32) -> ChannelSnapshot {
    ChannelSnapshot { usbredir_channels: flags.to_vec(), free_channels: free }
}

fn bridge() -> Usbredir {
    Usbredir::new(Ok(snapshot(&[true, false, true], 2))).expect("bridge")
}

#[test]
fn new_counts_channels() {
    let u = bridge();
    assert_eq!(u.max_channels(), 2);
    assert_eq!(u.free_channels(), 2);
}

#[test]
fn new_reports_manager_error() {
    let g = GlibError::new(Error::Failed, "no manager");
    match Usbredir::new(Err(g)) {
        Err(UsbredirError::Glib(e)) => assert_eq!(e.message, "no manager"),
        other => panic!("unexpected {other:?}"),
    }
}

#[test]
fn negative_free_count_reads_as_zero() {
    let u = Usbredir::new(Ok(snapshot(&[true], -3))).expect("bridge");
    assert_eq!(u.free_channels(), 0);
    assert_eq!(u.max_channels(), 1);
}

#[test]
fn refresh_reports_changes_once() {
    let mut u = bridge();
    let s = snapshot(&[true, true, true, false], 1);
    let c = u.refresh_channel_counts(&s);
    assert!(c.max_changed);
    assert!(c.free_changed);
    assert_eq!(u.max_channels(), 3);
    assert_eq!(u.free_channels(), 1);
    let again = u.refresh_channel_counts(&s);
    assert!(!again.max_changed);
    assert!(!again.free_changed);
    let only_free = u.refresh_channel_counts(&snapshot(&[true, false, true, true], 0));
    assert!(!only_free.max_changed);
    assert!(only_free.free_changed);
}

#[test]
fn attach_without_manager_is_not_connected() {
    let mut u = bridge();
    let mut d = OwnedUsbDevice::new(DeviceID::new("d".to_string()), 12);
    let (phase, action) = u.attach_step(AttachPhase::Start, AttachEvent::Begin { manager_alive: false }, &mut d);
    assert_eq!(phase, AttachPhase::Done);
    assert!(matches!(action, AttachAction::Finish { result: Err(UsbredirError::NotConnected), .. }));
    assert!(d.owns_fd());
}

#[test]
fn attach_success_path() {
    let mut u = bridge();
    let mut d = OwnedUsbDevice::new(DeviceID::new("d".to_string()), 12);
    let (p, a) = u.attach_step(AttachPhase::Start, AttachEvent::Begin { manager_alive: true }, &mut d);
    assert_eq!(p, AttachPhase::Allocating);
    assert!(matches!(a, AttachAction::AllocateDevice { fd: 12 }));
    let (p, a) = u.attach_step(p, AttachEvent::Allocated(Ok(true)), &mut d);
    assert_eq!(p, AttachPhase::CheckingRedirect);
    assert!(matches!(a, AttachAction::CheckRedirect));
    assert!(!d.owns_fd());
    assert_eq!(d.as_raw_fd(), -1);
    let (p, a) = u.attach_step(p, AttachEvent::RedirectChecked(Ok(())), &mut d);
    assert_eq!(p, AttachPhase::Connecting);
    assert!(matches!(a, AttachAction::ConnectDevice));
    let (p, a) = u.attach_step(p, AttachEvent::Connected(Ok(())), &mut d);
    assert_eq!(p, AttachPhase::Refreshing);
    assert!(matches!(a, AttachAction::ReadSession));
    assert!(d.attached());
    let (p, a) = u.attach_step(p, AttachEvent::SessionRead(Some(snapshot(&[true, true, true], 1))), &mut d);
    assert_eq!(p, AttachPhase::Done);
    match a {
        AttachAction::Finish { result: Ok(()), changes } => {
            assert!(changes.max_changed);
            assert!(changes.free_changed);
        }
        other => panic!("unexpected {other:?}"),
    }
    assert_eq!(u.max_channels(), 3);
    assert_eq!(u.free_channels(), 1);
}

#[test]
fn attach_detaches_an_attached_device_first() {
    let mut u = bridge();
    let mut d = OwnedUsbDevice::new(DeviceID::new("d".to_string()), 5);
    d.set_spice_device();
    let (p, a) = u.attach_step(AttachPhase::Start, AttachEvent::Begin { manager_alive: true }, &mut d);
    assert_eq!(p, AttachPhase::Detaching);
    assert!(matches!(a, AttachAction::DetachFromSpice));
    assert!(!d.attached());
    let (p, a) = u.attach_step(p, AttachEvent::Detached, &mut d);
    assert_eq!(p, AttachPhase::Allocating);
    assert!(matches!(a, AttachAction::AllocateDevice { fd: 5 }));
}

#[test]
fn attach_refused_allocation_keeps_fd() {
    let mut u = bridge();
    let mut d = OwnedUsbDevice::new(DeviceID::new("d".to_string()), 5);
    let (p, _) = u.attach_step(AttachPhase::Start, AttachEvent::Begin { manager_alive: true }, &mut d);
    let (p, a) = u.attach_step(p, AttachEvent::Allocated(Ok(false)), &mut d);
    assert_eq!(p, AttachPhase::Done);
    assert!(matches!(a, AttachAction::Finish { result: Err(UsbredirError::DeviceAttachFailed), .. }));
    assert!(d.owns_fd());
}

#[test]
fn attach_glib_error_on_connect() {
    let mut u = bridge();
    let mut d = OwnedUsbDevice::new(DeviceID::new("d".to_string()), 5);
    let (p, _) = u.attach_step(AttachPhase::Start, AttachEvent::Begin { manager_alive: true }, &mut d);
    let (p, _) = u.attach_step(p, AttachEvent::Allocated(Ok(true)), &mut d);
    let (p, _) = u.attach_step(p, AttachEvent::RedirectChecked(Ok(())), &mut d);
    let g = GlibError::new(Error::Failed, "connect failed");
    let (p, a) = u.attach_step(p, AttachEvent::Connected(Err(g)), &mut d);
    assert_eq!(p, AttachPhase::Done);
    match a {
        AttachAction::Finish { result: Err(UsbredirError::Glib(e)), .. } => assert_eq!(e.message, "connect failed"),
        other => panic!("unexpected {other:?}"),
    }
    assert!(!d.attached());
    assert!(!d.owns_fd());
}

#[test]
fn attach_ignores_out_of_order_answers() {
    let mut u = bridge();
    let mut d = OwnedUsbDevice::new(DeviceID::new("d".to_string()), 5);
    let (p, a) = u.attach_step(AttachPhase::Start, AttachEvent::Connected(Ok(())), &mut d);
    assert_eq!(p, AttachPhase::Start);
    assert!(matches!(a, AttachAction::Ignore));
    assert!(!d.attached());
    let (p, a) = u.attach_step(AttachPhase::Done, AttachEvent::Begin { manager_alive: true }, &mut d);
    assert_eq!(p, AttachPhase::Done);
    assert!(matches!(a, AttachAction::Ignore));
}

#[test]
fn only_redirection_channels_trigger_a_refresh() {
    assert!(channel_event_refreshes(true));
    assert!(!channel_event_refreshes(false));
}

#[test]
fn attach_errors_reach_c_callers_in_portal_domain() {
    let mut u = bridge();
    let mut d = OwnedUsbDevice::new(DeviceID::new("d".to_string()), 5);
    let (p, _) = u.attach_step(AttachPhase::Start, AttachEvent::Begin { manager_alive: true }, &mut d);
    let spice_error = GlibError { domain: "spice-client-error-quark".to_string(), code: 0, message: "busy".to_string() };
    let (_, a) = u.attach_step(p, AttachEvent::Allocated(Err(spice_error)), &mut d);
    match a {
        AttachAction::Finish { result: Err(e), .. } => {
            let g = e.to_glib_error();
            assert_eq!(g.kind(), Some(Error::AttachFailed));
            assert_eq!(g.message, "busy");
        }
        other => panic!("unexpected {other:?}"),
    }
}
