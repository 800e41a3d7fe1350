//! The handle of a device whose file descriptor this library holds.

use vstd::prelude::*;

use crate::device_id::DeviceID;
use crate::devices::description::opt_id;

verus! {

/// The file descriptor slot of an owned device.
#[derive(Debug, Clone, Copy, PartialEq, Eq, Structural)]
pub enum Fd {
    /// The descriptor belongs to the device handle, which closes it.
    Owned(i32),
    /// The descriptor now belongs to spice-gtk, which closes it; the handle
    /// only remembers its number.
    Released(i32),
}

/// The descriptor number that stands for "no descriptor".
pub const INVALID_FD: i32 = -1;

impl Fd {
    /// The number that the handle shows for the slot: the descriptor while
    /// the handle owns it, [`INVALID_FD`] once spice-gtk has taken it.
    pub open spec fn spec_visible(self) -> i32 {
        match self {
            Fd::Owned(fd) => fd,
            Fd::Released(_) => INVALID_FD,
        }
    }

    /// The number of the descriptor in the slot.
    pub open spec fn spec_raw(self) -> i32 {
        match self {
            Fd::Owned(fd) => fd,
            Fd::Released(fd) => fd,
        }
    }

    /// The number of the descriptor in the slot.
    pub fn raw(&self) -> (fd: i32)
        ensures
            fd == self.spec_raw(),
    {
        match self {
            Fd::Owned(fd) => *fd,
            Fd::Released(fd) => *fd,
        }
    }
}

impl Default for Fd {
    /// An invalid descriptor, used before the real one is set and after
    /// spice-gtk took ownership.
    fn default() -> (fd: Fd)
        ensures
            fd == Fd::Released(INVALID_FD),
    {
        Fd::Released(INVALID_FD)
    }
}

/// The model of an [`OwnedUsbDevice`].
pub struct OwnedUsbDeviceView {
    /// The portal's identifier of the device, when it was acquired through
    /// the portal (the portal must then be told when it is released).
    pub portal_device: Option<Seq<char>>,
    /// The descriptor slot.
    pub fd: Fd,
    /// Whether the device is attached to a SPICE session.
    pub attached: bool,
}

/// The handle after its descriptor is handed to spice-gtk.
pub open spec fn released(d: OwnedUsbDeviceView) -> OwnedUsbDeviceView {
    OwnedUsbDeviceView { fd: Fd::Released(d.fd.spec_raw()), ..d }
}

/// The handle after its SPICE attachment is forgotten.
pub open spec fn detached(d: OwnedUsbDeviceView) -> OwnedUsbDeviceView {
    OwnedUsbDeviceView { attached: false, ..d }
}

/// The handle after it is recorded as attached to SPICE.
pub open spec fn attached_to_spice(d: OwnedUsbDeviceView) -> OwnedUsbDeviceView {
    OwnedUsbDeviceView { attached: true, ..d }
}

/// The handle after it is disposed.
pub open spec fn disposed(d: OwnedUsbDeviceView) -> OwnedUsbDeviceView {
    OwnedUsbDeviceView { portal_device: None, attached: false, ..d }
}

/// The model of a [`DisposePlan`].
pub struct DisposePlanView {
    pub disconnect_from_spice: bool,
    pub release_from_portal: Option<Seq<char>>,
}

/// What disposing the handle has to do.
pub open spec fn dispose_plan(d: OwnedUsbDeviceView) -> DisposePlanView {
    DisposePlanView { disconnect_from_spice: d.attached, release_from_portal: d.portal_device }
}

/// What has to be done when a device handle goes away.
pub struct DisposePlan {
    /// Disconnect the device from the SPICE session first.
    pub disconnect_from_spice: bool,
    /// Then tell the portal that this device is released.
    pub release_from_portal: Option<DeviceID>,
}

impl View for DisposePlan {
    type V = DisposePlanView;

    open spec fn view(&self) -> DisposePlanView {
        DisposePlanView {
            disconnect_from_spice: self.disconnect_from_spice,
            release_from_portal: opt_id(self.release_from_portal),
        }
    }
}

/// The handle of a device acquired from the portal (or built from any
/// descriptor): it owns the descriptor until spice-gtk takes it, and records
/// whether the device is attached to a SPICE session.
#[derive(Debug)]
pub struct OwnedUsbDevice {
    portal_device: Option<DeviceID>,
    fd: Fd,
    spice_attached: bool,
}

impl View for OwnedUsbDevice {
    type V = OwnedUsbDeviceView;

    closed spec fn view(&self) -> OwnedUsbDeviceView {
        OwnedUsbDeviceView {
            portal_device: opt_id(self.portal_device),
            fd: self.fd,
            attached: self.spice_attached,
        }
    }
}

impl OwnedUsbDevice {
    /// The handle of the device `device_id` that the portal opened as `fd`.
    pub fn new(device_id: DeviceID, fd: i32) -> (d: OwnedUsbDevice)
        ensures
            d@ == (OwnedUsbDeviceView {
                portal_device: Some(device_id@),
                fd: Fd::Owned(fd),
                attached: false,
            }),
    {
        OwnedUsbDevice { portal_device: Some(device_id), fd: Fd::Owned(fd), spice_attached: false }
    }

    /// Create an OwnedUsbDevice from any owned file descriptor.
    /// The portal release step on drop is skipped for fds acquired this way.
    pub fn from_owned_fd(fd: i32) -> (d: OwnedUsbDevice)
        ensures
            d@ == (OwnedUsbDeviceView { portal_device: None, fd: Fd::Owned(fd), attached: false }),
    {
        OwnedUsbDevice { portal_device: None, fd: Fd::Owned(fd), spice_attached: false }
    }

    /// The portal's identifier of the device, `None` when the handle was
    /// built from a plain descriptor.
    pub fn device_id(&self) -> (id: Option<DeviceID>)
        ensures
            opt_id(id) == self@.portal_device,
    {
        match &self.portal_device {
            Some(id) => Some(id.duplicate()),
            None => None,
        }
    }

    /// Whether the device is attached to a SPICE session.
    pub fn attached(&self) -> (b: bool)
        ensures
            b == self@.attached,
    {
        self.spice_attached
    }

    /// Forget the SPICE attachment. Returns whether there was one, that is,
    /// whether the device must now be disconnected from the SPICE session.
    /// Idempotent: a second call returns `false`.
    pub fn detach_from_spice(&mut self) -> (was_attached: bool)
        ensures
            was_attached == old(self)@.attached,
            final(self)@ == detached(old(self)@),
            !final(self)@.attached,
            final(self)@.fd == old(self)@.fd,
            final(self)@.portal_device == old(self)@.portal_device,
    {
        let was = self.spice_attached;
        self.spice_attached = false;
        was
    }

    /// Release ownership of the fd without closing it: spice-gtk's libusb
    /// backend takes ownership of the fd and closes it; closing it from here
    /// too would double-close the fd. The number stays readable.
    pub fn release_fd(&mut self)
        ensures
            final(self)@ == released(old(self)@),
            old(self)@.fd matches Fd::Owned(n) ==> final(self)@.fd == Fd::Released(n),
            old(self)@.fd is Released ==> final(self)@.fd == old(self)@.fd,
            final(self)@.attached == old(self)@.attached,
            final(self)@.portal_device == old(self)@.portal_device,
    {
        self.fd = match self.fd {
            Fd::Owned(fd) => Fd::Released(fd),
            Fd::Released(fd) => Fd::Released(fd),
        };
    }

    /// Record that the device is attached to a SPICE session.
    pub fn set_spice_device(&mut self)
        ensures
            final(self)@ == attached_to_spice(old(self)@),
            final(self)@.attached,
            final(self)@.fd == old(self)@.fd,
            final(self)@.portal_device == old(self)@.portal_device,
    {
        self.spice_attached = true;
    }

    /// The underlying file descriptor, or -1 once spice-gtk has taken
    /// ownership of it (it must not be closed by the caller).
    pub fn as_raw_fd(&self) -> (fd: i32)
        ensures
            fd == self@.fd.spec_visible(),
            self@.fd matches Fd::Owned(n) ==> fd == n,
            self@.fd is Released ==> fd == -1,
    {
        match self.fd {
            Fd::Owned(fd) => fd,
            Fd::Released(_) => INVALID_FD,
        }
    }

    /// Whether the handle still owns its descriptor (and so must close it).
    pub fn owns_fd(&self) -> (b: bool)
        ensures
            b == (self@.fd is Owned),
    {
        match self.fd {
            Fd::Owned(_) => true,
            Fd::Released(_) => false,
        }
    }

    /// What to do when the handle is disposed: disconnect it from SPICE if it
    /// is attached, then release it to the portal if it was acquired there.
    /// Both records are taken, so a second dispose has nothing to do.
    pub fn dispose(&mut self) -> (plan: DisposePlan)
        ensures
            plan@ == dispose_plan(old(self)@),
            final(self)@ == disposed(old(self)@),
            plan.disconnect_from_spice == old(self)@.attached,
            opt_id(plan.release_from_portal) == old(self)@.portal_device,
            !final(self)@.attached,
            final(self)@.portal_device is None,
            final(self)@.fd == old(self)@.fd,
    {
        let disconnect = self.spice_attached;
        self.spice_attached = false;
        let release = self.portal_device.take();
        DisposePlan { disconnect_from_spice: disconnect, release_from_portal: release }
    }
}

/// The handle's number is its descriptor while it owns it and -1 once
/// spice-gtk has taken it; releasing keeps the descriptor that spice-gtk now
/// owns.
pub proof fn lemma_visible_fd(n: i32)
    ensures
        Fd::Owned(n).spec_visible() == n,
        Fd::Released(n).spec_visible() == -1,
        Fd::Owned(n).spec_raw() == n,
        Fd::Released(n).spec_raw() == n,
{
}

/// Whatever state a handle is in (from the portal or from a plain
/// descriptor, owning its descriptor or not), disposing it disconnects it
/// from SPICE exactly when it is attached, and releases it to the portal
/// exactly when it came from the portal.
pub proof fn lemma_dispose_plan_follows_state(d: OwnedUsbDeviceView)
    ensures
        dispose_plan(d).disconnect_from_spice == d.attached,
        dispose_plan(d).release_from_portal == d.portal_device,
        !disposed(d).attached,
        disposed(d).portal_device is None,
        disposed(d).fd == d.fd,
{
}

/// Releasing the descriptor hands that same descriptor to spice-gtk and
/// keeps everything else; from then on the handle shows -1 for it, and
/// releasing twice is releasing once.
pub proof fn lemma_release_keeps_number(d: OwnedUsbDeviceView)
    ensures
        released(d).fd == Fd::Released(d.fd.spec_raw()),
        released(d).fd.spec_visible() == INVALID_FD,
        released(d).portal_device == d.portal_device,
        released(d).attached == d.attached,
        released(released(d)) == released(d),
{
}

/// Detaching twice is detaching once, and the second detach finds nothing to
/// disconnect.
pub proof fn lemma_detach_idempotent(d: OwnedUsbDeviceView)
    ensures
        detached(detached(d)) == detached(d),
        !detached(d).attached,
{
}

/// Disposing twice does nothing the second time: the second plan is empty
/// and the handle stays as it is.
pub proof fn lemma_dispose_idempotent(d: OwnedUsbDeviceView)
    ensures
        dispose_plan(disposed(d)) == (DisposePlanView {
            disconnect_from_spice: false,
            release_from_portal: None,
        }),
        disposed(disposed(d)) == disposed(d),
        disposed(d).fd == d.fd,
{
}

/// A handle acquired from the portal is released to the portal when it is
/// disposed, after being disconnected from SPICE if it is attached, whatever
/// became of its descriptor.
pub proof fn lemma_portal_handle_released_on_dispose(
    id: Seq<char>,
    fd: i32,
    attached: bool,
    released_fd: bool,
)
    ensures
        ({
            let d0 = OwnedUsbDeviceView { portal_device: Some(id), fd: Fd::Owned(fd), attached: false };
            let d1 = if attached { attached_to_spice(d0) } else { d0 };
            let d2 = if released_fd { released(d1) } else { d1 };
            dispose_plan(d2) == (DisposePlanView {
                disconnect_from_spice: attached,
                release_from_portal: Some(id),
            })
        }),
{
}

/// A handle built from a plain descriptor is never released to the portal:
/// whatever happens to its attachment and descriptor, its dispose plan
/// releases nothing.
pub proof fn lemma_plain_fd_skips_portal(fd: i32, attached: bool, released_fd: bool)
    ensures
        ({
            let d0 = OwnedUsbDeviceView { portal_device: None, fd: Fd::Owned(fd), attached: false };
            let d1 = if attached { attached_to_spice(d0) } else { d0 };
            let d2 = if released_fd { released(d1) } else { d1 };
            dispose_plan(d2).release_from_portal is None
        }),
{
}

} // verus!
