//! The portal session's device list: what is made of the portal's replies
//! to opening the session, `AcquireDevices` and `EnumerateDevices`.

use vstd::prelude::*;

use crate::device_id::DeviceID;
use crate::devices::description::{DeviceDescription, DeviceDescriptionView, UsbDeviceInfo};
use crate::devices::error::{DeviceError, DeviceErrorView, DeviceResult, PortalFailure, UsbError};
use crate::error::GlibError;
use crate::devices::opened_device::{Fd, OwnedUsbDevice, OwnedUsbDeviceView};

verus! {

/// One entry of the portal's reply to a request for devices: the device and
/// either the descriptor that the portal opened or the reason it could not.
pub type AcquiredDevice = (DeviceID, Result<i32, UsbError>);

/// The explanation given when the portal's reply does not mention the
/// requested device.
pub open spec fn missing_device_text() -> Seq<char> {
    "portal did not return the expected device"@
}

/// Whether entry `i` of the reply is the first one about the device `id`.
pub open spec fn is_first_entry_for(s: Seq<AcquiredDevice>, id: Seq<char>, i: int) -> bool {
    &&& 0 <= i < s.len()
    &&& s[i].0@ == id
    &&& forall|j: int| 0 <= j < i ==> s[j].0@ != id
}

/// Whether the reply mentions the device `id` at all.
pub open spec fn mentions(s: Seq<AcquiredDevice>, id: Seq<char>) -> bool {
    exists|i: int| 0 <= i < s.len() && s[i].0@ == id
}

/// The handle made for a device that the portal opened.
pub open spec fn acquired_handle(id: Seq<char>, fd: i32) -> OwnedUsbDeviceView {
    OwnedUsbDeviceView { portal_device: Some(id), fd: Fd::Owned(fd), attached: false }
}

/// A USB portal session: the device list that the portal's replies are
/// read against. One exists only once the session is open.
#[derive(Debug)]
pub struct Devices {
    opened: (),
}

impl Devices {
    /// The device list, given the outcome of opening the portal session: the
    /// session's error becomes an initialisation error.
    pub fn new(init: Result<(), GlibError>) -> (r: DeviceResult<Devices>)
        ensures
            init matches Err(g) ==> (r matches Err(e) && e@ == DeviceErrorView::Init(g@)),
            init is Ok ==> r is Ok,
    {
        match init {
            Err(g) => Err(DeviceError::Init(g)),
            Ok(()) => Ok(Devices { opened: () }),
        }
    }

    /// The outcome of asking the portal for the device `requested`, given the
    /// portal's reply: the first entry of the reply about that device decides.
    /// Its descriptor becomes an owned handle of the device, its error becomes a
    /// USB error; a reply that does not mention the device is a USB error with
    /// the explanation [`missing_device_text`]; a failed request is a portal
    /// error.
    #[verifier::loop_isolation(false)]
    pub fn acquire_device(
        &self,
        requested: &DeviceID,
        reply: Result<Vec<AcquiredDevice>, PortalFailure>,
    ) -> (r: DeviceResult<OwnedUsbDevice>)
        ensures
            reply matches Err(p) ==> (r matches Err(e) && e@ == DeviceErrorView::Portal(p.message@)),
            reply matches Ok(s) ==> {
                &&& !mentions(s@, requested@) ==> (r matches Err(e) && e@ == DeviceErrorView::Usb(
                    Some(missing_device_text()),
                ))
                &&& forall|i: int|
                    #![trigger is_first_entry_for(s@, requested@, i)]
                    is_first_entry_for(s@, requested@, i) ==> match s@[i].1 {
                        Ok(fd) => r matches Ok(d) && d@ == acquired_handle(requested@, fd)
                        && d@.portal_device == Some(requested@) && d@.fd == Fd::Owned(fd)
                        && !d@.attached,
                        Err(u) => r matches Err(e) && e@ == DeviceErrorView::Usb(u@),
                    }
            },
    {
        let list = match reply {
            Err(p) => {
                return Err(DeviceError::Portal(p));
            },
            Ok(list) => list,
        };
        let n: usize = list.len();
        for i in 0..n
            invariant
                n == list@.len(),
                forall|j: int| 0 <= j < i ==> list@[j].0@ != requested@,
        {
            let entry = &list[i];
            if entry.0.same_as(requested) {
                assert(is_first_entry_for(list@, requested@, i as int));
                assert forall|k: int| is_first_entry_for(list@, requested@, k) implies k == i by {
                    if k < i {
                        assert(list@[k].0@ != requested@);
                    } else if k > i {
                        assert(list@[i as int].0@ != requested@);
                    }
                }
                return match &entry.1 {
                    Ok(fd) => Ok(OwnedUsbDevice::new(entry.0.duplicate(), *fd)),
                    Err(u) => Err(DeviceError::Usb(u.duplicate())),
                };
            }
        }
        let text = "portal did not return the expected device".to_owned();
        Err(DeviceError::Usb(UsbError::new(Some(text))))
    }
}

/// One entry of the portal's list of devices.
pub type ListedDevice = (DeviceID, UsbDeviceInfo);

/// The description of a listed device.
pub open spec fn listed_description(d: ListedDevice) -> DeviceDescriptionView {
    DeviceDescriptionView { id: d.0@, info: d.1@ }
}

/// A listed device's description is the device itself: its identifier and
/// every one of its properties, unchanged.
pub proof fn lemma_listed_description_is_the_device(d: ListedDevice)
    ensures
        listed_description(d).id == d.0@,
        listed_description(d).info.parent == d.1@.parent,
        listed_description(d).info.readable == d.1.readable,
        listed_description(d).info.writable == d.1.writable,
        listed_description(d).info.vendor == d.1@.vendor,
        listed_description(d).info.model == d.1@.model,
{
}

/// The handle made for an acquired device is the portal's device, owning the
/// descriptor that the portal opened, and not attached anywhere.
pub proof fn lemma_acquired_handle_owns_fd(id: Seq<char>, fd: i32)
    ensures
        acquired_handle(id, fd).portal_device == Some(id),
        acquired_handle(id, fd).fd == Fd::Owned(fd),
        !acquired_handle(id, fd).attached,
{
}

/// The descriptions of the devices that the portal lists, in its order.
pub fn descriptions_of(list: &Vec<ListedDevice>) -> (r: Vec<DeviceDescription>)
    ensures
        r@.len() == list@.len(),
        forall|i: int| 0 <= i < r@.len() ==> #[trigger] r@[i]@ == listed_description(list@[i]),
        forall|i: int|
            0 <= i < r@.len() ==> (#[trigger] r@[i])@.id == list@[i].0@ && r@[i]@.info
                == list@[i].1@,
{
    let mut out: Vec<DeviceDescription> = Vec::new();
    let n: usize = list.len();
    for i in 0..n
        invariant
            n == list@.len(),
            out@.len() == i,
            forall|j: int| 0 <= j < i ==> #[trigger] out@[j]@ == listed_description(list@[j]),
    {
        let entry = &list[i];
        out.push(DeviceDescription::new(entry.0.duplicate(), entry.1.duplicate()));
    }
    out
}

impl Devices {
    /// The outcome of listing the devices, given the portal's reply: the
    /// description of every listed device, or the portal error.
    pub fn enumerate_devices(
        &self,
        reply: Result<Vec<ListedDevice>, PortalFailure>,
    ) -> (r: DeviceResult<Vec<DeviceDescription>>)
        ensures
            reply matches Err(p) ==> (r matches Err(e) && e@ == DeviceErrorView::Portal(p.message@)),
            reply matches Ok(s) ==> (r matches Ok(v) && v@.len() == s@.len() && forall|i: int|
                0 <= i < v@.len() ==> #[trigger] v@[i]@ == listed_description(s@[i])),
            reply matches Ok(s) ==> (r matches Ok(v) && forall|i: int|
                0 <= i < v@.len() ==> (#[trigger] v@[i])@.id == s@[i].0@ && v@[i]@.info
                    == s@[i].1@),
    {
        match reply {
            Err(p) => Err(DeviceError::Portal(p)),
            Ok(list) => Ok(descriptions_of(&list)),
        }
    }
}

} // verus!
