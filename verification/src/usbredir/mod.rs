//! USB redirection into a SPICE session: the channel counts that are kept
//! up to date, and the steps of attaching a device.

pub mod error;

use vstd::prelude::*;

use crate::devices::opened_device::{
    attached_to_spice,
    detached,
    released,
    Fd,
    OwnedUsbDevice,
    OwnedUsbDeviceView,
};
use crate::error::GlibError;

pub use self::error::{UsbredirError, UsbredirResult};

verus! {

/// How many of a session's channels are USB redirection channels.
pub open spec fn count_true(s: Seq<bool>) -> nat
    decreases s.len(),
{
    if s.len() == 0 {
        0
    } else {
        count_true(s.drop_last()) + if s.last() {
            1nat
        } else {
            0nat
        }
    }
}

/// What is read from a SPICE session to refresh the channel counts.
#[derive(Debug)]
pub struct ChannelSnapshot {
    /// For each channel of the session, whether it is a USB redirection
    /// channel.
    pub usbredir_channels: Vec<bool>,
    /// The number of free channels that the USB device manager reports.
    pub free_channels: i32,
}

/// The redirection channel counts.
#[derive(Debug, Clone, Copy, PartialEq, Eq, Structural)]
pub struct ChannelCounts {
    pub free: u32,
    pub max: u32,
}

/// Which counts a refresh changed (and so must be notified).
#[derive(Debug, Clone, Copy, PartialEq, Eq, Structural)]
pub struct CountChanges {
    pub max_changed: bool,
    pub free_changed: bool,
}

/// The counts that a snapshot gives: the number of redirection channels
/// (as a `u32`), and the manager's free channels, negative numbers read as 0.
pub open spec fn counts_of(flags: Seq<bool>, free: i32) -> ChannelCounts {
    ChannelCounts {
        max: count_true(flags) as u32,
        free: if free < 0 {
            0u32
        } else {
            free as u32
        },
    }
}

/// The changes between two sets of counts.
pub open spec fn changes_between(before: ChannelCounts, after: ChannelCounts) -> CountChanges {
    CountChanges { max_changed: before.max != after.max, free_changed: before.free != after.free }
}

/// No change at all.
pub open spec fn no_changes() -> CountChanges {
    CountChanges { max_changed: false, free_changed: false }
}

/// Count the `true` flags.
fn count_usbredir(flags: &Vec<bool>) -> (n: usize)
    ensures
        n == count_true(flags@),
{
    let mut n: usize = 0;
    let len: usize = flags.len();
    for i in 0..len
        invariant
            len == flags@.len(),
            n == count_true(flags@.take(i as int)),
            n <= i,
    {
        assert(flags@.take(i + 1).drop_last() =~= flags@.take(i as int));
        if flags[i] {
            n = n + 1;
        }
    }
    assert(flags@.take(len as int) =~= flags@);
    n
}

/// The counts that a snapshot gives.
pub fn counts_from(snapshot: &ChannelSnapshot) -> (c: ChannelCounts)
    ensures
        c == counts_of(snapshot.usbredir_channels@, snapshot.free_channels),
{
    let n: usize = count_usbredir(&snapshot.usbredir_channels);
    #[verifier::truncate]
    let max: u32 = n as u32;
    let free: u32 = if snapshot.free_channels < 0 {
        0
    } else {
        snapshot.free_channels as u32
    };
    ChannelCounts { free, max }
}

/// The bridge into a SPICE session's USB device manager: it keeps the
/// number of free and of all USB redirection channels.
#[derive(Debug)]
pub struct Usbredir {
    counts: ChannelCounts,
}

impl Usbredir {
    /// The channel counts.
    pub closed spec fn spec_counts(&self) -> ChannelCounts {
        self.counts
    }

    /// Initialize USB redirection for a SPICE session, given the outcome of
    /// looking up the session's USB device manager (and, when there is one,
    /// what the session shows): the manager's error, or a bridge whose counts
    /// are those of the session.
    pub fn new(manager: Result<ChannelSnapshot, GlibError>) -> (r: UsbredirResult<Usbredir>)
        ensures
            manager matches Err(g) ==> (r matches Err(e) && e@ == error::UsbredirErrorView::Glib(
                g@,
            )),
            manager matches Ok(s) ==> (r matches Ok(u) && u.spec_counts() == counts_of(
                s.usbredir_channels@,
                s.free_channels,
            )),
    {
        match manager {
            Err(g) => Err(UsbredirError::Glib(g)),
            Ok(snapshot) => Ok(Usbredir { counts: counts_from(&snapshot) }),
        }
    }

    /// The number of free USB redirection channels.
    pub fn free_channels(&self) -> (n: u32)
        ensures
            n == self.spec_counts().free,
    {
        self.counts.free
    }

    /// The number of USB redirection channels of the session.
    pub fn max_channels(&self) -> (n: u32)
        ensures
            n == self.spec_counts().max,
    {
        self.counts.max
    }

    /// Refresh the counts from what the session shows now, and say which of
    /// them changed (those have to be notified).
    pub fn refresh_channel_counts(&mut self, snapshot: &ChannelSnapshot) -> (c: CountChanges)
        ensures
            final(self).spec_counts() == counts_of(
                snapshot.usbredir_channels@,
                snapshot.free_channels,
            ),
            c == changes_between(old(self).spec_counts(), final(self).spec_counts()),
            c.max_changed == (old(self).spec_counts().max != final(self).spec_counts().max),
            c.free_changed == (old(self).spec_counts().free != final(self).spec_counts().free),
            final(self).spec_counts().max == count_true(snapshot.usbredir_channels@) as u32,
            final(self).spec_counts().free == (if snapshot.free_channels < 0 {
                0
            } else {
                snapshot.free_channels as int
            }),
    {
        let fresh = counts_from(snapshot);
        let changes = CountChanges {
            max_changed: self.counts.max != fresh.max,
            free_changed: self.counts.free != fresh.free,
        };
        self.counts = fresh;
        changes
    }
}

/// Whether a channel being added to or removed from the session calls for a
/// refresh of the counts: only a USB redirection channel does (spice-gtk's
/// manager does not reliably notify changes of its free channels itself).
pub fn channel_event_refreshes(is_usbredir_channel: bool) -> (b: bool)
    ensures
        b == is_usbredir_channel,
{
    is_usbredir_channel
}

/// The changes reported between two sets of counts are field by field: the
/// number of channels changed exactly when the two maxima differ, the free
/// channels exactly when the two free counts differ.
pub proof fn lemma_changes_field_by_field(before: ChannelCounts, after: ChannelCounts)
    ensures
        changes_between(before, after).max_changed <==> before.max != after.max,
        changes_between(before, after).free_changed <==> before.free != after.free,
{
}

/// The counts of a snapshot: the free channels are the manager's count, with
/// a negative count read as none; the channels counted are the redirection
/// channels, never more than the session's channels, and one more
/// redirection channel counts one more.
pub proof fn lemma_counts_of_snapshot(flags: Seq<bool>, free: i32, extra: bool)
    ensures
        counts_of(flags, free).free as int == (if free < 0 {
            0
        } else {
            free as int
        }),
        count_true(flags) <= flags.len(),
        count_true(flags.push(extra)) == count_true(flags) + (if extra {
            1int
        } else {
            0int
        }),
        count_true(Seq::<bool>::empty()) == 0,
    decreases flags.len(),
{
    assert(flags.push(extra).drop_last() =~= flags);
    if flags.len() > 0 {
        lemma_counts_of_snapshot(flags.drop_last(), free, flags.last());
    }
}

/// Refreshing twice from the same snapshot changes nothing the second time,
/// and the counts after a refresh do not depend on the counts before it.
pub proof fn lemma_refresh_idempotent(before: ChannelCounts, flags: Seq<bool>, free: i32)
    ensures
        changes_between(counts_of(flags, free), counts_of(flags, free)) == no_changes(),
        changes_between(before, counts_of(flags, free)) == no_changes() <==> before == counts_of(
            flags,
            free,
        ),
{
}

/// Where an attachment stands.
#[derive(Debug, Clone, Copy, PartialEq, Eq, Structural)]
pub enum AttachPhase {
    /// Nothing has been done yet.
    Start,
    /// Waiting for the device to be disconnected from its earlier session.
    Detaching,
    /// Waiting for spice-gtk to make a device of the descriptor.
    Allocating,
    /// Waiting for spice-gtk to say whether the device can be redirected.
    CheckingRedirect,
    /// Waiting for spice-gtk to connect the device.
    Connecting,
    /// Waiting for what the session shows, to refresh the counts.
    Refreshing,
    /// The attachment is over.
    Done,
}

/// What the outside world answered to the last action.
#[derive(Debug)]
pub enum AttachEvent {
    /// The attachment begins; whether the USB device manager still exists.
    Begin { manager_alive: bool },
    /// The device was disconnected from its earlier session.
    Detached,
    /// spice-gtk's answer to making a device of the descriptor: whether it
    /// made one, or its error.
    Allocated(Result<bool, GlibError>),
    /// spice-gtk's answer to whether the device can be redirected.
    RedirectChecked(Result<(), GlibError>),
    /// spice-gtk's answer to connecting the device.
    Connected(Result<(), GlibError>),
    /// What the session shows, when the manager still has a session.
    SessionRead(Option<ChannelSnapshot>),
}

/// What to do next.
#[derive(Debug)]
pub enum AttachAction {
    /// Disconnect the device from its earlier session, then answer
    /// `Detached`.
    DetachFromSpice,
    /// Ask spice-gtk to make a device of this descriptor, then answer
    /// `Allocated`.
    AllocateDevice { fd: i32 },
    /// Ask spice-gtk whether the device can be redirected, then answer
    /// `RedirectChecked`.
    CheckRedirect,
    /// Ask spice-gtk to connect the device, then answer `Connected`.
    ConnectDevice,
    /// Read the manager's session, then answer `SessionRead`.
    ReadSession,
    /// The attachment is over with this result; notify the changed counts.
    Finish { result: UsbredirResult<()>, changes: CountChanges },
    /// The answer does not fit where the attachment stands; nothing changed.
    Ignore,
}

/// One step of an attachment: where it stands next, what to do, and the
/// device handle and counts after the step.
pub struct AttachStep {
    pub phase: AttachPhase,
    pub action: AttachAction,
    pub device: OwnedUsbDeviceView,
    pub counts: ChannelCounts,
}

/// The step that ends an attachment with a result.
pub open spec fn finished(
    result: UsbredirResult<()>,
    changes: CountChanges,
    device: OwnedUsbDeviceView,
    counts: ChannelCounts,
) -> AttachStep {
    AttachStep {
        phase: AttachPhase::Done,
        action: AttachAction::Finish { result, changes },
        device,
        counts,
    }
}

/// The step that leaves everything as it is.
pub open spec fn ignored(
    phase: AttachPhase,
    device: OwnedUsbDeviceView,
    counts: ChannelCounts,
) -> AttachStep {
    AttachStep { phase, action: AttachAction::Ignore, device, counts }
}

/// The step that asks for a device to be made of the handle's descriptor.
pub open spec fn allocate(device: OwnedUsbDeviceView, counts: ChannelCounts) -> AttachStep {
    AttachStep {
        phase: AttachPhase::Allocating,
        action: AttachAction::AllocateDevice { fd: device.fd.spec_visible() },
        device,
        counts,
    }
}

/// The attachment's decisions. Without a device manager it fails with
/// `NotConnected`. A device that is still attached somewhere is detached
/// first. spice-gtk is asked to make a device of the descriptor: its error,
/// or no device (`DeviceAttachFailed`), ends the attachment; a device made of
/// the descriptor takes ownership of it, so the handle releases it. Then the
/// redirection check and the connection follow, each ending the attachment
/// with its error; once connected, the handle is attached, and the counts are
/// refreshed from the session, if the manager has one.
pub open spec fn attach_next(
    phase: AttachPhase,
    event: AttachEvent,
    device: OwnedUsbDeviceView,
    counts: ChannelCounts,
) -> AttachStep {
    match (phase, event) {
        (AttachPhase::Start, AttachEvent::Begin { manager_alive }) => {
            if !manager_alive {
                finished(Err(UsbredirError::NotConnected), no_changes(), device, counts)
            } else if device.attached {
                AttachStep {
                    phase: AttachPhase::Detaching,
                    action: AttachAction::DetachFromSpice,
                    device: detached(device),
                    counts,
                }
            } else {
                allocate(device, counts)
            }
        },
        (AttachPhase::Detaching, AttachEvent::Detached) => allocate(device, counts),
        (AttachPhase::Allocating, AttachEvent::Allocated(answer)) => match answer {
            Err(g) => finished(Err(UsbredirError::Glib(g)), no_changes(), device, counts),
            Ok(made) => if made {
                AttachStep {
                    phase: AttachPhase::CheckingRedirect,
                    action: AttachAction::CheckRedirect,
                    device: released(device),
                    counts,
                }
            } else {
                finished(Err(UsbredirError::DeviceAttachFailed), no_changes(), device, counts)
            },
        },
        (AttachPhase::CheckingRedirect, AttachEvent::RedirectChecked(answer)) => match answer {
            Err(g) => finished(Err(UsbredirError::Glib(g)), no_changes(), device, counts),
            Ok(_) => AttachStep {
                phase: AttachPhase::Connecting,
                action: AttachAction::ConnectDevice,
                device,
                counts,
            },
        },
        (AttachPhase::Connecting, AttachEvent::Connected(answer)) => match answer {
            Err(g) => finished(Err(UsbredirError::Glib(g)), no_changes(), device, counts),
            Ok(_) => AttachStep {
                phase: AttachPhase::Refreshing,
                action: AttachAction::ReadSession,
                device: attached_to_spice(device),
                counts,
            },
        },
        (AttachPhase::Refreshing, AttachEvent::SessionRead(session)) => match session {
            None => finished(Ok(()), no_changes(), device, counts),
            Some(s) => {
                let fresh = counts_of(s.usbredir_channels@, s.free_channels);
                finished(Ok(()), changes_between(counts, fresh), device, fresh)
            },
        },
        _ => ignored(phase, device, counts),
    }
}

impl Usbredir {
    /// Take one step of attaching `device` to the SPICE session: given where
    /// the attachment stands and the answer to the last action, update the
    /// device handle and the counts, and say where the attachment stands next
    /// and what to do (see [`attach_next`]).
    pub fn attach_step(
        &mut self,
        phase: AttachPhase,
        event: AttachEvent,
        device: &mut OwnedUsbDevice,
    ) -> (r: (AttachPhase, AttachAction))
        ensures
            ({
                let s = attach_next(phase, event, old(device)@, old(self).spec_counts());
                &&& r.0 == s.phase
                &&& r.1 == s.action
                &&& final(device)@ == s.device
                &&& final(self).spec_counts() == s.counts
            }),
    {
        match (phase, event) {
            (AttachPhase::Start, AttachEvent::Begin { manager_alive }) => {
                if !manager_alive {
                    (
                        AttachPhase::Done,
                        AttachAction::Finish {
                            result: Err(UsbredirError::NotConnected),
                            changes: CountChanges { max_changed: false, free_changed: false },
                        },
                    )
                } else if device.attached() {
                    device.detach_from_spice();
                    (AttachPhase::Detaching, AttachAction::DetachFromSpice)
                } else {
                    (AttachPhase::Allocating, AttachAction::AllocateDevice { fd: device.as_raw_fd() })
                }
            },
            (AttachPhase::Detaching, AttachEvent::Detached) => {
                (AttachPhase::Allocating, AttachAction::AllocateDevice { fd: device.as_raw_fd() })
            },
            (AttachPhase::Allocating, AttachEvent::Allocated(answer)) => match answer {
                Err(g) => (
                    AttachPhase::Done,
                    AttachAction::Finish {
                        result: Err(UsbredirError::Glib(g)),
                        changes: CountChanges { max_changed: false, free_changed: false },
                    },
                ),
                Ok(made) => {
                    if made {
                        device.release_fd();
                        (AttachPhase::CheckingRedirect, AttachAction::CheckRedirect)
                    } else {
                        (
                            AttachPhase::Done,
                            AttachAction::Finish {
                                result: Err(UsbredirError::DeviceAttachFailed),
                                changes: CountChanges { max_changed: false, free_changed: false },
                            },
                        )
                    }
                },
            },
            (AttachPhase::CheckingRedirect, AttachEvent::RedirectChecked(answer)) => match answer {
                Err(g) => (
                    AttachPhase::Done,
                    AttachAction::Finish {
                        result: Err(UsbredirError::Glib(g)),
                        changes: CountChanges { max_changed: false, free_changed: false },
                    },
                ),
                Ok(_) => (AttachPhase::Connecting, AttachAction::ConnectDevice),
            },
            (AttachPhase::Connecting, AttachEvent::Connected(answer)) => match answer {
                Err(g) => (
                    AttachPhase::Done,
                    AttachAction::Finish {
                        result: Err(UsbredirError::Glib(g)),
                        changes: CountChanges { max_changed: false, free_changed: false },
                    },
                ),
                Ok(_) => {
                    device.set_spice_device();
                    (AttachPhase::Refreshing, AttachAction::ReadSession)
                },
            },
            (AttachPhase::Refreshing, AttachEvent::SessionRead(session)) => match session {
                None => (
                    AttachPhase::Done,
                    AttachAction::Finish {
                        result: Ok(()),
                        changes: CountChanges { max_changed: false, free_changed: false },
                    },
                ),
                Some(s) => {
                    let changes = self.refresh_channel_counts(&s);
                    (AttachPhase::Done, AttachAction::Finish { result: Ok(()), changes })
                },
            },
            (p, _) => (p, AttachAction::Ignore),
        }
    }
}

/// The step reached from the start once the manager is there and the
/// device, if it was attached, has been detached: spice-gtk is asked to make
/// a device of the descriptor.
pub open spec fn ready_to_allocate(device: OwnedUsbDeviceView, counts: ChannelCounts) -> AttachStep {
    let s1 = attach_next(AttachPhase::Start, AttachEvent::Begin { manager_alive: true }, device, counts);
    if device.attached {
        attach_next(s1.phase, AttachEvent::Detached, s1.device, s1.counts)
    } else {
        s1
    }
}

/// Without a device manager an attachment fails with `NotConnected` at once
/// and touches neither the device nor the counts.
pub proof fn lemma_attach_without_manager(device: OwnedUsbDeviceView, counts: ChannelCounts)
    ensures
        attach_next(AttachPhase::Start, AttachEvent::Begin { manager_alive: false }, device, counts)
            == finished(Err(UsbredirError::NotConnected), no_changes(), device, counts),
{
}

/// Once the manager is there, spice-gtk is asked to make a device of the
/// handle's own descriptor, and the handle is no longer attached anywhere.
pub proof fn lemma_attach_asks_for_own_descriptor(
    device: OwnedUsbDeviceView,
    counts: ChannelCounts,
)
    ensures
        ready_to_allocate(device, counts) == allocate(detached(device), counts),
        ready_to_allocate(device, counts).action == (AttachAction::AllocateDevice {
            fd: device.fd.spec_visible(),
        }),
{
}

/// An attachment in which spice-gtk makes, accepts and connects the device
/// ends with success; the handle is then attached, its descriptor belongs to
/// spice-gtk under the same number, and it keeps its portal identity. The
/// counts are those of the session when there is one, else unchanged.
pub proof fn lemma_successful_attach(
    device: OwnedUsbDeviceView,
    counts: ChannelCounts,
    session: Option<ChannelSnapshot>,
)
    ensures
        ({
            let s2 = ready_to_allocate(device, counts);
            let s3 = attach_next(s2.phase, AttachEvent::Allocated(Ok(true)), s2.device, s2.counts);
            let s4 = attach_next(s3.phase, AttachEvent::RedirectChecked(Ok(())), s3.device, s3.counts);
            let s5 = attach_next(s4.phase, AttachEvent::Connected(Ok(())), s4.device, s4.counts);
            let s6 = attach_next(s5.phase, AttachEvent::SessionRead(session), s5.device, s5.counts);
            &&& s6.phase == AttachPhase::Done
            &&& s6.action matches AttachAction::Finish { result: Ok(_), .. }
            &&& s6.device == (OwnedUsbDeviceView {
                portal_device: device.portal_device,
                fd: Fd::Released(device.fd.spec_raw()),
                attached: true,
            })
            &&& s6.counts == match session {
                Some(s) => counts_of(s.usbredir_channels@, s.free_channels),
                None => counts,
            }
        }),
{
}

/// When spice-gtk fails or declines to make a device of the descriptor, the
/// attachment ends with that error (or `DeviceAttachFailed`), and the handle
/// keeps its descriptor and is attached nowhere.
pub proof fn lemma_allocation_failure_keeps_fd(
    device: OwnedUsbDeviceView,
    counts: ChannelCounts,
    answer: Result<bool, GlibError>,
)
    requires
        answer != Ok::<bool, GlibError>(true),
    ensures
        ({
            let s2 = ready_to_allocate(device, counts);
            let s3 = attach_next(s2.phase, AttachEvent::Allocated(answer), s2.device, s2.counts);
            &&& s3.phase == AttachPhase::Done
            &&& s3.action matches AttachAction::Finish { result: Err(e), .. }
            &&& s3.device == detached(device)
            &&& s3.device.fd == device.fd
        }),
{
}

/// When spice-gtk made a device of the descriptor but then refuses to
/// redirect or to connect it, the attachment ends with spice-gtk's error; the
/// descriptor stays with spice-gtk and the handle is attached nowhere.
pub proof fn lemma_late_failure_releases_fd(
    device: OwnedUsbDeviceView,
    counts: ChannelCounts,
    g: GlibError,
    at_connect: bool,
)
    ensures
        ({
            let s2 = ready_to_allocate(device, counts);
            let s3 = attach_next(s2.phase, AttachEvent::Allocated(Ok(true)), s2.device, s2.counts);
            let s_end = if at_connect {
                let s4 = attach_next(s3.phase, AttachEvent::RedirectChecked(Ok(())), s3.device, s3.counts);
                attach_next(s4.phase, AttachEvent::Connected(Err(g)), s4.device, s4.counts)
            } else {
                attach_next(s3.phase, AttachEvent::RedirectChecked(Err(g)), s3.device, s3.counts)
            };
            &&& s_end == finished(Err(UsbredirError::Glib(g)), no_changes(), released(detached(device)), counts)
        }),
{
}

/// A finished attachment stays finished: every further answer is ignored
/// and changes nothing.
pub proof fn lemma_done_is_final(event: AttachEvent, device: OwnedUsbDeviceView, counts: ChannelCounts)
    ensures
        attach_next(AttachPhase::Done, event, device, counts) == ignored(AttachPhase::Done, device, counts),
{
}

} // verus!
