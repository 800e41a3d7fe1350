//! Live device updates: which signal each portal event raises, and the
//! decisions of the loop that watches the portal.

use vstd::prelude::*;

use crate::device_id::DeviceID;
use crate::devices::description::{DeviceDescription, DeviceDescriptionView, UsbDeviceInfo};

verus! {

/// What happened to a device, as the portal reports it.
#[derive(Debug, Clone, Copy, PartialEq, Eq, Structural)]
pub enum DeviceEventAction {
    Add,
    Change,
    Remove,
}

/// The signals that a device watcher emits, each with the description of
/// the device concerned.
#[derive(Debug, Clone, Copy, PartialEq, Eq, Structural)]
pub enum DeviceSignal {
    DeviceAdded,
    DeviceRemoved,
    DeviceChanged,
}

/// The registered name of a signal.
pub open spec fn signal_name(s: DeviceSignal) -> Seq<char> {
    match s {
        DeviceSignal::DeviceAdded => "device-added"@,
        DeviceSignal::DeviceRemoved => "device-removed"@,
        DeviceSignal::DeviceChanged => "device-changed"@,
    }
}

/// The signal raised by an event.
pub open spec fn signal_of(a: DeviceEventAction) -> DeviceSignal {
    match a {
        DeviceEventAction::Add => DeviceSignal::DeviceAdded,
        DeviceEventAction::Change => DeviceSignal::DeviceChanged,
        DeviceEventAction::Remove => DeviceSignal::DeviceRemoved,
    }
}

impl DeviceSignal {
    /// The registered name of the signal.
    pub fn name(&self) -> (n: String)
        ensures
            n@ == signal_name(*self),
    {
        match self {
            DeviceSignal::DeviceAdded => "device-added".to_owned(),
            DeviceSignal::DeviceRemoved => "device-removed".to_owned(),
            DeviceSignal::DeviceChanged => "device-changed".to_owned(),
        }
    }

    /// The signal that an event raises: an addition raises `device-added`,
    /// a change `device-changed`, a removal `device-removed`.
    pub fn for_action(a: DeviceEventAction) -> (s: DeviceSignal)
        ensures
            s == signal_of(a),
    {
        match a {
            DeviceEventAction::Add => DeviceSignal::DeviceAdded,
            DeviceEventAction::Change => DeviceSignal::DeviceChanged,
            DeviceEventAction::Remove => DeviceSignal::DeviceRemoved,
        }
    }
}

/// The signals that a device watcher registers, in registration order:
/// `device-added`, `device-removed`, `device-changed`.
pub fn signals() -> (v: Vec<DeviceSignal>)
    ensures
        v@ == seq![
            DeviceSignal::DeviceAdded,
            DeviceSignal::DeviceRemoved,
            DeviceSignal::DeviceChanged,
        ],
{
    vec![DeviceSignal::DeviceAdded, DeviceSignal::DeviceRemoved, DeviceSignal::DeviceChanged]
}

/// Every event raises one of the registered signals, and the three events
/// raise three signals with three different names.
pub proof fn lemma_event_signals_registered(a: DeviceEventAction, b: DeviceEventAction)
    ensures
        signal_of(a) == DeviceSignal::DeviceAdded || signal_of(a) == DeviceSignal::DeviceRemoved
            || signal_of(a) == DeviceSignal::DeviceChanged,
        signal_of(a) == signal_of(b) ==> a == b,
        signal_name(signal_of(a)) == signal_name(signal_of(b)) ==> a == b,
{
    reveal_strlit("device-added");
    reveal_strlit("device-removed");
    reveal_strlit("device-changed");
    assert("device-added"@.len() != "device-removed"@.len());
    assert("device-added"@.len() != "device-changed"@.len());
    assert("device-removed"@[7] != "device-changed"@[7]);
}

/// One event of the portal: what happened, to which device, and the device's
/// properties.
#[derive(Debug)]
pub struct DeviceEvent {
    pub action: DeviceEventAction,
    pub id: DeviceID,
    pub info: UsbDeviceInfo,
}

/// A signal to emit, with the description that it carries.
#[derive(Debug)]
pub struct Emission {
    pub signal: DeviceSignal,
    pub description: DeviceDescription,
}

/// The emission that an event calls for.
pub open spec fn emission_matches(e: Emission, ev: DeviceEvent) -> bool {
    &&& e.signal == signal_of(ev.action)
    &&& e.description@ == (DeviceDescriptionView { id: ev.id@, info: ev.info@ })
}

/// An emission that matches an event carries the event's device, with all
/// its properties, under the signal that the event's action names.
pub proof fn lemma_emission_carries_event(e: Emission, ev: DeviceEvent)
    requires
        emission_matches(e, ev),
    ensures
        e.description@.id == ev.id@,
        e.description@.info == ev.info@,
        e.description@.info.vendor == ev.info@.vendor,
        e.description@.info.model == ev.info@.model,
        ev.action == DeviceEventAction::Add ==> signal_name(e.signal) == "device-added"@,
        ev.action == DeviceEventAction::Change ==> signal_name(e.signal) == "device-changed"@,
        ev.action == DeviceEventAction::Remove ==> signal_name(e.signal) == "device-removed"@,
{
}

/// The signals to emit for a batch of events, one for each event, in order.
pub fn emissions_for(events: &Vec<DeviceEvent>) -> (v: Vec<Emission>)
    ensures
        v@.len() == events@.len(),
        forall|i: int| 0 <= i < v@.len() ==> emission_matches(#[trigger] v@[i], events@[i]),
        forall|i: int|
            0 <= i < v@.len() ==> (#[trigger] v@[i]).description@ == (DeviceDescriptionView {
                id: events@[i].id@,
                info: events@[i].info@,
            }),
        forall|i: int|
            0 <= i < v@.len() ==> match events@[i].action {
                DeviceEventAction::Add => (#[trigger] v@[i]).signal == DeviceSignal::DeviceAdded,
                DeviceEventAction::Change => v@[i].signal == DeviceSignal::DeviceChanged,
                DeviceEventAction::Remove => v@[i].signal == DeviceSignal::DeviceRemoved,
            },
{
    let mut out: Vec<Emission> = Vec::new();
    let n: usize = events.len();
    for i in 0..n
        invariant
            n == events@.len(),
            out@.len() == i,
            forall|j: int| 0 <= j < i ==> emission_matches(#[trigger] out@[j], events@[j]),
    {
        let ev = &events[i];
        let description = DeviceDescription::new(ev.id.duplicate(), ev.info.duplicate());
        out.push(Emission { signal: DeviceSignal::for_action(ev.action), description });
    }
    out
}

/// How long the watcher listens for events before it checks that its owner
/// is still alive, in seconds.
pub const LIVENESS_CHECK_SECS: u64 = 10;

/// How long the watcher waits before it listens again after a failure, in
/// seconds.
pub const RETRY_DELAY_SECS: u64 = 10;

/// What one round of listening to the portal came to.
#[derive(Debug)]
pub enum WatchOutcome {
    /// The object that owns the watcher is gone.
    OwnerGone,
    /// No event came within [`LIVENESS_CHECK_SECS`].
    TimedOut,
    /// The event stream opened and gave the next batch of events (`None`
    /// when the stream ended without one).
    Received(Option<Vec<DeviceEvent>>),
    /// Listening to the portal failed.
    Failed,
}

/// What the watcher does next.
#[derive(Debug)]
pub enum WatchAction {
    /// Stop watching.
    Stop,
    /// Listen again at once.
    Listen,
    /// Emit these signals, then listen again.
    Emit(Vec<Emission>),
    /// Wait this many seconds, then listen again.
    RetryAfter(u64),
}

/// The watcher's decision after a round of listening: stop when its owner is
/// gone; listen again after a timeout or an empty stream; emit the signals
/// for a batch of events; wait [`RETRY_DELAY_SECS`] after a failure.
pub fn watch_step(outcome: WatchOutcome) -> (a: WatchAction)
    ensures
        outcome is OwnerGone ==> a is Stop,
        outcome is TimedOut ==> a is Listen,
        outcome matches WatchOutcome::Received(None) ==> a is Listen,
        outcome matches WatchOutcome::Received(Some(evs)) ==> (a matches WatchAction::Emit(v) && v@.len()
            == evs@.len() && forall|i: int|
            0 <= i < v@.len() ==> emission_matches(#[trigger] v@[i], evs@[i])),
        outcome matches WatchOutcome::Received(Some(evs)) ==> (a matches WatchAction::Emit(v)
            && forall|i: int|
            0 <= i < v@.len() ==> (#[trigger] v@[i]).description@ == (DeviceDescriptionView {
                id: evs@[i].id@,
                info: evs@[i].info@,
            })),
        outcome is Failed ==> a == WatchAction::RetryAfter(RETRY_DELAY_SECS),
        a is Stop <==> outcome is OwnerGone,
{
    match outcome {
        WatchOutcome::OwnerGone => WatchAction::Stop,
        WatchOutcome::TimedOut => WatchAction::Listen,
        WatchOutcome::Received(None) => WatchAction::Listen,
        WatchOutcome::Received(Some(events)) => WatchAction::Emit(emissions_for(&events)),
        WatchOutcome::Failed => WatchAction::RetryAfter(RETRY_DELAY_SECS),
    }
}

} // verus!
