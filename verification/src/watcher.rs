//! Turning what the system tells about devices into events.
//!
//! Two kinds of watcher exist. One reads discrete events from a socket and
//! has to cope with wake-ups that carry no event. The other is only told
//! that something changed, and finds out what by comparing the devices that
//! are present with those it saw last.

use crate::hotplug::{contains_device, has_device, DeviceEvent, Event};
use vstd::prelude::*;

verus! {

/// How long to pause after a wake-up without an event, in milliseconds.
pub const RETRY_PAUSE_MILLIS: u64 = 10;

/// Where a socket watcher stands between two events.
#[derive(Clone, Copy, Debug, PartialEq, Eq, Structural)]
pub enum WatcherPhase {
    /// No event is at hand: the watcher is to block until the socket can be
    /// read, for as long as that takes.
    WaitingForEvent,
    /// The socket was reported readable and is to be read.
    Signalled,
    /// The socket held no event after all. The watcher pauses briefly, so
    /// as not to spin, before it blocks again.
    BackingOff,
    /// Blocking on the socket failed. Nothing can follow.
    Failed,
}

/// What a socket watcher asks its caller to do.
#[derive(Clone, Copy, Debug, PartialEq, Eq, Structural)]
pub enum WatchAction {
    /// Block, without a timeout, until the socket can be read.
    Wait,
    /// Read one event from the socket, if it holds one.
    Receive,
    /// Sleep for this many milliseconds.
    Pause { millis: u64 },
}

/// What the caller of a socket watcher reports back.
#[derive(Debug)]
pub enum Signal {
    /// Blocking ended with this status: negative where the wait itself
    /// failed, the number of readable sockets otherwise.
    Woken { status: i32 },
    /// The socket was read, and held this event or none.
    Message(Option<DeviceEvent>),
    /// The pause is over.
    Resumed,
}

impl WatcherPhase {
    /// What the watcher waits for in each phase.
    pub open spec fn pending(self) -> Option<WatchAction> {
        match self {
            WatcherPhase::WaitingForEvent => Some(WatchAction::Wait),
            WatcherPhase::Signalled => Some(WatchAction::Receive),
            WatcherPhase::BackingOff => Some(WatchAction::Pause { millis: RETRY_PAUSE_MILLIS }),
            WatcherPhase::Failed => None,
        }
    }

    /// The phase after `signal`.
    ///
    /// A failed wait is final. A wake-up leads to reading; a reading that
    /// finds an event leads back to waiting, and one that finds none leads
    /// there by way of a pause. A signal that does not answer what was
    /// pending changes nothing while waiting, and counts as no event while
    /// reading.
    pub open spec fn next(self, signal: Signal) -> WatcherPhase {
        match self {
            WatcherPhase::WaitingForEvent => match signal {
                Signal::Woken { status } => if status < 0 {
                    WatcherPhase::Failed
                } else {
                    WatcherPhase::Signalled
                },
                _ => WatcherPhase::WaitingForEvent,
            },
            WatcherPhase::Signalled => match signal {
                Signal::Message(Some(_)) => WatcherPhase::WaitingForEvent,
                _ => WatcherPhase::BackingOff,
            },
            WatcherPhase::BackingOff => WatcherPhase::WaitingForEvent,
            WatcherPhase::Failed => WatcherPhase::Failed,
        }
    }

    /// The event that `signal` hands over in this phase, if any: the one
    /// that was read when a reading was pending.
    pub open spec fn delivered(self, signal: Signal) -> Option<DeviceEvent> {
        match (self, signal) {
            (WatcherPhase::Signalled, Signal::Message(Some(event))) => Some(event),
            _ => None,
        }
    }
}

/// A watcher that reads device events from a socket.
#[derive(Debug)]
pub struct SocketWatcher {
    phase: WatcherPhase,
}

impl View for SocketWatcher {
    type V = WatcherPhase;

    closed spec fn view(&self) -> WatcherPhase {
        self.phase
    }
}

impl SocketWatcher {
    /// A watcher that is about to wait for its first event.
    pub fn new() -> (watcher: SocketWatcher)
        ensures
            watcher@ == WatcherPhase::WaitingForEvent,
    {
        SocketWatcher { phase: WatcherPhase::WaitingForEvent }
    }

    /// What the watcher asks for next; nothing once the wait has failed.
    pub fn pending(&self) -> (action: Option<WatchAction>)
        ensures
            action == self@.pending(),
    {
        match self.phase {
            WatcherPhase::WaitingForEvent => Some(WatchAction::Wait),
            WatcherPhase::Signalled => Some(WatchAction::Receive),
            WatcherPhase::BackingOff => Some(WatchAction::Pause { millis: RETRY_PAUSE_MILLIS }),
            WatcherPhase::Failed => None,
        }
    }

    /// Whether the wait on the socket has failed.
    pub fn has_failed(&self) -> (failed: bool)
        ensures
            failed == (self@ == WatcherPhase::Failed),
    {
        match self.phase {
            WatcherPhase::Failed => true,
            _ => false,
        }
    }

    /// Takes what the caller reports, and hands over the event if one was
    /// read.
    pub fn advance(&mut self, signal: Signal) -> (event: Option<DeviceEvent>)
        ensures
            final(self)@ == old(self)@.next(signal),
            event == old(self)@.delivered(signal),
    {
        match self.phase {
            WatcherPhase::WaitingForEvent => match signal {
                Signal::Woken { status } => {
                    if status < 0 {
                        self.phase = WatcherPhase::Failed;
                    } else {
                        self.phase = WatcherPhase::Signalled;
                    }
                    None
                },
                _ => None,
            },
            WatcherPhase::Signalled => match signal {
                Signal::Message(Some(event)) => {
                    self.phase = WatcherPhase::WaitingForEvent;
                    Some(event)
                },
                _ => {
                    self.phase = WatcherPhase::BackingOff;
                    None
                },
            },
            WatcherPhase::BackingOff => {
                self.phase = WatcherPhase::WaitingForEvent;
                None
            },
            WatcherPhase::Failed => None,
        }
    }
}

/// In steady state a socket watcher never stops: it fails only on a failed
/// wait, and otherwise always has something pending.
pub proof fn lemma_watcher_fails_only_on_wait(phase: WatcherPhase, signal: Signal)
    requires
        phase != WatcherPhase::Failed,
    ensures
        phase.next(signal) == WatcherPhase::Failed <==> (phase == WatcherPhase::WaitingForEvent
            && (signal matches Signal::Woken { status } && status < 0)),
        phase.next(signal) != WatcherPhase::Failed ==> phase.next(signal).pending() is Some,
{
}

/// The identifiers in `devices`, as a set.
pub open spec fn device_set(devices: Seq<String>) -> Set<Seq<char>> {
    Set::new(|name: Seq<char>| has_device(devices, name))
}

/// A watcher that is told of changes only, and keeps the set of devices
/// that it saw last.
#[derive(Debug)]
pub struct UsbChangeDetector {
    known_devices: Vec<String>,
}

impl View for UsbChangeDetector {
    type V = Set<Seq<char>>;

    closed spec fn view(&self) -> Set<Seq<char>> {
        device_set(self.known_devices@)
    }
}

impl UsbChangeDetector {
    /// A detector that has seen `devices`.
    pub fn new(devices: Vec<String>) -> (detector: UsbChangeDetector)
        ensures
            detector@ == device_set(devices@),
    {
        UsbChangeDetector { known_devices: devices }
    }

    /// Compares the devices that are present now with those seen last.
    ///
    /// `current` is what the query for the present devices gave, or nothing
    /// where the query failed. A failed query changes nothing and yields no
    /// event. Otherwise `current` becomes what was seen last, and the
    /// devices in it that were not seen before are yielded as added; where
    /// there is none, no event is yielded.
    pub fn detect_added_devices(&mut self, current: Option<Vec<String>>) -> (event: Option<Event>)
        ensures
            match current {
                None => event is None && final(self)@ == old(self)@,
                Some(devices) => {
                    &&& final(self)@ == device_set(devices@)
                    &&& match event {
                        None => device_set(devices@).subset_of(old(self)@),
                        Some(Event::DevicesAdded(added)) => {
                            &&& added.len() > 0
                            &&& device_set(added@) == device_set(devices@).difference(old(self)@)
                        },
                        Some(Event::Device(_)) => false,
                    }
                },
            },
    {
        match current {
            None => None,
            Some(devices) => {
                let mut added: Vec<String> = Vec::new();
                let mut i: usize = 0;
                while i < devices.len()
                    invariant
                        i <= devices.len(),
                        self.known_devices@ == old(self).known_devices@,
                        forall|k: int|
                            0 <= k < added.len() ==> has_device(devices@, (#[trigger] added[k])@)
                                && !has_device(self.known_devices@, added[k]@),
                        forall|j: int|
                            0 <= j < i && !has_device(
                                self.known_devices@,
                                (#[trigger] devices[j])@,
                            ) ==> has_device(added@, devices[j]@),
                    decreases devices.len() - i,
                {
                    if !contains_device(&self.known_devices, &devices[i]) {
                        let ghost before = added@;
                        added.push(devices[i].clone());
                        assert(added[added.len() - 1]@ == devices[i as int]@);
                        assert forall|j: int|
                            0 <= j < i && !has_device(
                                self.known_devices@,
                                (#[trigger] devices[j])@,
                            ) implies has_device(added@, devices[j]@) by {
                            let k = choose|k: int|
                                0 <= k < before.len() && (#[trigger] before[k])@ == devices[j]@;
                            assert(added[k] == before[k]);
                        }
                    }
                    i += 1;
                }
                proof {
                    let gone = device_set(self.known_devices@);
                    assert forall|name: Seq<char>|
                        device_set(added@).contains(name) <==> device_set(devices@).difference(
                            gone,
                        ).contains(name) by {
                        if has_device(added@, name) {
                            let k = choose|k: int|
                                0 <= k < added.len() && (#[trigger] added[k])@ == name;
                        }
                        if has_device(devices@, name) && !has_device(self.known_devices@, name) {
                            let j = choose|j: int|
                                0 <= j < devices.len() && (#[trigger] devices[j])@ == name;
                        }
                    }
                    assert(device_set(added@) =~= device_set(devices@).difference(gone));
                    if added.len() == 0 {
                        assert forall|name: Seq<char>|
                            device_set(devices@).contains(name) implies gone.contains(name) by {
                            if !gone.contains(name) {
                                assert(device_set(added@).contains(name));
                                let k = choose|k: int|
                                    0 <= k < added.len() && (#[trigger] added[k])@ == name;
                            }
                        }
                    }
                }
                self.known_devices = devices;
                if added.len() == 0 {
                    None
                } else {
                    Some(Event::DevicesAdded(added))
                }
            },
        }
    }
}

} // verus!
