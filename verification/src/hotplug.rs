//! Device events, and the test that finds the device of interest in them.

use vstd::prelude::*;
use vstd::string::StringExecFns;

verus! {

/// What happened to a device.
#[derive(Clone, Copy, Debug, PartialEq, Eq, Structural)]
pub enum EventType {
    /// A device was added.
    Add,
    /// A device changed.
    Change,
    /// A device was removed.
    Remove,
    /// A device was bound to a driver.
    Bind,
    /// A device was unbound from its driver.
    Unbind,
    /// An unknown event occurred.
    Unknown,
}

/// One attribute of a device: a name and the value under it.
#[derive(Debug)]
pub struct Attribute {
    pub name: String,
    pub value: String,
}

/// A notification about one device.
#[derive(Debug)]
pub struct DeviceEvent {
    /// What happened to the device.
    pub event_type: EventType,
    /// The subsystem that the device belongs to.
    pub subsystem: String,
    /// The attributes of the device, as the system reports them.
    pub attributes: Vec<Attribute>,
}

/// What a watcher of devices yields.
#[derive(Debug)]
pub enum Event {
    /// Something happened to one device.
    Device(DeviceEvent),
    /// The set of attached devices has grown by these identifiers.
    DevicesAdded(Vec<String>),
}

/// Whether `attribute` is the product attribute with `target` as its value.
/// Both texts are compared in full, as they are.
pub open spec fn is_product(attribute: Attribute, target: Seq<char>) -> bool {
    attribute.name@ == "product"@ && attribute.value@ == target
}

/// Whether some attribute among `attributes` is the product attribute with
/// `target` as its value.
pub open spec fn has_product(attributes: Seq<Attribute>, target: Seq<char>) -> bool {
    exists|i: int| 0 <= i < attributes.len() && is_product(#[trigger] attributes[i], target)
}

/// Whether `target` is one of `devices`.
pub open spec fn has_device(devices: Seq<String>, target: Seq<char>) -> bool {
    exists|i: int| 0 <= i < devices.len() && (#[trigger] devices[i])@ == target
}

/// Whether `event` tells that the device `target` has just appeared: it was
/// bound and names `target` as its product, or `target` is among the devices
/// that were added.
pub open spec fn is_match(event: Event, target: Seq<char>) -> bool {
    match event {
        Event::Device(device) => device.event_type == EventType::Bind && has_product(
            device.attributes@,
            target,
        ),
        Event::DevicesAdded(devices) => has_device(devices@, target),
    }
}

/// Whether `target` is one of `devices`.
pub fn contains_device(devices: &Vec<String>, target: &String) -> (found: bool)
    ensures
        found == has_device(devices@, target@),
{
    let mut i: usize = 0;
    while i < devices.len()
        invariant
            i <= devices.len(),
            forall|j: int| 0 <= j < i ==> (#[trigger] devices[j])@ != target@,
        decreases devices.len() - i,
    {
        if devices[i] == *target {
            return true;
        }
        i += 1;
    }
    false
}

/// Tells whether `event` is the appearance of the device `target`.
pub fn matches(event: &Event, target: &String) -> (matched: bool)
    ensures
        matched == is_match(*event, target@),
{
    match event {
        Event::Device(device) => {
            match device.event_type {
                EventType::Bind => {},
                _ => {
                    return false;
                },
            }
            let product = String::from_str("product");
            let mut i: usize = 0;
            while i < device.attributes.len()
                invariant
                    i <= device.attributes.len(),
                    *event == Event::Device(*device),
                    device.event_type == EventType::Bind,
                    product@ == "product"@,
                    forall|j: int|
                        0 <= j < i ==> !is_product(#[trigger] device.attributes[j], target@),
                decreases device.attributes.len() - i,
            {
                if device.attributes[i].name == product && device.attributes[i].value == *target {
                    assert(is_product(device.attributes[i as int], target@));
                    return true;
                }
                i += 1;
            }
            false
        },
        Event::DevicesAdded(devices) => contains_device(devices, target),
    }
}

/// An event about one device that was not bound matches no target, whatever
/// its attributes say.
pub proof fn lemma_only_bound_devices_match(device: DeviceEvent, target: Seq<char>)
    requires
        device.event_type != EventType::Bind,
    ensures
        !is_match(Event::Device(device), target),
{
}

} // verus!
