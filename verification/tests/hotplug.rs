use display_switch::hotplug::{contains_device, Attribute, DeviceEvent, Event, EventType};

fn attribute(name: &str, value: &str) -> Attribute {
    Attribute { name: name.to_string(), value: value.to_string() }
}

fn device(event_type: EventType, attributes: Vec<Attribute>) -> Event {
    Event::Device(DeviceEvent { event_type, subsystem: "usb".to_string(), attributes })
}

fn target() -> String {
    "0731:2901".to_string()
}

#[test]
fn bound_device_with_the_product_matches() {
    let event = device(EventType::Bind, vec![attribute("product", "0731:2901")]);
    assert!(display_switch::hotplug::matches(&event, &target()));
}

#[test]
fn product_is_found_among_other_attributes() {
    let event = device(
        EventType::Bind,
        vec![
            attribute("manufacturer", "ACME"),
            attribute("serial", "0731:2901"),
            attribute("product", "0731:2901"),
            attribute("speed", "480"),
        ],
    );
    assert!(display_switch::hotplug::matches(&event, &target()));
}

#[test]
fn unrelated_product_does_not_match() {
    let event = device(EventType::Bind, vec![attribute("product", "9999:0000")]);
    assert!(!display_switch::hotplug::matches(&event, &target()));
}

#[test]
fn unbind_and_remove_never_match() {
    for event_type in [
        EventType::Add,
        EventType::Change,
        EventType::Remove,
        EventType::Unbind,
        EventType::Unknown,
    ] {
        let event = device(event_type, vec![attribute("product", "0731:2901")]);
        assert!(!display_switch::hotplug::matches(&event, &target()));
    }
}

#[test]
fn the_value_must_stand_under_the_product_attribute() {
    let event = device(
        EventType::Bind,
        vec![attribute("serial", "0731:2901"), attribute("Product", "0731:2901")],
    );
    assert!(!display_switch::hotplug::matches(&event, &target()));
}

#[test]
fn the_value_is_compared_in_full_and_as_it_is() {
    for value in ["0731:2901 ", " 0731:2901", "0731:290", "0731:29011", "0731:2901\n", ""] {
        let event = device(EventType::Bind, vec![attribute("product", value)]);
        assert!(!display_switch::hotplug::matches(&event, &target()));
    }
    let upper = device(EventType::Bind, vec![attribute("product", "ABCD:EF01")]);
    assert!(!display_switch::hotplug::matches(&upper, &"abcd:ef01".to_string()));
}

#[test]
fn bound_device_without_attributes_does_not_match() {
    let event = device(EventType::Bind, vec![]);
    assert!(!display_switch::hotplug::matches(&event, &target()));
}

#[test]
fn added_set_matches_its_members_only() {
    let added = Event::DevicesAdded(vec!["1111:2222".to_string(), "0731:2901".to_string()]);
    assert!(display_switch::hotplug::matches(&added, &target()));
    assert!(display_switch::hotplug::matches(&added, &"1111:2222".to_string()));
    assert!(!display_switch::hotplug::matches(&added, &"9999:0000".to_string()));
}

#[test]
fn empty_added_set_matches_nothing() {
    let added = Event::DevicesAdded(vec![]);
    assert!(!display_switch::hotplug::matches(&added, &target()));
}

#[test]
fn contains_device_finds_exact_identifiers() {
    let devices = vec!["A".to_string(), "B".to_string()];
    assert!(contains_device(&devices, &"A".to_string()));
    assert!(contains_device(&devices, &"B".to_string()));
    assert!(!contains_device(&devices, &"C".to_string()));
    assert!(!contains_device(&devices, &"a".to_string()));
    assert!(!contains_device(&Vec::new(), &"A".to_string()));
}
