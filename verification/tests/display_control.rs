use display_switch::display::{Backend, CapabilityDatabase, Display, DisplayInfo, Query};
use display_switch::display_control::{
    set_input_source, switch_to, DisplaySleep, InputSource, Report, SwitchSession,
};
use display_switch::transport::{Action, Error, Response};

/// A monitor as the tests set it up.
struct Monitor {
    model: &'static str,
    backend: Backend,
    features: Vec<u8>,
    refresh_fails: bool,
    set_fails: bool,
}

impl Monitor {
    fn new(model: &'static str) -> Monitor {
        Monitor {
            model,
            backend: Backend::I2cDevice,
            features: vec![0x10, 0x60],
            refresh_fails: false,
            set_fails: false,
        }
    }

    /// What is known of the monitor once it is listed.
    fn listed(&self) -> DisplayInfo {
        DisplayInfo {
            backend: self.backend,
            id: "id".to_string(),
            manufacturer_id: None,
            model_name: if self.backend == Backend::WinApi {
                None
            } else {
                Some(self.model.to_string())
            },
            serial_number: None,
            capabilities: CapabilityDatabase::new(),
        }
    }

    /// What is known of the monitor once its capabilities are read.
    fn refreshed(&self) -> DisplayInfo {
        DisplayInfo {
            model_name: Some(self.model.to_string()),
            capabilities: CapabilityDatabase { codes: self.features.clone() },
            ..self.listed()
        }
    }
}

/// A transport that does what it is asked on its monitors, and keeps a log.
struct Bus {
    monitors: Vec<Monitor>,
    listing_fails: bool,
    log: Vec<Action>,
}

impl Bus {
    fn new(monitors: Vec<Monitor>) -> Bus {
        Bus { monitors, listing_fails: false, log: Vec::new() }
    }

    fn perform(&mut self, action: Action) -> Response {
        self.log.push(action);
        match action {
            Action::Enumerate => {
                if self.listing_fails {
                    Response::Failed
                } else {
                    Response::Displays(
                        self.monitors
                            .iter()
                            .enumerate()
                            .map(|(handle, monitor)| Display { handle, info: monitor.listed() })
                            .collect(),
                    )
                }
            }
            Action::UpdateCapabilities { handle } => {
                if self.monitors[handle].refresh_fails {
                    Response::Failed
                } else {
                    Response::Capabilities(self.monitors[handle].refreshed())
                }
            }
            Action::SetVcpFeature { handle, .. } => {
                if self.monitors[handle].set_fails {
                    Response::Failed
                } else {
                    Response::Done
                }
            }
            Action::Sleep { .. } => Response::Done,
        }
    }

    fn run(&mut self, mut session: SwitchSession) -> SwitchSession {
        let mut steps = 0;
        while let Some(action) = session.pending() {
            let response = self.perform(action);
            session = session.advance(response);
            steps += 1;
            assert!(steps < 1000, "the session does not end");
        }
        session
    }

    fn sets(&self) -> Vec<Action> {
        self.log
            .iter()
            .copied()
            .filter(|action| matches!(action, Action::SetVcpFeature { .. }))
            .collect()
    }

    fn sleeps(&self) -> Vec<usize> {
        self.log
            .iter()
            .filter_map(|action| match action {
                Action::Sleep { handle } => Some(*handle),
                _ => None,
            })
            .collect()
    }
}

fn acme() -> String {
    "ACME27".to_string()
}

fn display_with(handle: usize, codes: Vec<u8>) -> Display {
    Display {
        handle,
        info: DisplayInfo {
            backend: Backend::I2cDevice,
            id: "id".to_string(),
            manufacturer_id: None,
            model_name: None,
            serial_number: None,
            capabilities: CapabilityDatabase { codes },
        },
    }
}

#[test]
fn set_input_source_sends_input_select_with_the_wire_code() {
    let display = display_with(3, vec![0x10, 0x60]);
    assert_eq!(
        set_input_source(&display, InputSource::Hdmi1),
        Ok(Action::SetVcpFeature { handle: 3, code: 0x60, value: 0x11 })
    );
    assert_eq!(
        set_input_source(&display, InputSource::DisplayPort1),
        Ok(Action::SetVcpFeature { handle: 3, code: 0x60, value: 0x0f })
    );
    assert_eq!(
        set_input_source(&display, InputSource::Vga1),
        Ok(Action::SetVcpFeature { handle: 3, code: 0x60, value: 0x01 })
    );
}

#[test]
fn set_input_source_fails_without_the_capability() {
    assert_eq!(
        set_input_source(&display_with(3, vec![0x10, 0x61]), InputSource::Hdmi1),
        Err(Error::CapabilityUnavailable)
    );
    assert_eq!(
        set_input_source(&display_with(3, vec![]), InputSource::Hdmi1),
        Err(Error::CapabilityUnavailable)
    );
}

#[test]
fn one_matching_display_is_switched() {
    let mut bus = Bus::new(vec![Monitor::new("ACME27")]);
    let session = bus.run(switch_to(&acme(), InputSource::Hdmi1));
    assert_eq!(
        bus.log,
        vec![
            Action::Enumerate,
            Action::UpdateCapabilities { handle: 0 },
            Action::SetVcpFeature { handle: 0, code: 0x60, value: 0x11 },
            Action::Sleep { handle: 0 },
        ]
    );
    assert!(session.is_finished());
    assert_eq!(session.result(), Some(Ok(())));
    assert_eq!(session.reports(), &vec![Report { handle: 0, result: Ok(()) }]);
}

#[test]
fn a_display_without_input_select_is_reported_and_not_commanded() {
    let mut monitor = Monitor::new("ACME27");
    monitor.features = vec![0x10, 0x12];
    let mut bus = Bus::new(vec![monitor]);
    let session = bus.run(switch_to(&acme(), InputSource::Hdmi1));
    assert_eq!(
        bus.log,
        vec![
            Action::Enumerate,
            Action::UpdateCapabilities { handle: 0 },
            Action::Sleep { handle: 0 },
        ]
    );
    assert_eq!(session.result(), Some(Ok(())));
    assert_eq!(
        session.reports(),
        &vec![Report { handle: 0, result: Err(Error::CapabilityUnavailable) }]
    );
}

#[test]
fn failing_displays_do_not_stop_the_others() {
    // Five matching displays: the first three fail, each in its own way,
    // the last two succeed.
    let mut unreadable = Monitor::new("ACME27");
    unreadable.refresh_fails = true;
    let mut bare = Monitor::new("ACME27");
    bare.features = vec![];
    let mut stubborn = Monitor::new("ACME27");
    stubborn.set_fails = true;
    let mut bus = Bus::new(vec![
        unreadable,
        bare,
        stubborn,
        Monitor::new("ACME27"),
        Monitor::new("ACME27"),
    ]);
    let session = bus.run(switch_to(&acme(), InputSource::DisplayPort2));
    assert_eq!(session.result(), Some(Ok(())));
    assert_eq!(
        session.reports(),
        &vec![
            Report { handle: 0, result: Err(Error::CapabilityUnavailable) },
            Report { handle: 1, result: Err(Error::CapabilityUnavailable) },
            Report { handle: 2, result: Err(Error::TransportFailure) },
            Report { handle: 3, result: Ok(()) },
            Report { handle: 4, result: Ok(()) },
        ]
    );
    assert_eq!(
        bus.sets(),
        vec![
            Action::SetVcpFeature { handle: 2, code: 0x60, value: 0x10 },
            Action::SetVcpFeature { handle: 3, code: 0x60, value: 0x10 },
            Action::SetVcpFeature { handle: 4, code: 0x60, value: 0x10 },
        ]
    );
    assert_eq!(bus.sleeps(), vec![0, 1, 2, 3, 4]);
}

#[test]
fn the_session_succeeds_even_if_every_switch_fails() {
    let mut monitors = Vec::new();
    for _ in 0..4 {
        let mut monitor = Monitor::new("ACME27");
        monitor.set_fails = true;
        monitors.push(monitor);
    }
    let mut bus = Bus::new(monitors);
    let session = bus.run(switch_to(&acme(), InputSource::Hdmi2));
    assert_eq!(session.result(), Some(Ok(())));
    assert_eq!(session.reports().len(), 4);
    for (handle, report) in session.reports().iter().enumerate() {
        assert_eq!(*report, Report { handle, result: Err(Error::TransportFailure) });
    }
    // Each display is told once, and never again.
    assert_eq!(bus.sets().len(), 4);
    assert_eq!(bus.sleeps(), vec![0, 1, 2, 3]);
}

#[test]
fn every_display_taken_up_is_waited_for_exactly_once() {
    let mut failing = Monitor::new("ACME27");
    failing.set_fails = true;
    let mut bus = Bus::new(vec![
        Monitor::new("OTHER"),
        failing,
        Monitor::new("ACME27"),
        Monitor::new("OTHER"),
        Monitor::new("ACME27"),
    ]);
    let session = bus.run(switch_to(&acme(), InputSource::Hdmi1));
    assert_eq!(session.result(), Some(Ok(())));
    // The waits come last, one for each matching display, in order.
    assert_eq!(bus.sleeps(), vec![1, 2, 4]);
    let first_sleep = bus.log.iter().position(|action| matches!(action, Action::Sleep { .. }));
    assert_eq!(first_sleep, Some(bus.log.len() - 3));
}

#[test]
fn displays_that_do_not_match_are_left_alone() {
    let mut bus = Bus::new(vec![Monitor::new("OTHER"), Monitor::new("ACME24")]);
    let session = bus.run(switch_to(&acme(), InputSource::Hdmi1));
    assert_eq!(bus.log, vec![Action::Enumerate]);
    assert_eq!(session.result(), Some(Ok(())));
    assert!(session.reports().is_empty());
}

#[test]
fn a_failed_listing_is_the_only_error() {
    let mut bus = Bus::new(vec![Monitor::new("ACME27")]);
    bus.listing_fails = true;
    let session = bus.run(switch_to(&acme(), InputSource::Hdmi1));
    assert_eq!(bus.log, vec![Action::Enumerate]);
    assert!(session.is_finished());
    assert_eq!(session.result(), Some(Err(Error::EnumerationFailed)));
    assert!(session.reports().is_empty());
}

#[test]
fn winapi_displays_are_refreshed_to_be_found_and_again_to_be_switched() {
    let mut monitor = Monitor::new("ACME27");
    monitor.backend = Backend::WinApi;
    let mut other = Monitor::new("OTHER");
    other.backend = Backend::WinApi;
    let mut bus = Bus::new(vec![other, monitor]);
    let session = bus.run(switch_to(&acme(), InputSource::Hdmi1));
    assert_eq!(
        bus.log,
        vec![
            Action::Enumerate,
            Action::UpdateCapabilities { handle: 0 },
            Action::UpdateCapabilities { handle: 1 },
            Action::UpdateCapabilities { handle: 1 },
            Action::SetVcpFeature { handle: 1, code: 0x60, value: 0x11 },
            Action::Sleep { handle: 1 },
        ]
    );
    assert_eq!(session.reports(), &vec![Report { handle: 1, result: Ok(()) }]);
}

#[test]
fn a_display_that_cannot_be_read_anew_is_judged_by_what_was_known() {
    // The display was read while it was looked for; the second reading
    // fails. It advertises input select, so it is told to switch.
    let session = switch_to(&acme(), InputSource::Hdmi1);
    let listed = Display {
        handle: 0,
        info: DisplayInfo {
            backend: Backend::WinApi,
            id: "id".to_string(),
            manufacturer_id: None,
            model_name: None,
            serial_number: None,
            capabilities: CapabilityDatabase::new(),
        },
    };
    let session = session.advance(Response::Displays(vec![listed]));
    assert_eq!(session.pending(), Some(Action::UpdateCapabilities { handle: 0 }));
    let mut monitor = Monitor::new("ACME27");
    monitor.backend = Backend::WinApi;
    let session = session.advance(Response::Capabilities(monitor.refreshed()));
    assert_eq!(session.pending(), Some(Action::UpdateCapabilities { handle: 0 }));
    let session = session.advance(Response::Failed);
    assert_eq!(
        session.pending(),
        Some(Action::SetVcpFeature { handle: 0, code: 0x60, value: 0x11 })
    );
    let session = session.advance(Response::Done);
    assert_eq!(session.pending(), Some(Action::Sleep { handle: 0 }));
    let session = session.advance(Response::Done);
    assert_eq!(session.result(), Some(Ok(())));
    assert_eq!(session.reports(), &vec![Report { handle: 0, result: Ok(()) }]);
}

#[test]
fn a_session_reports_nothing_before_it_is_finished() {
    let session = switch_to(&acme(), InputSource::Hdmi1);
    assert_eq!(session.pending(), Some(Action::Enumerate));
    assert!(!session.is_finished());
    assert_eq!(session.result(), None);
    let session = session.advance(Response::Displays(vec![display_with(9, vec![])]));
    // The display has no model name: nothing matches.
    assert_eq!(session.result(), Some(Ok(())));
}

#[test]
fn a_session_takes_at_most_four_steps_for_each_display_after_the_listing() {
    // The longest way: every display must be read to be found, matches,
    // is read again, is commanded and is waited for.
    for count in 0..6 {
        let mut monitors = Vec::new();
        for _ in 0..count {
            let mut monitor = Monitor::new("ACME27");
            monitor.backend = Backend::WinApi;
            monitors.push(monitor);
        }
        let mut bus = Bus::new(monitors);
        let session = bus.run(switch_to(&acme(), InputSource::Hdmi1));
        assert!(session.is_finished());
        assert_eq!(bus.log.len(), 1 + 4 * count);
        assert_eq!(session.reports().len(), count);
    }
    // Shorter ways end sooner.
    let mut bus = Bus::new(vec![Monitor::new("ACME27"), Monitor::new("OTHER")]);
    let session = bus.run(switch_to(&acme(), InputSource::Hdmi1));
    assert!(session.is_finished());
    assert_eq!(bus.log.len(), 1 + 3);
}

#[test]
fn a_query_of_ones_own_selects_the_displays() {
    let mut bus = Bus::new(vec![Monitor::new("A"), Monitor::new("B"), Monitor::new("C")]);
    let query = Query::Or(vec![
        Query::ModelName("A".to_string()),
        Query::ModelName("C".to_string()),
    ]);
    let session = bus.run(SwitchSession::new((query, true), InputSource::Dvi2));
    assert_eq!(
        session.into_reports(),
        vec![Report { handle: 0, result: Ok(()) }, Report { handle: 2, result: Ok(()) }]
    );
    assert_eq!(
        bus.sets(),
        vec![
            Action::SetVcpFeature { handle: 0, code: 0x60, value: 0x04 },
            Action::SetVcpFeature { handle: 2, code: 0x60, value: 0x04 },
        ]
    );
}

#[test]
fn a_finished_session_takes_no_more() {
    let mut bus = Bus::new(vec![Monitor::new("ACME27")]);
    let session = bus.run(switch_to(&acme(), InputSource::Hdmi1));
    let session = session
        .advance(Response::Done)
        .advance(Response::Failed)
        .advance(Response::Displays(vec![display_with(1, vec![0x60])]));
    assert_eq!(session.pending(), None);
    assert_eq!(session.result(), Some(Ok(())));
    assert_eq!(session.reports().len(), 1);
}

#[test]
fn display_sleep_waits_for_each_added_display_once_in_order() {
    let mut sleep = DisplaySleep::new();
    assert!(sleep.is_released());
    assert_eq!(sleep.pending(), None);
    sleep.add(display_with(4, vec![]));
    sleep.add(display_with(2, vec![]));
    sleep.add(display_with(4, vec![]));
    assert!(!sleep.is_released());
    let mut waited = Vec::new();
    while let Some(Action::Sleep { handle }) = sleep.pending() {
        waited.push(handle);
        sleep.settle();
    }
    assert_eq!(waited, vec![4, 2, 4]);
    assert!(sleep.is_released());
    sleep.settle();
    assert_eq!(sleep.pending(), None);
}

#[test]
fn releasing_asks_for_each_wait_that_is_still_due() {
    let sleep = DisplaySleep::new();
    assert_eq!(sleep.release(), vec![]);
    let mut sleep = DisplaySleep::new();
    sleep.add(display_with(4, vec![]));
    sleep.add(display_with(2, vec![]));
    sleep.add(display_with(9, vec![]));
    sleep.settle();
    assert_eq!(
        sleep.release(),
        vec![Action::Sleep { handle: 2 }, Action::Sleep { handle: 9 }]
    );
}

#[test]
fn a_default_display_sleep_tracks_nothing() {
    let mut sleep = DisplaySleep::default();
    assert!(sleep.is_released());
    assert_eq!(sleep.pending(), None);
    sleep.add(display_with(8, vec![]));
    assert_eq!(sleep.pending(), Some(Action::Sleep { handle: 8 }));
}

#[test]
fn display_sleep_takes_displays_while_it_waits() {
    let mut sleep = DisplaySleep::new();
    sleep.add(display_with(1, vec![]));
    assert_eq!(sleep.pending(), Some(Action::Sleep { handle: 1 }));
    sleep.settle();
    assert!(sleep.is_released());
    sleep.add(display_with(5, vec![]));
    assert_eq!(sleep.pending(), Some(Action::Sleep { handle: 5 }));
    sleep.settle();
    assert!(sleep.is_released());
}

#[test]
fn errors_describe_themselves() {
    assert_eq!(Error::CapabilityUnavailable.message(), "Could not access input source feature");
    assert_eq!(Error::EnumerationFailed.message(), "Could not enumerate displays");
    assert_eq!(Error::TransportFailure.message(), "Could not set input source feature");
}
