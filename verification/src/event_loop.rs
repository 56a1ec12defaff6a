//! The loop that ties watching to switching.
//!
//! The loop takes one event after the other from a watcher. An event that
//! shows the device of interest starts a switching session, which is seen
//! through to its end before the next event is taken, whatever becomes of
//! it. Nothing but the watcher's failure stops the loop.

use crate::configuration::Configuration;
use crate::display::Query;
use crate::display_control::{
    lemma_pending_until_finished, lemma_session_next_inv, lemma_start_inv, switch_to, Report,
    SessionModel, SwitchSession,
};
use crate::hotplug::{is_match, Event};
use crate::transport::{Action, Error, Response};
use vstd::prelude::*;

verus! {

/// What the loop asks its caller to do.
#[derive(Clone, Copy, Debug, PartialEq, Eq, Structural)]
pub enum LoopAction {
    /// Take the next event from the watcher, blocking until there is one.
    NextEvent,
    /// Do this work on the display transport.
    Display(Action),
}

/// What the caller of the loop reports back.
#[derive(Debug)]
pub enum LoopInput {
    /// The watcher yielded this event.
    Event(Event),
    /// The watcher cannot go on.
    WatcherFailed,
    /// The work on the display transport ended like this.
    Display(Response),
}

/// How a switching session ended.
#[derive(Debug)]
pub struct Outcome {
    /// `Ok` where the displays could be listed.
    pub result: Result<(), Error>,
    /// One report for each display that matched.
    pub reports: Vec<Report>,
}

/// What the loop is busy with.
pub enum LoopPhase {
    /// The loop waits for the next event.
    Watching,
    /// The device of interest appeared, and the displays are being switched.
    Switching(SessionModel),
    /// The watcher failed. Nothing can follow.
    Stopped,
}

/// The state of the loop, as contracts speak of it.
pub struct LoopModel {
    /// The settings that the loop runs with.
    pub config: Configuration,
    /// What the loop is busy with.
    pub phase: LoopPhase,
}

impl LoopModel {
    /// The session that an appearance of the device of interest starts.
    pub open spec fn session(self) -> SessionModel {
        SessionModel::start(
            Query::ModelName(self.config.monitor_description),
            true,
            self.config.monitor_input,
        )
    }

    /// What the loop waits for, if anything.
    pub open spec fn pending(self) -> Option<LoopAction> {
        match self.phase {
            LoopPhase::Watching => Some(LoopAction::NextEvent),
            LoopPhase::Switching(session) => match session.pending() {
                Some(action) => Some(LoopAction::Display(action)),
                None => None,
            },
            LoopPhase::Stopped => None,
        }
    }

    /// The state after `input`.
    ///
    /// While watching, an event that shows the device of interest starts a
    /// session and any other event is passed over; the watcher's failure
    /// stops the loop. While switching, the session takes each outcome of
    /// transport work, and the loop returns to watching when the session is
    /// finished. An input that does not answer what was pending changes
    /// nothing.
    pub open spec fn next(self, input: LoopInput) -> LoopModel {
        match self.phase {
            LoopPhase::Watching => match input {
                LoopInput::Event(event) => if is_match(event, self.config.usb_product@) {
                    LoopModel { phase: LoopPhase::Switching(self.session()), ..self }
                } else {
                    self
                },
                LoopInput::WatcherFailed => LoopModel { phase: LoopPhase::Stopped, ..self },
                LoopInput::Display(_) => self,
            },
            LoopPhase::Switching(session) => match input {
                LoopInput::Display(response) => if session.next(response).finished() {
                    LoopModel { phase: LoopPhase::Watching, ..self }
                } else {
                    LoopModel { phase: LoopPhase::Switching(session.next(response)), ..self }
                },
                _ => self,
            },
            LoopPhase::Stopped => self,
        }
    }

    /// The session that `input` brings to its end, if any.
    pub open spec fn concluded(self, input: LoopInput) -> Option<SessionModel> {
        match (self.phase, input) {
            (LoopPhase::Switching(session), LoopInput::Display(response)) => if session.next(
                response,
            ).finished() {
                Some(session.next(response))
            } else {
                None
            },
            _ => None,
        }
    }

    /// What holds of every loop that was started and advanced: a session in
    /// progress is a valid one with work left.
    pub open spec fn inv(self) -> bool {
        self.phase matches LoopPhase::Switching(session) ==> session.inv() && !session.finished()
    }
}

/// Every step of the loop keeps what holds of every loop, and its settings.
pub proof fn lemma_loop_next_inv(model: LoopModel, input: LoopInput)
    requires
        model.inv(),
    ensures
        model.next(input).inv(),
        model.next(input).config == model.config,
{
    match model.phase {
        LoopPhase::Watching => {
            lemma_start_inv(
                Query::ModelName(model.config.monitor_description),
                true,
                model.config.monitor_input,
            );
        },
        LoopPhase::Switching(session) => match input {
            LoopInput::Display(response) => {
                lemma_session_next_inv(session, response);
            },
            _ => {},
        },
        LoopPhase::Stopped => {},
    }
}

/// The loop has no end of its own: it stops exactly when the watcher fails
/// while the loop is watching, and until then it always has work pending.
/// In particular no session, however it ends, stops the loop.
pub proof fn lemma_loop_stops_only_with_watcher(model: LoopModel, input: LoopInput)
    requires
        model.inv(),
        !(model.phase is Stopped),
    ensures
        model.next(input).phase is Stopped <==> model.phase is Watching && input is WatcherFailed,
        !(model.next(input).phase is Stopped) ==> model.next(input).pending() is Some,
        model.concluded(input) is Some ==> model.next(input).phase is Watching,
{
    lemma_loop_next_inv(model, input);
    match model.next(input).phase {
        LoopPhase::Switching(session) => {
            lemma_pending_until_finished(session);
        },
        _ => {},
    }
}

/// A session is started exactly by an event that shows the device of
/// interest, and only while the loop is watching.
pub proof fn lemma_loop_switches_on_match(model: LoopModel, event: Event)
    requires
        model.phase is Watching,
    ensures
        model.next(LoopInput::Event(event)).phase is Switching <==> is_match(
            event,
            model.config.usb_product@,
        ),
        !is_match(event, model.config.usb_product@) ==> model.next(LoopInput::Event(event))
            == model,
{
}

/// The loop in progress.
///
/// Ask it for what it waits for with [`EventLoop::pending`], do that, and
/// hand the outcome to [`EventLoop::advance`], for as long as something is
/// pending.
#[derive(Debug)]
pub struct EventLoop {
    config: Configuration,
    stage: Stage,
}

#[derive(Debug)]
enum Stage {
    Watching,
    Switching(SwitchSession),
    Stopped,
}

impl View for EventLoop {
    type V = LoopModel;

    closed spec fn view(&self) -> LoopModel {
        LoopModel {
            config: self.config,
            phase: match self.stage {
                Stage::Watching => LoopPhase::Watching,
                Stage::Switching(session) => LoopPhase::Switching(session@),
                Stage::Stopped => LoopPhase::Stopped,
            },
        }
    }
}

impl EventLoop {
    #[verifier::type_invariant]
    spec fn well_formed(self) -> bool {
        self@.inv()
    }

    /// A loop that is about to take its first event.
    pub fn new(config: Configuration) -> (event_loop: EventLoop)
        ensures
            event_loop@ == (LoopModel { config, phase: LoopPhase::Watching }),
    {
        EventLoop { config, stage: Stage::Watching }
    }

    /// The settings that the loop runs with.
    pub fn config(&self) -> (config: &Configuration)
        ensures
            *config == self@.config,
    {
        &self.config
    }

    /// What the loop waits for; nothing once it has stopped.
    pub fn pending(&self) -> (action: Option<LoopAction>)
        ensures
            action == self@.pending(),
    {
        match &self.stage {
            Stage::Watching => Some(LoopAction::NextEvent),
            Stage::Switching(session) => match session.pending() {
                Some(action) => Some(LoopAction::Display(action)),
                None => None,
            },
            Stage::Stopped => None,
        }
    }

    /// Whether a switching session is under way.
    pub fn is_switching(&self) -> (switching: bool)
        ensures
            switching == (self@.phase is Switching),
    {
        match &self.stage {
            Stage::Switching(_) => true,
            _ => false,
        }
    }

    /// Takes what the caller reports and decides what comes next. Where
    /// that brings a session to its end, the session's outcome is handed
    /// over.
    pub fn advance(self, input: LoopInput) -> (next: (EventLoop, Option<Outcome>))
        ensures
            next.0@ == self@.next(input),
            match next.1 {
                Some(outcome) => self@.concluded(input) matches Some(session)
                    && outcome.result == session.result && outcome.reports@ == session.reports,
                None => self@.concluded(input) is None,
            },
    {
        proof {
            use_type_invariant(&self);
            lemma_loop_next_inv(self@, input);
        }
        let EventLoop { config, stage } = self;
        match stage {
            Stage::Watching => match input {
                LoopInput::Event(event) => {
                    if crate::hotplug::matches(&event, &config.usb_product) {
                        let session = switch_to(&config.monitor_description, config.monitor_input);
                        (EventLoop { config, stage: Stage::Switching(session) }, None)
                    } else {
                        (EventLoop { config, stage: Stage::Watching }, None)
                    }
                },
                LoopInput::WatcherFailed => (EventLoop { config, stage: Stage::Stopped }, None),
                LoopInput::Display(_) => (EventLoop { config, stage: Stage::Watching }, None),
            },
            Stage::Switching(session) => match input {
                LoopInput::Display(response) => {
                    let advanced = session.advance(response);
                    match advanced.result() {
                        Some(result) => {
                            let reports = advanced.into_reports();
                            (
                                EventLoop { config, stage: Stage::Watching },
                                Some(Outcome { result, reports }),
                            )
                        },
                        None => (EventLoop { config, stage: Stage::Switching(advanced) }, None),
                    }
                },
                _ => (EventLoop { config, stage: Stage::Switching(session) }, None),
            },
            Stage::Stopped => (EventLoop { config, stage: Stage::Stopped }, None),
        }
    }
}

} // verus!
