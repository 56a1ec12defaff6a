//! Switching the input of every display that matches a model name.
//!
//! The work on the transport (listing displays, reading capabilities,
//! setting a feature, waiting out communication delays) is the caller's. A
//! [`SwitchSession`] decides what is done next and keeps the policy: a
//! display that fails never stops the others, a display is told to switch at
//! most once, and every display that was taken up is waited for before the
//! session ends.

use crate::display::{Display, Query, INPUT_SELECT};
use crate::enumeration::{displays, lemma_next_inv, Enumeration, EnumerationModel, EnumerationPhase};
pub use crate::input_source::InputSource;
use crate::transport::{Action, Error, Response};
use vstd::pervasive::unreached;
use vstd::prelude::*;

verus! {

/// The displays to wait for, as contracts speak of them.
pub struct SleepModel {
    /// The tracked displays, in the order in which they were added.
    pub displays: Seq<Display>,
    /// How many of them have been waited for, from the front.
    pub settled: nat,
}

impl SleepModel {
    /// Nothing is tracked.
    pub open spec fn empty() -> SleepModel {
        SleepModel { displays: Seq::empty(), settled: 0 }
    }

    /// `display` is tracked as well.
    pub open spec fn add(self, display: Display) -> SleepModel {
        SleepModel { displays: self.displays.push(display), ..self }
    }

    /// Whether every tracked display has been waited for.
    pub open spec fn released(self) -> bool {
        self.settled >= self.displays.len()
    }

    /// The wait that is due next, if any: that for the first tracked display
    /// not yet waited for.
    pub open spec fn pending(self) -> Option<Action> {
        if self.released() {
            None
        } else {
            Some(Action::Sleep { handle: self.displays[self.settled as int].handle })
        }
    }

    /// The pending wait is over.
    pub open spec fn settle(self) -> SleepModel {
        if self.released() {
            self
        } else {
            SleepModel { settled: self.settled + 1, ..self }
        }
    }

    /// The waits that are due, one after the other, until every display has
    /// been waited for.
    pub open spec fn release(self) -> Seq<Action>
        decreases self.displays.len() - self.settled,
    {
        match self.pending() {
            None => Seq::empty(),
            Some(wait) => seq![wait] + self.settle().release(),
        }
    }
}

/// Tracks set of displays to wait for before their handles are given up.
///
/// A command may still be on its way when the call that sent it returns;
/// closing the handle then can cancel it. So each display that was taken up
/// is added here, and is waited for once, in the order of adding.
#[derive(Debug)]
pub struct DisplaySleep {
    displays: Vec<Display>,
    settled: usize,
}

impl View for DisplaySleep {
    type V = SleepModel;

    closed spec fn view(&self) -> SleepModel {
        SleepModel { displays: self.displays@, settled: self.settled as nat }
    }
}

impl Default for DisplaySleep {
    /// A tracker of no displays.
    fn default() -> (sleep: DisplaySleep)
        ensures
            sleep@ == SleepModel::empty(),
    {
        DisplaySleep { displays: Vec::new(), settled: 0 }
    }
}

impl DisplaySleep {
    /// A tracker of no displays.
    pub fn new() -> (sleep: DisplaySleep)
        ensures
            sleep@ == SleepModel::empty(),
    {
        DisplaySleep { displays: Vec::new(), settled: 0 }
    }

    /// Add a display to the tracked set.
    pub fn add(&mut self, display: Display)
        ensures
            final(self)@ == old(self)@.add(display),
    {
        self.displays.push(display);
    }

    /// The wait that is due next: nothing once every tracked display has
    /// been waited for.
    pub fn pending(&self) -> (action: Option<Action>)
        ensures
            action == self@.pending(),
    {
        if self.settled < self.displays.len() {
            Some(Action::Sleep { handle: self.displays[self.settled].handle })
        } else {
            None
        }
    }

    /// Records that the pending wait is over.
    pub fn settle(&mut self)
        ensures
            final(self)@ == old(self)@.settle(),
    {
        if self.settled < self.displays.len() {
            self.settled = self.settled + 1;
        }
    }

    /// Whether every tracked display has been waited for.
    pub fn is_released(&self) -> (released: bool)
        ensures
            released == self@.released(),
    {
        self.settled >= self.displays.len()
    }

    /// Gives up the tracker for the waits that are still due: one for each
    /// display not yet waited for, in the order of adding. The displays may
    /// be closed once these waits are over.
    pub fn release(self) -> (waits: Vec<Action>)
        ensures
            waits@ == self@.release(),
    {
        let mut waits: Vec<Action> = Vec::new();
        let mut next: usize = self.settled;
        while next < self.displays.len()
            invariant
                waits@ + (SleepModel { displays: self.displays@, settled: next as nat }).release()
                    == self@.release(),
            decreases self.displays.len() - next,
        {
            let ghost here = SleepModel { displays: self.displays@, settled: next as nat };
            let wait = Action::Sleep { handle: self.displays[next].handle };
            assert(here.release() == seq![wait] + here.settle().release());
            assert((waits@.push(wait)) + here.settle().release() =~= waits@ + here.release());
            waits.push(wait);
            next = next + 1;
        }
        assert((SleepModel { displays: self.displays@, settled: next as nat }).release()
            =~= Seq::<Action>::empty());
        waits
    }
}

/// The command that sets the input of `display`, or why there is none.
pub open spec fn input_select(display: Display, input_source: InputSource) -> Result<
    Action,
    Error,
> {
    if display.info.capabilities@.contains(INPUT_SELECT) {
        Ok(
            Action::SetVcpFeature {
                handle: display.handle,
                code: INPUT_SELECT,
                value: input_source.wire() as u16,
            },
        )
    } else {
        Err(Error::CapabilityUnavailable)
    }
}

/// Set the input source of a display to a given input.
///
/// Gives the command to send: input select, with the wire code of the input
/// as its value. A display that does not advertise input select gets no
/// command: that is `CapabilityUnavailable`.
pub fn set_input_source(display: &Display, input_source: InputSource) -> (command: Result<
    Action,
    Error,
>)
    ensures
        command == input_select(*display, input_source),
{
    match display.info.capabilities.get(INPUT_SELECT) {
        Some(code) => Ok(
            Action::SetVcpFeature {
                handle: display.handle,
                code,
                value: input_source.to_wire_value() as u16,
            },
        ),
        None => Err(Error::CapabilityUnavailable),
    }
}

/// How the attempt to switch one display ended.
#[derive(Clone, Copy, Debug, PartialEq, Eq)]
pub struct Report {
    /// The handle of the display.
    pub handle: usize,
    /// `Ok` where the display took the command.
    pub result: Result<(), Error>,
}

/// How far a session has come.
pub enum SessionPhase {
    /// The displays that match are being looked for.
    Enumerating(EnumerationModel),
    /// The capabilities of the first remaining display are being read.
    Refreshing,
    /// The first remaining display is being told to switch.
    Setting,
    /// The displays that were taken up are being waited for.
    Sleeping,
    /// Nothing is left to do.
    Finished,
}

/// The state of a session, as contracts speak of it.
pub struct SessionModel {
    /// The input to switch to.
    pub input: InputSource,
    /// How far the session has come.
    pub phase: SessionPhase,
    /// The matching displays not yet taken up, in the transport's order.
    pub remaining: Seq<Display>,
    /// One report for each display taken up, in the same order.
    pub reports: Seq<Report>,
    /// The displays taken up, and how many of them have been waited for.
    pub sleep: SleepModel,
    /// The result of the session, once it is finished.
    pub result: Result<(), Error>,
}

impl SessionModel {
    /// A session that has just begun to look for displays.
    pub open spec fn start(query: Query, needs_caps: bool, input: InputSource) -> SessionModel {
        SessionModel {
            input,
            phase: SessionPhase::Enumerating(EnumerationModel::start(query, needs_caps)),
            remaining: Seq::empty(),
            reports: Seq::empty(),
            sleep: SleepModel::empty(),
            result: Ok(()),
        }
    }

    /// Every matching display of the session: those taken up, then those
    /// that remain.
    pub open spec fn matched(self) -> Seq<Display> {
        self.sleep.displays + self.remaining
    }

    /// All displays have been taken up: what is left is to wait for them.
    pub open spec fn release(self) -> SessionModel {
        if self.sleep.released() {
            SessionModel { phase: SessionPhase::Finished, ..self }
        } else {
            SessionModel { phase: SessionPhase::Sleeping, ..self }
        }
    }

    /// Turns to the first remaining display, or to waiting where none
    /// remains.
    pub open spec fn begin(self) -> SessionModel {
        if self.remaining.len() == 0 {
            self.release()
        } else {
            SessionModel { phase: SessionPhase::Refreshing, ..self }
        }
    }

    /// The attempt on the first remaining display ended with `result`: the
    /// display is reported, is tracked for the wait, and the session turns
    /// to the next.
    pub open spec fn record(self, result: Result<(), Error>) -> SessionModel {
        SessionModel {
            remaining: self.remaining.drop_first(),
            reports: self.reports.push(Report { handle: self.remaining[0].handle, result }),
            sleep: self.sleep.add(self.remaining[0]),
            ..self
        }.begin()
    }

    /// The first remaining display as it is known after its capabilities
    /// were asked for: as `response` describes it, or as it was known before
    /// where they could not be read.
    pub open spec fn refreshed(self, response: Response) -> Display {
        match response {
            Response::Capabilities(info) => Display { handle: self.remaining[0].handle, info },
            _ => self.remaining[0],
        }
    }

    /// The work that the session waits for, if any.
    pub open spec fn pending(self) -> Option<Action> {
        match self.phase {
            SessionPhase::Enumerating(enumeration) => enumeration.pending(),
            SessionPhase::Refreshing => Some(
                Action::UpdateCapabilities { handle: self.remaining[0].handle },
            ),
            SessionPhase::Setting => Some(
                Action::SetVcpFeature {
                    handle: self.remaining[0].handle,
                    code: INPUT_SELECT,
                    value: self.input.wire() as u16,
                },
            ),
            SessionPhase::Sleeping => self.sleep.pending(),
            SessionPhase::Finished => None,
        }
    }

    /// The state after the pending work ended with `response`.
    ///
    /// Only a failed listing fails the session. A display whose capabilities
    /// cannot be read anew is judged by what was known of it. A display that
    /// does not advertise input select, or that answers the command with a
    /// failure, is reported with its error and tracked like the others; the
    /// session goes on with the next display.
    pub open spec fn next(self, response: Response) -> SessionModel {
        match self.phase {
            SessionPhase::Enumerating(enumeration) => {
                let advanced = enumeration.next(response);
                match advanced.result() {
                    None => SessionModel { phase: SessionPhase::Enumerating(advanced), ..self },
                    Some(Ok(matched)) => SessionModel { remaining: matched, ..self }.begin(),
                    Some(Err(error)) => SessionModel {
                        phase: SessionPhase::Finished,
                        result: Err(error),
                        ..self
                    },
                }
            },
            SessionPhase::Refreshing => match input_select(self.refreshed(response), self.input) {
                Ok(_) => SessionModel { phase: SessionPhase::Setting, ..self },
                Err(error) => self.record(Err(error)),
            },
            SessionPhase::Setting => match response {
                Response::Done => self.record(Ok(())),
                _ => self.record(Err(Error::TransportFailure)),
            },
            SessionPhase::Sleeping => SessionModel { sleep: self.sleep.settle(), ..self }.release(),
            SessionPhase::Finished => self,
        }
    }

    /// Whether nothing is left to do.
    pub open spec fn finished(self) -> bool {
        self.phase is Finished
    }

    /// What holds of every session that was started and advanced.
    pub open spec fn inv(self) -> bool {
        &&& self.reports.len() == self.sleep.displays.len()
        &&& forall|i: int|
            0 <= i < self.reports.len() ==> (#[trigger] self.reports[i]).handle
                == self.sleep.displays[i].handle
        &&& self.sleep.settled <= self.sleep.displays.len()
        &&& match self.phase {
            SessionPhase::Enumerating(enumeration) => {
                &&& enumeration.inv()
                &&& enumeration.phase != EnumerationPhase::Finished
                &&& self.remaining.len() == 0
                &&& self.sleep.displays.len() == 0
                &&& self.result is Ok
            },
            SessionPhase::Refreshing | SessionPhase::Setting => {
                &&& self.remaining.len() > 0
                &&& self.sleep.settled == 0
                &&& self.result is Ok
            },
            SessionPhase::Sleeping => {
                &&& self.remaining.len() == 0
                &&& self.sleep.settled < self.sleep.displays.len()
                &&& self.result is Ok
            },
            SessionPhase::Finished => {
                &&& self.remaining.len() == 0
                &&& self.sleep.settled == self.sleep.displays.len()
                &&& self.result is Err ==> self.sleep.displays.len() == 0 && self.result == Err::<
                    (),
                    Error,
                >(Error::EnumerationFailed)
            },
        }
    }
}

/// A session that has just begun is as every session is.
pub proof fn lemma_start_inv(query: Query, needs_caps: bool, input: InputSource)
    ensures
        SessionModel::start(query, needs_caps, input).inv(),
{
}

/// Every step of a session keeps what holds of every session.
pub proof fn lemma_session_next_inv(session: SessionModel, response: Response)
    requires
        session.inv(),
    ensures
        session.next(response).inv(),
{
    match session.phase {
        SessionPhase::Enumerating(enumeration) => {
            lemma_next_inv(enumeration, response);
        },
        _ => {},
    }
}

/// A session has work pending until it is finished.
pub proof fn lemma_pending_until_finished(session: SessionModel)
    requires
        session.inv(),
    ensures
        session.pending() is None <==> session.finished(),
{
}

/// An attempt to switch every display that a query selects.
///
/// Made by [`switch_to`]. Ask it for the work it waits for with
/// [`SwitchSession::pending`], do that work on the transport, and hand the
/// outcome to [`SwitchSession::advance`], until nothing is pending.
#[derive(Debug)]
pub struct SwitchSession {
    input: InputSource,
    stage: Stage,
    remaining: Vec<Display>,
    reports: Vec<Report>,
    sleep: DisplaySleep,
    result: Result<(), Error>,
}

#[derive(Debug)]
enum Stage {
    Enumerating(Enumeration),
    Refreshing,
    Setting,
    Sleeping,
    Finished,
}

impl View for SwitchSession {
    type V = SessionModel;

    closed spec fn view(&self) -> SessionModel {
        SessionModel {
            input: self.input,
            phase: match self.stage {
                Stage::Enumerating(enumeration) => SessionPhase::Enumerating(enumeration@),
                Stage::Refreshing => SessionPhase::Refreshing,
                Stage::Setting => SessionPhase::Setting,
                Stage::Sleeping => SessionPhase::Sleeping,
                Stage::Finished => SessionPhase::Finished,
            },
            remaining: self.remaining@,
            reports: self.reports@,
            sleep: self.sleep@,
            result: self.result,
        }
    }
}

/// Begins to switch every display whose model name is `model` to
/// `input_source`.
///
/// The displays are looked for with capability data asked for. The session
/// that is returned has asked for nothing yet.
pub fn switch_to(model: &String, input_source: InputSource) -> (session: SwitchSession)
    ensures
        session@ == SessionModel::start(Query::ModelName(*model), true, input_source),
        session@.inv(),
{
    SwitchSession::new((Query::ModelName(model.clone()), true), input_source)
}

impl SwitchSession {
    #[verifier::type_invariant]
    spec fn well_formed(self) -> bool {
        self@.inv()
    }

    /// Begins to switch every display that `query` selects to
    /// `input_source`. The second part of `query` says whether capability
    /// data is asked for while the displays are looked for.
    pub fn new(query: (Query, bool), input_source: InputSource) -> (session: SwitchSession)
        ensures
            session@ == SessionModel::start(query.0, query.1, input_source),
            session@.inv(),
    {
        SwitchSession {
            input: input_source,
            stage: Stage::Enumerating(displays(query)),
            remaining: Vec::new(),
            reports: Vec::new(),
            sleep: DisplaySleep::new(),
            result: Ok(()),
        }
    }

    /// The work that the session waits for; nothing once it is finished.
    pub fn pending(&self) -> (action: Option<Action>)
        ensures
            action == self@.pending(),
            self@.inv(),
    {
        proof {
            use_type_invariant(self);
        }
        match &self.stage {
            Stage::Enumerating(enumeration) => enumeration.pending(),
            Stage::Refreshing => Some(
                Action::UpdateCapabilities { handle: self.remaining[0].handle },
            ),
            Stage::Setting => Some(
                Action::SetVcpFeature {
                    handle: self.remaining[0].handle,
                    code: INPUT_SELECT,
                    value: self.input.to_wire_value() as u16,
                },
            ),
            Stage::Sleeping => self.sleep.pending(),
            Stage::Finished => None,
        }
    }

    /// Takes the outcome of the pending work and decides what comes next.
    pub fn advance(self, response: Response) -> (next: SwitchSession)
        ensures
            next@ == self@.next(response),
            next@.inv(),
    {
        proof {
            use_type_invariant(&self);
            lemma_session_next_inv(self@, response);
        }
        let SwitchSession { input, stage, remaining, reports, mut sleep, result } = self;
        match stage {
            Stage::Enumerating(enumeration) => {
                let advanced = enumeration.advance(response);
                if advanced.is_finished() {
                    match advanced.result() {
                        Some(Ok(matched)) => begin(input, matched, reports, sleep, result),
                        Some(Err(error)) => SwitchSession {
                            input,
                            stage: Stage::Finished,
                            remaining,
                            reports,
                            sleep,
                            result: Err(error),
                        },
                        None => unreached(),
                    }
                } else {
                    SwitchSession {
                        input,
                        stage: Stage::Enumerating(advanced),
                        remaining,
                        reports,
                        sleep,
                        result,
                    }
                }
            },
            Stage::Refreshing => {
                let command = match response {
                    Response::Capabilities(info) => set_input_source(
                        &Display { handle: remaining[0].handle, info },
                        input,
                    ),
                    _ => set_input_source(&remaining[0], input),
                };
                match command {
                    Ok(_) => SwitchSession {
                        input,
                        stage: Stage::Setting,
                        remaining,
                        reports,
                        sleep,
                        result,
                    },
                    Err(error) => record(input, remaining, reports, sleep, result, Err(error)),
                }
            },
            Stage::Setting => match response {
                Response::Done => record(input, remaining, reports, sleep, result, Ok(())),
                _ => record(input, remaining, reports, sleep, result, Err(Error::TransportFailure)),
            },
            Stage::Sleeping => {
                sleep.settle();
                release(input, remaining, reports, sleep, result)
            },
            Stage::Finished => SwitchSession {
                input,
                stage: Stage::Finished,
                remaining,
                reports,
                sleep,
                result,
            },
        }
    }

    /// Whether nothing is left to do.
    pub fn is_finished(&self) -> (finished: bool)
        ensures
            finished == self@.finished(),
    {
        match self.stage {
            Stage::Finished => true,
            _ => false,
        }
    }

    /// The result of the session: `Ok` where the displays could be listed,
    /// whatever became of each of them. Nothing while work is still pending.
    pub fn result(&self) -> (result: Option<Result<(), Error>>)
        ensures
            result == if self@.finished() {
                Some(self@.result)
            } else {
                None
            },
    {
        match self.stage {
            Stage::Finished => Some(self.result),
            _ => None,
        }
    }

    /// One report for each display taken up so far, in the order in which
    /// the transport listed them.
    pub fn reports(&self) -> (reports: &Vec<Report>)
        ensures
            reports@ == self@.reports,
    {
        &self.reports
    }

    /// Gives up the session for its reports.
    pub fn into_reports(self) -> (reports: Vec<Report>)
        ensures
            reports@ == self@.reports,
    {
        self.reports
    }
}

/// The session that waits for the displays taken up, or is finished where
/// there is none left to wait for.
fn release(
    input: InputSource,
    remaining: Vec<Display>,
    reports: Vec<Report>,
    sleep: DisplaySleep,
    result: Result<(), Error>,
) -> (next: SwitchSession)
    requires
        (SessionModel {
            input,
            phase: SessionPhase::Finished,
            remaining: remaining@,
            reports: reports@,
            sleep: sleep@,
            result,
        }).release().inv(),
    ensures
        next@ == (SessionModel {
            input,
            phase: SessionPhase::Finished,
            remaining: remaining@,
            reports: reports@,
            sleep: sleep@,
            result,
        }).release(),
{
    let stage = if sleep.is_released() {
        Stage::Finished
    } else {
        Stage::Sleeping
    };
    SwitchSession { input, stage, remaining, reports, sleep, result }
}

/// The session that turns to the first remaining display, or to waiting
/// where none remains.
fn begin(
    input: InputSource,
    remaining: Vec<Display>,
    reports: Vec<Report>,
    sleep: DisplaySleep,
    result: Result<(), Error>,
) -> (next: SwitchSession)
    requires
        (SessionModel {
            input,
            phase: SessionPhase::Finished,
            remaining: remaining@,
            reports: reports@,
            sleep: sleep@,
            result,
        }).begin().inv(),
    ensures
        next@ == (SessionModel {
            input,
            phase: SessionPhase::Finished,
            remaining: remaining@,
            reports: reports@,
            sleep: sleep@,
            result,
        }).begin(),
{
    if remaining.len() == 0 {
        release(input, remaining, reports, sleep, result)
    } else {
        SwitchSession { input, stage: Stage::Refreshing, remaining, reports, sleep, result }
    }
}

/// The session after the attempt on the first remaining display ended with
/// `outcome`.
fn record(
    input: InputSource,
    remaining: Vec<Display>,
    reports: Vec<Report>,
    sleep: DisplaySleep,
    result: Result<(), Error>,
    outcome: Result<(), Error>,
) -> (next: SwitchSession)
    requires
        remaining.len() > 0,
        (SessionModel {
            input,
            phase: SessionPhase::Finished,
            remaining: remaining@,
            reports: reports@,
            sleep: sleep@,
            result,
        }).record(outcome).inv(),
    ensures
        next@ == (SessionModel {
            input,
            phase: SessionPhase::Finished,
            remaining: remaining@,
            reports: reports@,
            sleep: sleep@,
            result,
        }).record(outcome),
{
    let mut remaining = remaining;
    let mut reports = reports;
    let mut sleep = sleep;
    let first = remaining.remove(0);
    reports.push(Report { handle: first.handle, result: outcome });
    sleep.add(first);
    begin(input, remaining, reports, sleep, result)
}

} // verus!
