//! What holds of every run of a switching session, whatever the transport
//! answers.

use crate::display::{Display, Query, INPUT_SELECT};
use crate::enumeration::{lemma_next_inv, lemma_scan_bound, EnumerationModel, EnumerationPhase};
use crate::display_control::{
    lemma_session_next_inv, lemma_start_inv, Report, SessionModel, SessionPhase, SleepModel,
};
use crate::input_source::InputSource;
use crate::transport::{Action, Error, Response};
use vstd::prelude::*;

verus! {

impl SessionModel {
    /// The state after the work pending at each step ended with the next of
    /// `responses`.
    pub open spec fn run(self, responses: Seq<Response>) -> SessionModel
        decreases responses.len(),
    {
        if responses.len() == 0 {
            self
        } else {
            self.run(responses.drop_last()).next(responses.last())
        }
    }

    /// The work that was done on the way: what was pending before each of
    /// `responses`, in order.
    pub open spec fn performed(self, responses: Seq<Response>) -> Seq<Action>
        decreases responses.len(),
    {
        if responses.len() == 0 {
            Seq::empty()
        } else {
            let before = self.performed(responses.drop_last());
            match self.run(responses.drop_last()).pending() {
                Some(action) => before.push(action),
                None => before,
            }
        }
    }
}

impl SleepModel {
    /// The handles of the displays that have been waited for, in order.
    pub open spec fn waited_for(self) -> Seq<usize> {
        Seq::new(self.settled, |i: int| self.displays[i].handle)
    }
}

/// Releasing waits once for each display that was added and not yet waited
/// for, in the order of adding, and leaves nothing to wait for.
pub proof fn lemma_release_waits_for_each_display(sleep: SleepModel)
    requires
        sleep.settled <= sleep.displays.len(),
    ensures
        sleep.release().len() == sleep.displays.len() - sleep.settled,
        forall|i: int|
            0 <= i < sleep.release().len() ==> #[trigger] sleep.release()[i] == (Action::Sleep {
                handle: sleep.displays[sleep.settled + i].handle,
            }),
    decreases sleep.displays.len() - sleep.settled,
{
    if !sleep.released() {
        lemma_release_waits_for_each_display(sleep.settle());
    }
}

/// The handles that `actions` wait for, in order.
pub open spec fn sleeps(actions: Seq<Action>) -> Seq<usize>
    decreases actions.len(),
{
    if actions.len() == 0 {
        Seq::empty()
    } else {
        match actions.last() {
            Action::Sleep { handle } => sleeps(actions.drop_last()).push(handle),
            _ => sleeps(actions.drop_last()),
        }
    }
}

/// The commands among `actions` that set a feature, in order.
pub open spec fn commands(actions: Seq<Action>) -> Seq<Action>
    decreases actions.len(),
{
    if actions.len() == 0 {
        Seq::empty()
    } else {
        match actions.last() {
            Action::SetVcpFeature { .. } => commands(actions.drop_last()).push(actions.last()),
            _ => commands(actions.drop_last()),
        }
    }
}

/// Whether a display with this report was sent a command: it took it, or
/// the transport reported a failure.
pub open spec fn was_commanded(report: Report) -> bool {
    report.result is Ok || report.result == Err::<(), Error>(Error::TransportFailure)
}

/// The commands that `reports` speak of: for each display that was sent one,
/// input select with the wire code of `input`.
pub open spec fn commands_of(reports: Seq<Report>, input: InputSource) -> Seq<Action>
    decreases reports.len(),
{
    if reports.len() == 0 {
        Seq::empty()
    } else if was_commanded(reports.last()) {
        commands_of(reports.drop_last(), input).push(
            Action::SetVcpFeature {
                handle: reports.last().handle,
                code: INPUT_SELECT,
                value: input.wire() as u16,
            },
        )
    } else {
        commands_of(reports.drop_last(), input)
    }
}

/// Every run of a session that was started leads to a state of which the
/// session's invariant holds.
pub proof fn lemma_run_inv(session: SessionModel, responses: Seq<Response>)
    requires
        session.inv(),
    ensures
        session.run(responses).inv(),
        session.run(responses).input == session.input,
    decreases responses.len(),
{
    if responses.len() > 0 {
        lemma_run_inv(session, responses.drop_last());
        lemma_session_next_inv(session.run(responses.drop_last()), responses.last());
    }
}

/// Each display that was taken up is waited for once, in the order of
/// taking up, on every path to the end of a session.
///
/// Whatever the transport answers, the waits that a session has asked for
/// are those for the first displays it took up, one wait for each; and when
/// the session is finished, every display that it took up has been waited
/// for.
pub proof fn lemma_waits_once_for_each_display(
    query: Query,
    needs_caps: bool,
    input: InputSource,
    responses: Seq<Response>,
)
    ensures
        ({
            let start = SessionModel::start(query, needs_caps, input);
            let end = start.run(responses);
            &&& sleeps(start.performed(responses)) == end.sleep.waited_for()
            &&& end.sleep.settled <= end.sleep.displays.len()
            &&& end.finished() ==> end.sleep.settled == end.sleep.displays.len()
        }),
    decreases responses.len(),
{
    let start = SessionModel::start(query, needs_caps, input);
    lemma_start_inv(query, needs_caps, input);
    lemma_run_inv(start, responses);
    if responses.len() == 0 {
        assert(sleeps(start.performed(responses)) =~= start.sleep.waited_for());
    } else {
        let before = start.run(responses.drop_last());
        let end = start.run(responses);
        lemma_waits_once_for_each_display(query, needs_caps, input, responses.drop_last());
        lemma_run_inv(start, responses.drop_last());
        let done = start.performed(responses.drop_last());
        match before.pending() {
            Some(action) => {
                assert(done.push(action).drop_last() =~= done);
                match action {
                    Action::Sleep { handle } => {
                        assert(before.phase is Sleeping);
                        assert(end.sleep.waited_for() =~= before.sleep.waited_for().push(handle));
                    },
                    _ => {
                        assert(end.sleep.waited_for() =~= before.sleep.waited_for());
                    },
                }
            },
            None => {
                assert(end.sleep.waited_for() =~= before.sleep.waited_for());
            },
        }
    }
}

/// A display is told to switch at most once, and only with input select and
/// the wire code of the wanted input.
///
/// Whatever the transport answers, the commands that a session has sent
/// are, in order, one for each reported display that took the command or
/// answered it with a failure, and none for the others.
pub proof fn lemma_commands_once_for_each_display(
    query: Query,
    needs_caps: bool,
    input: InputSource,
    responses: Seq<Response>,
)
    ensures
        ({
            let start = SessionModel::start(query, needs_caps, input);
            let end = start.run(responses);
            commands(start.performed(responses)) == commands_of(end.reports, input)
        }),
    decreases responses.len(),
{
    let start = SessionModel::start(query, needs_caps, input);
    lemma_start_inv(query, needs_caps, input);
    if responses.len() > 0 {
        let before = start.run(responses.drop_last());
        let end = start.run(responses);
        lemma_commands_once_for_each_display(query, needs_caps, input, responses.drop_last());
        lemma_run_inv(start, responses.drop_last());
        let done = start.performed(responses.drop_last());
        match before.pending() {
            Some(action) => {
                assert(done.push(action).drop_last() =~= done);
                match action {
                    Action::SetVcpFeature { .. } => {
                        assert(before.phase is Setting);
                        let report = end.reports.last();
                        assert(end.reports.drop_last() =~= before.reports);
                        assert(was_commanded(report));
                    },
                    _ => {
                        if end.reports.len() != before.reports.len() {
                            assert(end.reports.drop_last() =~= before.reports);
                            assert(!was_commanded(end.reports.last()));
                        }
                    },
                }
            },
            None => {},
        }
    }
}

/// What the enumeration finds is what the session takes up.
///
/// While the displays are looked for, a step leaves the session looking,
/// or ends the search: with displays, which are then the session's matching
/// displays, none of them taken up yet; or with the failure of the listing,
/// which ends the session.
pub proof fn lemma_takes_up_what_was_found(session: SessionModel, response: Response)
    requires
        session.inv(),
        session.phase is Enumerating,
    ensures
        ({
            let next = session.next(response);
            match session.phase->Enumerating_0.next(response).result() {
                None => next.phase == SessionPhase::Enumerating(
                    session.phase->Enumerating_0.next(response),
                ),
                Some(Ok(found)) => {
                    &&& !(next.phase is Enumerating)
                    &&& next.matched() == found
                    &&& next.remaining == found
                    &&& next.reports.len() == 0
                    &&& next.result is Ok
                },
                Some(Err(error)) => next.finished() && next.result == Err::<(), Error>(error),
            }
        }),
{
    let next = session.next(response);
    assert(next.matched() =~= next.remaining);
}

/// Once the displays are listed, the set of matching displays is fixed: no
/// step drops one or adds one.
pub proof fn lemma_matched_is_kept(session: SessionModel, response: Response)
    requires
        session.inv(),
        !(session.phase is Enumerating),
    ensures
        session.next(response).matched() == session.matched(),
        session.next(response).result == session.result,
        !(session.next(response).phase is Enumerating),
{
    let next = session.next(response);
    if next.sleep.displays.len() != session.sleep.displays.len() {
        assert(session.remaining =~= seq![session.remaining[0]] + session.remaining.drop_first());
    }
    assert(next.matched() =~= session.matched());
}

/// Switching never ends early.
///
/// From the moment the displays are listed, whatever each display answers:
/// the session's result stays as it is (`Ok`, where the listing did not
/// fail), the matching displays stay the same, and when the session is
/// finished every one of them, in the transport's order, has been taken up,
/// has its report, and has been waited for.
pub proof fn lemma_never_ends_early(session: SessionModel, responses: Seq<Response>)
    requires
        session.inv(),
        !(session.phase is Enumerating),
    ensures
        ({
            let end = session.run(responses);
            &&& end.result == session.result
            &&& end.matched() == session.matched()
            &&& !(end.phase is Enumerating)
            &&& end.finished() ==> {
                &&& end.sleep.displays == session.matched()
                &&& end.sleep.settled == session.matched().len()
                &&& end.reports.len() == session.matched().len()
                &&& forall|i: int|
                    0 <= i < end.reports.len() ==> (#[trigger] end.reports[i]).handle
                        == session.matched()[i].handle
            }
        }),
    decreases responses.len(),
{
    lemma_run_inv(session, responses);
    if responses.len() > 0 {
        lemma_never_ends_early(session, responses.drop_last());
        lemma_run_inv(session, responses.drop_last());
        lemma_matched_is_kept(session.run(responses.drop_last()), responses.last());
    }
    let end = session.run(responses);
    if end.finished() {
        assert(end.matched() =~= end.sleep.displays);
    }
}

/// Only a failed listing fails a session: a session's result is an error
/// exactly when the transport did not answer the listing with displays, and
/// then no display was touched.
pub proof fn lemma_session_fails_only_on_listing(
    query: Query,
    needs_caps: bool,
    input: InputSource,
    responses: Seq<Response>,
)
    ensures
        ({
            let end = SessionModel::start(query, needs_caps, input).run(responses);
            end.result is Err <==> responses.len() > 0 && !(responses[0] is Displays)
        }),
        ({
            let start = SessionModel::start(query, needs_caps, input);
            let end = start.run(responses);
            end.result is Err ==> {
                &&& end.finished()
                &&& end.result == Err::<(), Error>(Error::EnumerationFailed)
                &&& end.reports.len() == 0
                &&& end.sleep.displays.len() == 0
            }
        }),
    decreases responses.len(),
{
    let start = SessionModel::start(query, needs_caps, input);
    lemma_start_inv(query, needs_caps, input);
    lemma_run_inv(start, responses);
    if responses.len() > 0 {
        lemma_session_fails_only_on_listing(query, needs_caps, input, responses.drop_last());
        lemma_run_inv(start, responses.drop_last());
        lemma_listing_comes_first(query, needs_caps, input, responses.drop_last());
        let before = start.run(responses.drop_last());
        match before.phase {
            SessionPhase::Enumerating(enumeration) => {
                crate::enumeration::lemma_fails_only_on_listing(enumeration, responses.last());
            },
            _ => {},
        }
        if responses.len() == 1 {
            assert(responses.drop_last() =~= Seq::<Response>::empty());
            assert(responses.last() == responses[0]);
        } else {
            assert(responses.drop_last()[0] == responses[0]);
        }
    }
}

/// A session waits for the listing until the first response, and never
/// again after it.
pub proof fn lemma_listing_comes_first(
    query: Query,
    needs_caps: bool,
    input: InputSource,
    responses: Seq<Response>,
)
    ensures
        ({
            let end = SessionModel::start(query, needs_caps, input).run(responses);
            end.pending() == Some(Action::Enumerate) <==> responses.len() == 0
        }),
    decreases responses.len(),
{
    let start = SessionModel::start(query, needs_caps, input);
    lemma_start_inv(query, needs_caps, input);
    lemma_run_inv(start, responses);
    if responses.len() > 0 {
        lemma_listing_comes_first(query, needs_caps, input, responses.drop_last());
        lemma_run_inv(start, responses.drop_last());
        let before = start.run(responses.drop_last());
        match before.phase {
            SessionPhase::Enumerating(enumeration) => {
                lemma_next_inv(enumeration, responses.last());
            },
            _ => {},
        }
    }
}

impl SessionModel {
    /// A bound on the steps that a session still takes, once the transport
    /// has listed its displays: reading capabilities once for each display
    /// not yet examined, and reading, commanding and waiting once for each
    /// display that matches.
    pub open spec fn steps_left(self) -> nat {
        match self.phase {
            SessionPhase::Enumerating(enumeration) => 4 * enumeration.candidates.len() + 3
                * enumeration.matched.len(),
            SessionPhase::Refreshing => 3 * self.remaining.len() + self.sleep.displays.len(),
            SessionPhase::Setting => (3 * self.remaining.len() + self.sleep.displays.len()
                - 1) as nat,
            SessionPhase::Sleeping => (self.sleep.displays.len() - self.sleep.settled) as nat,
            SessionPhase::Finished => 0,
        }
    }

    /// Whether the session still waits for the listing.
    pub open spec fn listing(self) -> bool {
        self.phase matches SessionPhase::Enumerating(enumeration) && enumeration.phase
            == EnumerationPhase::Listing
    }
}

/// Every step after the listing brings a session nearer to its end,
/// whatever the transport answers.
pub proof fn lemma_step_makes_progress(session: SessionModel, response: Response)
    requires
        session.inv(),
        !session.listing(),
        !session.finished(),
    ensures
        session.next(response).steps_left() < session.steps_left(),
        !session.next(response).listing(),
{
    match session.phase {
        SessionPhase::Enumerating(enumeration) => {
            lemma_next_inv(enumeration, response);
            match response {
                Response::Capabilities(info) => {
                    lemma_scan_bound(
                        enumeration.examined(
                            Display { handle: enumeration.candidates[0].handle, info },
                        ),
                    );
                },
                _ => {
                    lemma_scan_bound(enumeration.dropped());
                },
            }
        },
        _ => {},
    }
}

/// A run can be taken apart at its first response.
pub proof fn lemma_run_from_first(session: SessionModel, responses: Seq<Response>)
    requires
        responses.len() > 0,
    ensures
        session.run(responses) == session.next(responses[0]).run(responses.drop_first()),
    decreases responses.len(),
{
    if responses.len() == 1 {
        assert(responses.drop_last() =~= Seq::<Response>::empty());
        assert(responses.drop_first() =~= Seq::<Response>::empty());
        assert(session.run(responses.drop_last()) == session);
    } else {
        lemma_run_from_first(session, responses.drop_last());
        assert(responses.drop_last()[0] == responses[0]);
        assert(responses.drop_last().drop_first() =~= responses.drop_first().drop_last());
        assert(responses.drop_first().last() == responses.last());
    }
}

/// After the listing, a session that has taken `responses` is finished or
/// has that many steps less before it.
pub proof fn lemma_run_makes_progress(session: SessionModel, responses: Seq<Response>)
    requires
        session.inv(),
        !session.listing(),
    ensures
        ({
            let end = session.run(responses);
            &&& !end.listing()
            &&& end.finished() || end.steps_left() + responses.len() <= session.steps_left()
        }),
    decreases responses.len(),
{
    if responses.len() > 0 {
        let before = session.run(responses.drop_last());
        lemma_run_makes_progress(session, responses.drop_last());
        lemma_run_inv(session, responses.drop_last());
        if !before.finished() {
            lemma_step_makes_progress(before, responses.last());
        }
    }
}

/// Every session comes to its end.
///
/// Whatever the transport answers, a session is finished after the listing
/// and four more steps for each display that was listed, at the latest; and
/// after the listing alone where that failed.
pub proof fn lemma_session_always_ends(
    query: Query,
    needs_caps: bool,
    input: InputSource,
    responses: Seq<Response>,
)
    requires
        responses.len() > 0,
        responses[0] matches Response::Displays(found) ==> responses.len() >= 1 + 4 * found.len(),
    ensures
        SessionModel::start(query, needs_caps, input).run(responses).finished(),
{
    let start = SessionModel::start(query, needs_caps, input);
    lemma_start_inv(query, needs_caps, input);
    lemma_run_from_first(start, responses);
    let listed = start.next(responses[0]);
    lemma_session_next_inv(start, responses[0]);
    lemma_next_inv(EnumerationModel::start(query, needs_caps), responses[0]);
    match responses[0] {
        Response::Displays(found) => {
            lemma_scan_bound(
                EnumerationModel { candidates: found@, ..EnumerationModel::start(query, needs_caps) },
            );
            assert(listed.steps_left() <= 4 * found.len());
        },
        _ => {
            assert(listed.finished());
        },
    }
    lemma_run_makes_progress(listed, responses.drop_first());
    let end = listed.run(responses.drop_first());
    lemma_run_inv(listed, responses.drop_first());
    if !end.finished() {
        assert(end.steps_left() > 0);
    }
}

} // verus!
