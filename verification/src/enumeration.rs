//! Finding the displays that a query selects.
//!
//! Listing the displays and reading their capabilities is blocking work on
//! the transport; which display needs its capabilities read, and which
//! displays are kept, is decided here. An [`Enumeration`] asks for one piece
//! of work at a time and takes the outcome of each in turn.

use crate::display::{Backend, Display, DisplayInfo, Query};
use crate::transport::{Action, Error, Response};
use vstd::prelude::*;

verus! {

/// How far an enumeration has come.
#[derive(Clone, Copy, Debug, PartialEq, Eq, Structural)]
pub enum EnumerationPhase {
    /// The transport has been asked for its displays.
    Listing,
    /// The capabilities of the first display not yet examined are being read.
    Refreshing,
    /// Every display has been examined, or the listing failed.
    Finished,
}

/// The state of an enumeration, as contracts speak of it.
pub struct EnumerationModel {
    /// The query that a display must match to be kept.
    pub query: Query,
    /// Whether the caller needs capability data to filter or to act.
    pub needs_caps: bool,
    /// How far the enumeration has come.
    pub phase: EnumerationPhase,
    /// The displays not yet examined, in the transport's order.
    pub candidates: Seq<Display>,
    /// The displays kept so far, in the transport's order.
    pub matched: Seq<Display>,
    /// Whether the transport failed to list its displays.
    pub failed: bool,
}

/// Whether a display's capabilities must be read before it is examined: the
/// caller needs the data, and the backend reports nothing without being
/// asked.
pub open spec fn needs_refresh(needs_caps: bool, info: DisplayInfo) -> bool {
    needs_caps && info.backend == Backend::WinApi
}

impl EnumerationModel {
    /// An enumeration that has just asked for the transport's displays.
    pub open spec fn start(query: Query, needs_caps: bool) -> EnumerationModel {
        EnumerationModel {
            query,
            needs_caps,
            phase: EnumerationPhase::Listing,
            candidates: Seq::empty(),
            matched: Seq::empty(),
            failed: false,
        }
    }

    /// The first candidate has been examined as `display`: it is kept where
    /// the query accepts it.
    pub open spec fn examined(self, display: Display) -> EnumerationModel {
        EnumerationModel {
            candidates: self.candidates.drop_first(),
            matched: if self.query.accepts(display.info) {
                self.matched.push(display)
            } else {
                self.matched
            },
            ..self
        }
    }

    /// The first candidate is dropped from the enumeration.
    pub open spec fn dropped(self) -> EnumerationModel {
        EnumerationModel { candidates: self.candidates.drop_first(), ..self }
    }

    /// Examines candidates for as long as none needs work on the transport.
    pub open spec fn scan(self) -> EnumerationModel
        decreases self.candidates.len(),
    {
        if self.candidates.len() == 0 {
            EnumerationModel { phase: EnumerationPhase::Finished, ..self }
        } else if needs_refresh(self.needs_caps, self.candidates[0].info) {
            EnumerationModel { phase: EnumerationPhase::Refreshing, ..self }
        } else {
            self.examined(self.candidates[0]).scan()
        }
    }

    /// The work that the enumeration waits for, if any.
    pub open spec fn pending(self) -> Option<Action> {
        match self.phase {
            EnumerationPhase::Listing => Some(Action::Enumerate),
            EnumerationPhase::Refreshing => Some(
                Action::UpdateCapabilities { handle: self.candidates[0].handle },
            ),
            EnumerationPhase::Finished => None,
        }
    }

    /// The state after the pending work ended with `response`.
    ///
    /// A listing that does not answer with displays fails the enumeration. A
    /// display whose capabilities could not be read is dropped, and the
    /// enumeration goes on with the next.
    pub open spec fn next(self, response: Response) -> EnumerationModel {
        match self.phase {
            EnumerationPhase::Listing => match response {
                Response::Displays(found) => EnumerationModel {
                    candidates: found@,
                    ..self
                }.scan(),
                _ => EnumerationModel {
                    phase: EnumerationPhase::Finished,
                    failed: true,
                    ..self
                },
            },
            EnumerationPhase::Refreshing => match response {
                Response::Capabilities(info) => self.examined(
                    Display { handle: self.candidates[0].handle, info },
                ).scan(),
                _ => self.dropped().scan(),
            },
            EnumerationPhase::Finished => self,
        }
    }

    /// What the enumeration found, once it is finished.
    pub open spec fn result(self) -> Option<Result<Seq<Display>, Error>> {
        if self.phase != EnumerationPhase::Finished {
            None
        } else if self.failed {
            Some(Err(Error::EnumerationFailed))
        } else {
            Some(Ok(self.matched))
        }
    }

    /// What holds of every enumeration that was started and advanced.
    pub open spec fn inv(self) -> bool {
        &&& forall|i: int|
            0 <= i < self.matched.len() ==> self.query.accepts((#[trigger] self.matched[i]).info)
        &&& match self.phase {
            EnumerationPhase::Listing => {
                &&& self.candidates.len() == 0
                &&& self.matched.len() == 0
                &&& !self.failed
            },
            EnumerationPhase::Refreshing => {
                &&& self.candidates.len() > 0
                &&& needs_refresh(self.needs_caps, self.candidates[0].info)
                &&& !self.failed
            },
            EnumerationPhase::Finished => {
                &&& self.candidates.len() == 0
                &&& self.failed ==> self.matched.len() == 0
            },
        }
    }
}

/// Scanning keeps what is invariant, given that every display kept so far
/// matches and the listing did not fail.
pub proof fn lemma_scan_inv(m: EnumerationModel)
    requires
        forall|i: int| 0 <= i < m.matched.len() ==> m.query.accepts((#[trigger] m.matched[i]).info),
        !m.failed,
    ensures
        m.scan().inv(),
        m.scan().phase != EnumerationPhase::Listing,
        m.scan().query == m.query,
        m.scan().needs_caps == m.needs_caps,
        !m.scan().failed,
    decreases m.candidates.len(),
{
    if m.candidates.len() != 0 && !needs_refresh(m.needs_caps, m.candidates[0].info) {
        lemma_scan_inv(m.examined(m.candidates[0]));
    }
}

/// Every step of an enumeration keeps its invariant, its query and its
/// demand for capability data.
pub proof fn lemma_next_inv(m: EnumerationModel, response: Response)
    requires
        m.inv(),
    ensures
        m.next(response).inv(),
        m.next(response).query == m.query,
        m.next(response).needs_caps == m.needs_caps,
        m.next(response).phase != EnumerationPhase::Listing,
{
    match m.phase {
        EnumerationPhase::Listing => match response {
            Response::Displays(found) => {
                lemma_scan_inv(EnumerationModel { candidates: found@, ..m });
            },
            _ => {},
        },
        EnumerationPhase::Refreshing => match response {
            Response::Capabilities(info) => {
                lemma_scan_inv(m.examined(Display { handle: m.candidates[0].handle, info }));
            },
            _ => {
                lemma_scan_inv(m.dropped());
            },
        },
        EnumerationPhase::Finished => {},
    }
}

/// A display that cannot be examined never fails the enumeration: a step
/// fails it exactly when it was the listing and the transport did not answer
/// with displays.
pub proof fn lemma_fails_only_on_listing(m: EnumerationModel, response: Response)
    requires
        m.inv(),
    ensures
        m.next(response).failed <==> m.failed || (m.phase == EnumerationPhase::Listing && !(response is Displays)),
{
    match m.phase {
        EnumerationPhase::Listing => match response {
            Response::Displays(found) => {
                lemma_scan_inv(EnumerationModel { candidates: found@, ..m });
            },
            _ => {},
        },
        EnumerationPhase::Refreshing => match response {
            Response::Capabilities(info) => {
                lemma_scan_inv(m.examined(Display { handle: m.candidates[0].handle, info }));
            },
            _ => {
                lemma_scan_inv(m.dropped());
            },
        },
        EnumerationPhase::Finished => {},
    }
}

/// Scanning never adds work: each display it examines is one candidate
/// less and at most one kept display more.
pub proof fn lemma_scan_bound(m: EnumerationModel)
    ensures
        4 * m.scan().candidates.len() + 3 * m.scan().matched.len() <= 4 * m.candidates.len() + 3
            * m.matched.len(),
    decreases m.candidates.len(),
{
    if m.candidates.len() != 0 && !needs_refresh(m.needs_caps, m.candidates[0].info) {
        lemma_scan_bound(m.examined(m.candidates[0]));
    }
}

/// An enumeration in progress.
///
/// Made by [`displays`]. Ask it for the work it waits for with
/// [`Enumeration::pending`], do that work, and hand the outcome to
/// [`Enumeration::advance`], until nothing is pending.
#[derive(Debug)]
pub struct Enumeration {
    query: Query,
    needs_caps: bool,
    phase: EnumerationPhase,
    candidates: Vec<Display>,
    matched: Vec<Display>,
    failed: bool,
}

impl View for Enumeration {
    type V = EnumerationModel;

    closed spec fn view(&self) -> EnumerationModel {
        EnumerationModel {
            query: self.query,
            needs_caps: self.needs_caps,
            phase: self.phase,
            candidates: self.candidates@,
            matched: self.matched@,
            failed: self.failed,
        }
    }
}

/// Return all known display handles matching a given query.
///
/// The second part of `query` says whether the caller needs capability data.
/// The enumeration that is returned has asked for nothing yet: its first
/// pending work is the listing.
pub fn displays(query: (Query, bool)) -> (enumeration: Enumeration)
    ensures
        enumeration@ == EnumerationModel::start(query.0, query.1),
        enumeration@.inv(),
{
    Enumeration {
        query: query.0,
        needs_caps: query.1,
        phase: EnumerationPhase::Listing,
        candidates: Vec::new(),
        matched: Vec::new(),
        failed: false,
    }
}

impl Enumeration {
    #[verifier::type_invariant]
    spec fn well_formed(self) -> bool {
        self@.inv()
    }

    /// The work that the enumeration waits for; nothing once it is finished.
    pub fn pending(&self) -> (action: Option<Action>)
        ensures
            action == self@.pending(),
            self@.inv(),
    {
        proof {
            use_type_invariant(self);
        }
        match self.phase {
            EnumerationPhase::Listing => Some(Action::Enumerate),
            EnumerationPhase::Refreshing => Some(
                Action::UpdateCapabilities { handle: self.candidates[0].handle },
            ),
            EnumerationPhase::Finished => None,
        }
    }

    /// Whether every display has been examined or the listing failed.
    pub fn is_finished(&self) -> (finished: bool)
        ensures
            finished == (self@.phase == EnumerationPhase::Finished),
    {
        match self.phase {
            EnumerationPhase::Finished => true,
            _ => false,
        }
    }

    /// Takes the outcome of the pending work and decides what comes next.
    pub fn advance(self, response: Response) -> (next: Enumeration)
        ensures
            next@ == self@.next(response),
            next@.inv(),
    {
        proof {
            use_type_invariant(&self);
            lemma_next_inv(self@, response);
        }
        let Enumeration { query, needs_caps, phase, mut candidates, mut matched, failed } = self;
        match phase {
            EnumerationPhase::Listing => match response {
                Response::Displays(found) => scan(query, needs_caps, Ghost(phase), found, matched),
                _ => Enumeration {
                    query,
                    needs_caps,
                    phase: EnumerationPhase::Finished,
                    candidates,
                    matched,
                    failed: true,
                },
            },
            EnumerationPhase::Refreshing => {
                let first = candidates.remove(0);
                assert(candidates@ == self@.candidates.drop_first());
                match response {
                    Response::Capabilities(info) => {
                        let display = Display { handle: first.handle, info };
                        if query.matches(&display.info) {
                            matched.push(display);
                        }
                        scan(query, needs_caps, Ghost(phase), candidates, matched)
                    },
                    _ => scan(query, needs_caps, Ghost(phase), candidates, matched),
                }
            },
            EnumerationPhase::Finished => Enumeration {
                query,
                needs_caps,
                phase,
                candidates,
                matched,
                failed,
            },
        }
    }

    /// What the enumeration found: the displays that match, in the
    /// transport's order, or the failure of the listing. Nothing while work
    /// is still pending.
    pub fn result(self) -> (found: Option<Result<Vec<Display>, Error>>)
        ensures
            match found {
                None => self@.result() is None,
                Some(Ok(displays)) => self@.result() == Some(
                    Ok::<Seq<Display>, Error>(displays@),
                ),
                Some(Err(error)) => self@.result() == Some(Err::<Seq<Display>, Error>(error)),
            },
    {
        match self.phase {
            EnumerationPhase::Finished => {
                if self.failed {
                    Some(Err(Error::EnumerationFailed))
                } else {
                    Some(Ok(self.matched))
                }
            },
            _ => None,
        }
    }
}

/// Examines candidates for as long as none needs work on the transport.
/// `phase` is the phase that the enumeration was in before.
fn scan(
    query: Query,
    needs_caps: bool,
    Ghost(phase): Ghost<EnumerationPhase>,
    candidates: Vec<Display>,
    matched: Vec<Display>,
) -> (next: Enumeration)
    requires
        forall|i: int| 0 <= i < matched.len() ==> query.accepts((#[trigger] matched[i]).info),
    ensures
        next@ == (EnumerationModel {
            query,
            needs_caps,
            phase,
            candidates: candidates@,
            matched: matched@,
            failed: false,
        }).scan(),
    decreases candidates.len(),
{
    let ghost here = EnumerationModel {
        query,
        needs_caps,
        phase,
        candidates: candidates@,
        matched: matched@,
        failed: false,
    };
    if candidates.len() == 0 {
        return Enumeration {
            query,
            needs_caps,
            phase: EnumerationPhase::Finished,
            candidates,
            matched,
            failed: false,
        };
    }
    if needs_caps && candidates[0].info.backend == Backend::WinApi {
        return Enumeration {
            query,
            needs_caps,
            phase: EnumerationPhase::Refreshing,
            candidates,
            matched,
            failed: false,
        };
    }
    let mut rest = candidates;
    let mut kept = matched;
    let first = rest.remove(0);
    assert(rest@ == here.candidates.drop_first());
    if query.matches(&first.info) {
        kept.push(first);
    }
    assert((EnumerationModel { candidates: rest@, matched: kept@, ..here }) == here.examined(
        here.candidates[0],
    ));
    scan(query, needs_caps, Ghost(phase), rest, kept)
}

} // verus!
