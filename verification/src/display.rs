//! What is known of an attached display, and the queries that select displays.

use vstd::prelude::*;

verus! {

/// VCP feature code for input select.
pub const INPUT_SELECT: u8 = 0x60;

/// The driver through which a display is reached.
#[derive(Clone, Copy, Debug, PartialEq, Eq, Structural)]
pub enum Backend {
    /// Linux i2c-dev driver.
    I2cDevice,
    /// Windows Monitor Configuration API. It reports nothing of a display
    /// until its capabilities are read.
    WinApi,
    /// NVIDIA NVAPI driver.
    Nvapi,
    /// MacOS APIs.
    MacOS,
}

/// The VCP features that a display advertises, by feature code.
///
/// A database without a given code is a valid state, not a fault.
#[derive(Debug)]
pub struct CapabilityDatabase {
    /// The advertised feature codes, in any order; repeats do not matter.
    pub codes: Vec<u8>,
}

impl View for CapabilityDatabase {
    type V = Set<u8>;

    open spec fn view(&self) -> Set<u8> {
        self.codes@.to_set()
    }
}

impl CapabilityDatabase {
    /// A database that advertises nothing.
    pub fn new() -> (db: CapabilityDatabase)
        ensures
            db@ == Set::<u8>::empty(),
            db.codes@ == Seq::<u8>::empty(),
    {
        let db = CapabilityDatabase { codes: Vec::new() };
        assert(db@ =~= Set::<u8>::empty());
        db
    }

    /// Looks a feature up by its code: the code itself where the display
    /// advertises it, nothing otherwise.
    pub fn get(&self, code: u8) -> (found: Option<u8>)
        ensures
            found == if self@.contains(code) {
                Some(code)
            } else {
                None
            },
    {
        let mut i: usize = 0;
        while i < self.codes.len()
            invariant
                i <= self.codes.len(),
                forall|j: int| 0 <= j < i ==> self.codes@[j] != code,
            decreases self.codes.len() - i,
        {
            if self.codes[i] == code {
                return Some(code);
            }
            i += 1;
        }
        None
    }
}

/// Identifying information about an attached display.
#[derive(Debug)]
pub struct DisplayInfo {
    /// The driver used to talk to the display.
    pub backend: Backend,
    /// An identifier of the display; its format is the backend's own.
    pub id: String,
    /// The manufacturer's three-character identifier.
    pub manufacturer_id: Option<String>,
    /// The model name of the display.
    pub model_name: Option<String>,
    /// The human-readable serial number.
    pub serial_number: Option<String>,
    /// The features that the display advertises. Empty until the
    /// capabilities have been read.
    pub capabilities: CapabilityDatabase,
}

/// An open display: the transport's handle, by number, and what is known of
/// the display behind it.
#[derive(Debug)]
pub struct Display {
    /// The number under which the transport keeps the open handle.
    pub handle: usize,
    /// Information about the connected display.
    pub info: DisplayInfo,
}

/// A query to filter out matching displays. Texts must match in full.
#[derive(Debug)]
pub enum Query {
    /// Matches any display.
    Any,
    /// Matches a display on the given backend.
    Backend(Backend),
    /// Matches a display with the given identifier.
    Id(String),
    /// Matches a display of the given manufacturer.
    ManufacturerId(String),
    /// Matches a display with the given model name.
    ModelName(String),
    /// Matches a display with the given serial number.
    SerialNumber(String),
    /// At least one of the queries must match.
    Or(Vec<Query>),
    /// All of the queries must match.
    And(Vec<Query>),
}

/// Whether an optional text is present and reads as `wanted`.
pub open spec fn is_text(field: Option<String>, wanted: Seq<char>) -> bool {
    field matches Some(text) && text@ == wanted
}

fn text_matches(field: &Option<String>, wanted: &String) -> (r: bool)
    ensures
        r == is_text(*field, wanted@),
{
    match field {
        Some(text) => *text == *wanted,
        None => false,
    }
}

impl Query {
    /// The displays that the query selects.
    pub open spec fn accepts(self, info: DisplayInfo) -> bool
        decreases self,
    {
        match self {
            Query::Any => true,
            Query::Backend(backend) => info.backend == backend,
            Query::Id(id) => info.id@ == id@,
            Query::ManufacturerId(id) => is_text(info.manufacturer_id, id@),
            Query::ModelName(model) => is_text(info.model_name, model@),
            Query::SerialNumber(serial) => is_text(info.serial_number, serial@),
            Query::Or(queries) => exists|i: int|
                0 <= i < queries.len() && (#[trigger] queries[i]).accepts(info),
            Query::And(queries) => forall|i: int|
                0 <= i < queries.len() ==> (#[trigger] queries[i]).accepts(info),
        }
    }

    /// Whether the display that `info` describes is a match.
    pub fn matches(&self, info: &DisplayInfo) -> (r: bool)
        ensures
            r == self.accepts(*info),
        decreases self,
    {
        match self {
            Query::Any => true,
            Query::Backend(backend) => info.backend == *backend,
            Query::Id(id) => info.id == *id,
            Query::ManufacturerId(id) => text_matches(&info.manufacturer_id, id),
            Query::ModelName(model) => text_matches(&info.model_name, model),
            Query::SerialNumber(serial) => text_matches(&info.serial_number, serial),
            Query::Or(queries) => {
                let mut i: usize = 0;
                while i < queries.len()
                    invariant
                        i <= queries.len(),
                        *self == Query::Or(*queries),
                        forall|j: int| 0 <= j < i ==> !(#[trigger] queries[j]).accepts(*info),
                    decreases queries.len() - i,
                {
                    proof {
                        assert(decreases_to!(*self => self->Or_0));
                        assert(decreases_to!(*queries => queries@));
                        assert(decreases_to!(queries@ => queries@[i as int]));
                    }
                    if queries[i].matches(info) {
                        assert(queries[i as int].accepts(*info));
                        return true;
                    }
                    i += 1;
                }
                false
            },
            Query::And(queries) => {
                let mut i: usize = 0;
                while i < queries.len()
                    invariant
                        i <= queries.len(),
                        *self == Query::And(*queries),
                        forall|j: int| 0 <= j < i ==> (#[trigger] queries[j]).accepts(*info),
                    decreases queries.len() - i,
                {
                    proof {
                        assert(decreases_to!(*self => self->And_0));
                        assert(decreases_to!(*queries => queries@));
                        assert(decreases_to!(queries@ => queries@[i as int]));
                    }
                    if !queries[i].matches(info) {
                        assert(!queries[i as int].accepts(*info));
                        return false;
                    }
                    i += 1;
                }
                true
            },
        }
    }
}

} // verus!
