//! The session: the live record of which script is active, its source
//! text, and the catalog it was chosen from. A single dispatcher thread
//! owns the one session for the whole life of the process.

use vstd::prelude::*;

use crate::catalog::{EntryView, ScriptEntry, entries_view};
use crate::text::spec_parse_index;
use crate::text::parse_index;

verus! {

/// The live record of which script is active.
pub struct Session {
    /// The scripts there are to choose from.
    pub catalog: Vec<ScriptEntry>,
    /// The ordinal of the active script in the catalog.
    pub active_index: usize,
    /// Where the active script lives.
    pub active_path: String,
    /// The text of the active script, re-read from disk on every reload
    /// and never cached stale.
    pub active_source: String,
}

/// The mathematical shape of a session.
#[verifier::ext_equal]
pub struct SessionView {
    pub catalog: Seq<EntryView>,
    pub active_index: int,
    pub active_path: Seq<char>,
    pub active_source: Seq<char>,
}

impl View for Session {
    type V = SessionView;

    open spec fn view(&self) -> SessionView {
        SessionView {
            catalog: entries_view(self.catalog@),
            active_index: self.active_index as int,
            active_path: self.active_path@,
            active_source: self.active_source@,
        }
    }
}

impl SessionView {
    /// The session invariant: while any scripts remain, the active index
    /// points into the catalog. An empty catalog is fatal and ends the
    /// process, so no field matters then.
    pub open spec fn wf(self) -> bool {
        self.catalog.len() > 0 ==> 0 <= self.active_index < self.catalog.len()
    }
}

/// What a line of selection input selects out of a catalog of the given
/// size: the script with that number, when the line reads as a number
/// below the size, and nothing otherwise.
pub open spec fn spec_choice(len: int, input: Seq<char>) -> Option<int> {
    match spec_parse_index(input) {
        Some(n) => if n < len {
            Some(n as int)
        } else {
            None
        },
        None => None,
    }
}

/// What a line of selection input selects against a session.
pub open spec fn spec_selection_target(v: SessionView, input: Seq<char>) -> Option<int> {
    spec_choice(v.catalog.len() as int, input)
}

/// An input that does not read as a number, or whose number is not the
/// ordinal of any script, selects nothing — and since only an applied
/// selection touches the session, such input never changes the active
/// script, its path or its text.
pub proof fn lemma_invalid_input_selects_nothing(v: SessionView, input: Seq<char>)
    requires
        match spec_parse_index(input) {
            Some(n) => n >= v.catalog.len(),
            None => true,
        },
    ensures
        spec_selection_target(v, input) is None,
{
}

/// Reads a line of selection input against a catalog that has no session
/// around it yet: the number of the script to start with, when there is
/// one. Used at startup, before the first selection succeeds.
pub fn initial_selection(catalog: &Vec<ScriptEntry>, input: &str) -> (r: Option<usize>)
    ensures
        match r {
            Some(i) => spec_choice(catalog@.len() as int, input@) == Some(i as int),
            None => spec_choice(catalog@.len() as int, input@) is None,
        },
{
    match parse_index(input) {
        Some(n) => {
            if n < catalog.len() as u64 {
                Some(n as usize)
            } else {
                None
            }
        },
        None => None,
    }
}

impl Session {
    /// A session that starts at the given script of a catalog.
    pub fn new(catalog: Vec<ScriptEntry>, index: usize, source: String) -> (s: Session)
        requires
            index < catalog@.len(),
        ensures
            s@.catalog == entries_view(catalog@),
            s@.active_index == index as int,
            s@.active_path == entries_view(catalog@)[index as int].path,
            s@.active_source == source@,
            s@.wf(),
    {
        let path = catalog[index].path.clone();
        Session { catalog, active_index: index, active_path: path, active_source: source }
    }

    /// Reads a line of selection input against this session: the number of
    /// the script to switch to, when there is one. The session itself is
    /// untouched; an input that selects nothing changes nothing.
    pub fn selection_target(&self, input: &str) -> (r: Option<usize>)
        ensures
            match r {
                Some(i) => spec_selection_target(self@, input@) == Some(i as int),
                None => spec_selection_target(self@, input@) is None,
            },
    {
        match parse_index(input) {
            Some(n) => {
                if n < self.catalog.len() as u64 {
                    Some(n as usize)
                } else {
                    None
                }
            },
            None => None,
        }
    }

    /// Switches the session to the script at `index`, whose text was just
    /// read as `source`. The catalog stays as it is; the active script,
    /// its path and its text are exactly the chosen ones.
    pub fn apply_selection(&mut self, index: usize, source: String)
        requires
            index < old(self)@.catalog.len(),
        ensures
            final(self)@.catalog == old(self)@.catalog,
            final(self)@.active_index == index as int,
            final(self)@.active_path == old(self)@.catalog[index as int].path,
            final(self)@.active_source == source@,
            final(self)@.wf(),
    {
        self.active_index = index;
        self.active_path = self.catalog[index].path.clone();
        self.active_source = source;
    }
}

} // verus!
