//! An interactive terminal browser for integer-sequence search results.
//!
//! The library holds the verified core: the layout engine (truncation and
//! wrapping math), the renderer (which turns a snapshot of the session state
//! into the exact byte sequence of terminal control writes), and the session
//! state machine (which maps one keystroke to a state transition and a tagged
//! outcome). The surrounding binary performs the terminal and network I/O and
//! feeds plain values in and out.

use vstd::prelude::*;

pub mod layout;
pub mod session;

verus! {

/// One search result: an identifier, a display name, and the terms of the
/// sequence. The identifier is rendered zero-padded to six digits with an
/// `A` prefix (`A000040`).
#[derive(Debug, Clone)]
pub struct Sequence {
    /// The numeric identifier of the sequence. `A000040` is stored as `40`.
    pub id: u64,

    /// The human-readable name; it may exceed the terminal width.
    pub name: String,

    /// The terms of the sequence; only a fixed prefix is ever displayed.
    pub values: Vec<i64>,
}

/// The error conditions a session can report. All of them arise before or
/// around the interactive loop; the loop itself never fails.
#[derive(Debug, Clone, Copy, PartialEq, Eq, Structural)]
pub enum Error {
    /// No query was supplied.
    InputEmpty,
    /// The search failed or produced no usable records.
    SearchFailed,
    /// The terminal could not be prepared for the session.
    TerminalInitFailed,
    /// The request to open an external page failed.
    ExternalOpenFailed,
}

impl Sequence {
    /// The identifier in its display form: `A` followed by the decimal
    /// digits, zero-padded on the left to at least six digits.
    pub fn oeis_id(&self) -> (r: String)
        ensures
            r@ == crate::layout::oeis_id_spec(self.id as nat),
    {
        crate::layout::oeis_id_string(self.id)
    }

    /// The line form used in the menu list: the display identifier, a colon
    /// and a space, then the name.
    pub fn display_string(&self) -> (r: String)
        ensures
            r@ == display_spec(*self),
    {
        let mut r = self.oeis_id();
        r.append(": ");
        r.append(self.name.as_str());
        r
    }
}

impl Error {
    /// The message reported when the session fails with this error.
    pub fn message(&self) -> (r: String)
        ensures
            *self == Error::InputEmpty ==> r@ == "Sequence cannot be empty."@,
            *self == Error::SearchFailed ==> r@ == "The search returned no usable sequences."@,
            *self == Error::TerminalInitFailed ==> r@ == "The terminal could not be prepared."@,
            *self == Error::ExternalOpenFailed ==> r@ == "Unable to open sequence on OEIS."@,
    {
        match self {
            Error::InputEmpty => String::from_str("Sequence cannot be empty."),
            Error::SearchFailed => String::from_str("The search returned no usable sequences."),
            Error::TerminalInitFailed => String::from_str("The terminal could not be prepared."),
            Error::ExternalOpenFailed => String::from_str("Unable to open sequence on OEIS."),
        }
    }
}

/// The menu line text of a record before truncation.
pub open spec fn display_spec(s: Sequence) -> Seq<char> {
    (crate::layout::oeis_id_spec(s.id as nat) + ": "@) + s.name@
}

/// The web page of one sequence: the site root followed by the display
/// identifier.
pub open spec fn sequence_url_spec(id: nat) -> Seq<char> {
    "https://oeis.org/"@ + crate::layout::oeis_id_spec(id)
}

/// Builds the web page address of the sequence with the given identifier.
pub fn sequence_url(id: u64) -> (r: String)
    ensures
        r@ == sequence_url_spec(id as nat),
{
    let mut r = String::from_str("https://oeis.org/");
    let display = crate::layout::oeis_id_string(id);
    r.append(display.as_str());
    r
}

/// The search endpoint for a query of terms: the terms comma-joined, asking
/// for the machine-readable answer.
pub open spec fn search_url_spec(query: Seq<i64>) -> Seq<char> {
    ("https://oeis.org/search?q="@ + crate::layout::joined_ints(query, ","@, query.len() as int))
        + "&fmt=json"@
}

/// Builds the search address for a query of terms.
pub fn search_url(query: &Vec<i64>) -> (r: String)
    ensures
        r@ == search_url_spec(query@),
{
    let mut r = String::from_str("https://oeis.org/search?q=");
    let joined = crate::layout::join_ints(query, ",", query.len());
    r.append(joined.as_str());
    r.append("&fmt=json");
    r
}

} // verus!
