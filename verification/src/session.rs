//! The session state machine and the renderer.
//!
//! `Cli` owns the fetched records, the selected index, and the terminal
//! geometry captured once at session start. `process_keystroke` is the pure
//! transition function: it updates the selection and reports a tagged
//! outcome; the driver performs any side effect it names. `render_cli`
//! produces the exact byte sequence of terminal control writes for one
//! redraw; the driver only prints it.

use vstd::prelude::*;

use crate::layout::dec_nat;
use crate::layout::joined_ints;
use crate::layout::joined_with;
use crate::layout::oeis_id_spec;
use crate::layout::truncate_spec;
use crate::layout::wrapped_lines;
use crate::Error;
use crate::Sequence;

verus! {

/// How many terms of the selected sequence the detail pane shows.
pub const N_TERMS: usize = 15;

/// One keystroke, reduced to the classes the session distinguishes.
#[derive(Debug, Clone, Copy, PartialEq, Eq, Structural)]
pub enum Key {
    Up,
    Down,
    Char(char),
    Ctrl(char),
    Esc,
    Unknown,
}

/// A side effect the driver is asked to perform.
#[derive(Debug, Clone, PartialEq, Eq)]
pub enum SideEffect {
    /// Open the external page of the record with this display identifier.
    OpenSequence(String),
    /// Sound the terminal bell.
    Bell,
}

/// The tagged result of one keystroke transition.
#[derive(Debug, Clone, PartialEq, Eq)]
pub enum Outcome {
    /// Keep the session running.
    Continue,
    /// Keep the session running after the driver performs the side effect.
    ContinueWithSideEffect(SideEffect),
    /// Stop the session.
    Terminate,
    /// Perform the side effect, then stop the session.
    TerminateWithSideEffect(SideEffect),
}

pub open spec fn is_quit_key(key: Key) -> bool {
    key == Key::Esc || key == Key::Ctrl('c') || key == Key::Char('q')
}

pub open spec fn is_enter_key(key: Key) -> bool {
    key == Key::Char('\n')
}

pub open spec fn is_up_key(key: Key) -> bool {
    key == Key::Up || key == Key::Char('k')
}

pub open spec fn is_down_key(key: Key) -> bool {
    key == Key::Down || key == Key::Char('j')
}

/// Where the selection moves on one keystroke, over a list of `n` records:
/// up and down move one step with saturation at the ends; every other key
/// leaves the selection alone.
pub open spec fn next_index_spec(key: Key, i: int, n: int) -> int {
    if is_quit_key(key) || is_enter_key(key) {
        i
    } else if is_up_key(key) {
        if i > 0 {
            i - 1
        } else {
            0
        }
    } else if is_down_key(key) {
        if i + 1 < n {
            i + 1
        } else {
            n - 1
        }
    } else {
        i
    }
}

/// The session state: the records, the selection, and the terminal geometry
/// captured once at session start.
pub struct Cli {
    /// The terminal column count.
    pub width: usize,
    /// The index of the highlighted record; always within `sequences`.
    pub selected_index: usize,
    /// The fetched records; never empty for a well-formed session.
    pub sequences: Vec<Sequence>,
    /// The cursor position captured at session start, the anchor of every
    /// redraw.
    pub origin: (u16, u16),
}

impl Cli {
    /// The session invariant: at least one record, the selection in range,
    /// room for the five columns of marker and ellipsis, and an origin row
    /// that leaves the redraw anchor one row below it representable.
    pub open spec fn wf(self) -> bool {
        &&& 1 <= self.sequences@.len()
        &&& self.selected_index < self.sequences@.len()
        &&& self.width >= 5
        &&& self.origin.1 < 65535
    }

    /// The runtime check of the session invariant, for callers outside
    /// verified code.
    pub fn is_well_formed(&self) -> (b: bool)
        ensures
            b == self.wf(),
    {
        self.sequences.len() >= 1 && self.selected_index < self.sequences.len() && self.width >= 5
            && self.origin.1 < 65535
    }

    /// Builds the session state. An empty result list is rejected as a
    /// failed search; a terminal too narrow for the list columns, or an
    /// origin row at the very last representable row, as a failed terminal
    /// setup.
    pub fn new(sequences: Vec<Sequence>, origin: (u16, u16), width: usize) -> (r: Result<
        Cli,
        Error,
    >)
        ensures
            (r is Ok) <==> (sequences@.len() >= 1 && width >= 5 && origin.1 < 65535),
            (r matches Ok(c) ==> c.wf() && c.sequences@ == sequences@ && c.selected_index == 0
                && c.width == width && c.origin == origin),
            sequences@.len() == 0 ==> r == Err::<Cli, Error>(Error::SearchFailed),
            (sequences@.len() >= 1 && !(width >= 5 && origin.1 < 65535)) ==> r == Err::<
                Cli,
                Error,
            >(Error::TerminalInitFailed),
    {
        if sequences.len() == 0 {
            Err(Error::SearchFailed)
        } else if width < 5 || origin.1 >= 65535 {
            Err(Error::TerminalInitFailed)
        } else {
            Ok(Cli { width, selected_index: 0, sequences, origin })
        }
    }

    /// The currently highlighted record.
    pub fn selected_sequence(&self) -> (r: &Sequence)
        requires
            self.wf(),
        ensures
            *r == self.sequences@[self.selected_index as int],
    {
        &self.sequences[self.selected_index]
    }

    /// Feeds one keystroke to the state machine. The records and the
    /// terminal geometry never change; the selection moves as
    /// `next_index_spec` says; the outcome is `Terminate` for the quit keys,
    /// an open request followed by termination for enter, plain `Continue`
    /// for a selection move, and a bell for anything else.
    pub fn process_keystroke(&mut self, key: Key) -> (o: Outcome)
        requires
            old(self).wf(),
        ensures
            final(self).wf(),
            final(self).sequences == old(self).sequences,
            final(self).width == old(self).width,
            final(self).origin == old(self).origin,
            final(self).selected_index as int == next_index_spec(
                key,
                old(self).selected_index as int,
                old(self).sequences@.len() as int,
            ),
            is_quit_key(key) ==> o == Outcome::Terminate,
            is_enter_key(key) ==> (o matches Outcome::TerminateWithSideEffect(
                SideEffect::OpenSequence(s),
            ) && s@ == oeis_id_spec(
                old(self).sequences@[old(self).selected_index as int].id as nat,
            )),
            (is_up_key(key) || is_down_key(key)) ==> o == Outcome::Continue,
            !(is_quit_key(key) || is_enter_key(key) || is_up_key(key) || is_down_key(key))
                ==> o == Outcome::ContinueWithSideEffect(SideEffect::Bell),
    {
        match key {
            Key::Esc => Outcome::Terminate,
            Key::Char(c) => {
                if c == 'q' {
                    Outcome::Terminate
                } else if c == '\n' {
                    let id = self.selected_sequence().oeis_id();
                    Outcome::TerminateWithSideEffect(SideEffect::OpenSequence(id))
                } else if c == 'k' {
                    if self.selected_index > 0 {
                        self.selected_index = self.selected_index - 1;
                    }
                    Outcome::Continue
                } else if c == 'j' {
                    let n = self.sequences.len();
                    if self.selected_index + 1 < n {
                        self.selected_index = self.selected_index + 1;
                    }
                    Outcome::Continue
                } else {
                    Outcome::ContinueWithSideEffect(SideEffect::Bell)
                }
            },
            Key::Ctrl(c) => {
                if c == 'c' {
                    Outcome::Terminate
                } else {
                    Outcome::ContinueWithSideEffect(SideEffect::Bell)
                }
            },
            Key::Up => {
                if self.selected_index > 0 {
                    self.selected_index = self.selected_index - 1;
                }
                Outcome::Continue
            },
            Key::Down => {
                let n = self.sequences.len();
                if self.selected_index + 1 < n {
                    self.selected_index = self.selected_index + 1;
                }
                Outcome::Continue
            },
            Key::Unknown => Outcome::ContinueWithSideEffect(SideEffect::Bell),
        }
    }
}

/// The selection index that a whole sequence of keystrokes leaves behind,
/// fed to the transition function one key at a time.
pub open spec fn apply_keys(keys: Seq<Key>, i: int, n: int) -> int
    decreases keys.len(),
{
    if keys.len() == 0 {
        i
    } else {
        apply_keys(keys.drop_first(), next_index_spec(keys[0], i, n), n)
    }
}

/// Clamping: over a non-empty list of `n` records, any sequence of
/// keystrokes keeps the selection inside `[0, n - 1]`.
pub proof fn lemma_selected_index_clamped(keys: Seq<Key>, i: int, n: int)
    requires
        n >= 1,
        0 <= i < n,
    ensures
        0 <= apply_keys(keys, i, n) < n,
    decreases keys.len(),
{
    if keys.len() > 0 {
        assert(0 <= next_index_spec(keys[0], i, n) < n);
        lemma_selected_index_clamped(keys.drop_first(), next_index_spec(keys[0], i, n), n);
    }
}

/// Moving up any number of times from the first record keeps the selection
/// at the first record: the step saturates at zero, it never wraps.
pub proof fn lemma_up_from_first_stays(keys: Seq<Key>, n: int)
    requires
        n >= 1,
        forall|k: int| 0 <= k < keys.len() ==> is_up_key(keys[k]),
    ensures
        apply_keys(keys, 0, n) == 0,
    decreases keys.len(),
{
    if keys.len() > 0 {
        assert(is_up_key(keys[0]));
        assert forall|k: int| 0 <= k < keys.drop_first().len() implies is_up_key(
            keys.drop_first()[k],
        ) by {
            assert(keys.drop_first()[k] == keys[k + 1]);
        }
        lemma_up_from_first_stays(keys.drop_first(), n);
    }
}

/// Moving down any number of times from the last record keeps the selection
/// at the last record: the step saturates at `n - 1`, it never wraps.
pub proof fn lemma_down_from_last_stays(keys: Seq<Key>, n: int)
    requires
        n >= 1,
        forall|k: int| 0 <= k < keys.len() ==> is_down_key(keys[k]),
    ensures
        apply_keys(keys, n - 1, n) == n - 1,
    decreases keys.len(),
{
    if keys.len() > 0 {
        assert(is_down_key(keys[0]));
        assert forall|k: int| 0 <= k < keys.drop_first().len() implies is_down_key(
            keys.drop_first()[k],
        ) by {
            assert(keys.drop_first()[k] == keys[k + 1]);
        }
        lemma_down_from_last_stays(keys.drop_first(), n);
    }
}

/// The control sequence that moves the cursor to the redraw anchor: one row
/// below the captured origin, in the origin's column.
pub open spec fn goto_spec(x: u16, y: u16) -> Seq<char> {
    (((("\u{1b}["@ + dec_nat((y + 1) as nat)) + ";"@) + dec_nat(x as nat)) + "H"@)
}

/// One menu line: clear the row, the selection marker (styled when
/// selected), the truncated record text, then a style reset and the line
/// break.
pub open spec fn menu_item_spec(s: Sequence, selected: bool, width: int) -> Seq<char> {
    (("\u{1b}[2K"@ + (if selected {
        "> \u{1b}[1m\u{1b}[38;5;2m"@
    } else {
        "  "@
    })) + truncate_spec(crate::display_spec(s), width - 5)) + "\u{1b}[m\r\n"@
}

/// The first `n` menu lines, in record order.
pub open spec fn menu_items_spec(seqs: Seq<Sequence>, sel: int, width: int, n: int) -> Seq<char>
    decreases n,
{
    if n <= 0 {
        Seq::empty()
    } else {
        menu_items_spec(seqs, sel, width, n - 1) + menu_item_spec(seqs[n - 1], n - 1 == sel, width)
    }
}

/// The detail pane of one record: its identifier line, its wrapped
/// description, and the first `N_TERMS` of its values, comma-joined with a
/// trailing ellipsis.
pub open spec fn info_spec(s: Sequence, width: int) -> Seq<char> {
    let a1 = "\u{1b}[1;36mSequence: \u{1b}[0m"@ + oeis_id_spec(s.id as nat);
    let a2 = a1 + "\r\n"@;
    let wl = wrapped_lines(s.name@, width, "\u{1b}[1;36mDescription: \u{1b}[0m"@);
    let a3 = a2 + joined_with(wl, "\r\n"@, wl.len() as int);
    let a4 = a3 + "\r\n"@;
    let a5 = a4 + "\u{1b}[1;36mSequence:\u{1b}[0m "@;
    let nvals = if s.values@.len() < N_TERMS {
        s.values@.len() as int
    } else {
        N_TERMS as int
    };
    let a6 = a5 + joined_ints(s.values@, ", "@, nvals);
    a6 + "...\r\n"@
}

/// One full redraw: move to the anchor, every menu line, a clear of
/// everything below, then the detail pane of the selected record.
pub open spec fn render_spec(c: Cli) -> Seq<char> {
    ((goto_spec(c.origin.0, c.origin.1) + menu_items_spec(
        c.sequences@,
        c.selected_index as int,
        c.width as int,
        c.sequences@.len() as int,
    )) + "\u{1b}[J\n"@) + info_spec(c.sequences@[c.selected_index as int], c.width as int)
}

impl Cli {
    /// One menu line of the list, as the bytes to write.
    pub fn render_menu_item(&self, seq: &Sequence, selected: bool) -> (r: String)
        requires
            self.width >= 5,
        ensures
            r@ == menu_item_spec(*seq, selected, self.width as int),
    {
        let mut r = String::from_str("\u{1b}[2K");
        if selected {
            r.append("> \u{1b}[1m\u{1b}[38;5;2m");
        } else {
            r.append("  ");
        }
        let disp = seq.display_string();
        let trunc = crate::layout::truncate_with_ellipsis(disp.as_str(), self.width - 5);
        r.append(trunc.as_str());
        r.append("\u{1b}[m\r\n");
        r
    }

    /// The detail pane for the selected record, as the bytes to write.
    pub fn render_full_sequence_info(&self) -> (r: String)
        requires
            self.wf(),
        ensures
            r@ == info_spec(self.sequences@[self.selected_index as int], self.width as int),
    {
        let seq = self.selected_sequence();
        let mut r = String::from_str("\u{1b}[1;36mSequence: \u{1b}[0m");
        let id = seq.oeis_id();
        r.append(id.as_str());
        r.append("\r\n");
        let lines = crate::layout::wrap_with_label(
            "\u{1b}[1;36mDescription: \u{1b}[0m",
            seq.name.as_str(),
            self.width,
        );
        let joined = crate::layout::join_strings(&lines, "\r\n");
        r.append(joined.as_str());
        r.append("\r\n");
        r.append("\u{1b}[1;36mSequence:\u{1b}[0m ");
        let nvals = if seq.values.len() < N_TERMS {
            seq.values.len()
        } else {
            N_TERMS
        };
        let terms = crate::layout::join_ints(&seq.values, ", ", nvals);
        r.append(terms.as_str());
        r.append("...\r\n");
        r
    }

    /// One full redraw of the list and detail pane, as the exact bytes to
    /// write to the terminal.
    pub fn render_cli(&self) -> (out: String)
        requires
            self.wf(),
        ensures
            out@ == render_spec(*self),
    {
        let mut out = String::from_str("\u{1b}[");
        let row = crate::layout::u64_to_string(self.origin.1 as u64 + 1);
        out.append(row.as_str());
        out.append(";");
        let col = crate::layout::u64_to_string(self.origin.0 as u64);
        out.append(col.as_str());
        out.append("H");
        let ghost goto = goto_spec(self.origin.0, self.origin.1);
        proof {
            assert(out@ == goto);
            assert(goto + menu_items_spec(
                self.sequences@,
                self.selected_index as int,
                self.width as int,
                0,
            ) =~= goto);
        }
        let mut i: usize = 0;
        while i < self.sequences.len()
            invariant
                self.wf(),
                i <= self.sequences@.len(),
                goto == goto_spec(self.origin.0, self.origin.1),
                out@ == goto + menu_items_spec(
                    self.sequences@,
                    self.selected_index as int,
                    self.width as int,
                    i as int,
                ),
            decreases self.sequences@.len() - i,
        {
            let selected = i == self.selected_index;
            let line = self.render_menu_item(&self.sequences[i], selected);
            out.append(line.as_str());
            proof {
                assert((goto + menu_items_spec(
                    self.sequences@,
                    self.selected_index as int,
                    self.width as int,
                    i as int,
                )) + menu_item_spec(
                    self.sequences@[i as int],
                    i == self.selected_index,
                    self.width as int,
                ) =~= goto + menu_items_spec(
                    self.sequences@,
                    self.selected_index as int,
                    self.width as int,
                    i + 1,
                ));
            }
            i = i + 1;
        }
        out.append("\u{1b}[J\n");
        let info = self.render_full_sequence_info();
        out.append(info.as_str());
        proof {
            assert(out@ =~= render_spec(*self));
        }
        out
    }
}

/// A redraw is a function of the snapshot alone: two states with the same
/// records, selection, origin and width render to byte-identical output, so
/// rendering the same state twice writes the same bytes twice.
pub proof fn lemma_render_idempotent(a: Cli, b: Cli)
    requires
        a.sequences@ == b.sequences@,
        a.selected_index == b.selected_index,
        a.origin == b.origin,
        a.width == b.width,
    ensures
        render_spec(a) == render_spec(b),
{
}

} // verus!
