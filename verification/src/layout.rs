//! The layout engine: pure text math for the renderer.
//!
//! Decimal rendering of integers is specified here as recursive spec
//! functions; truncation is implemented and verified against its exact
//! statement; paragraph wrapping is delegated to an outside crate behind a
//! named result.

use vstd::prelude::*;

verus! {

/// The character for one decimal digit value.
pub open spec fn dec_digit(d: nat) -> char {
    ((d + 48) as u8) as char
}

/// The decimal digits of a non-negative integer, most significant first.
pub open spec fn dec_nat(n: nat) -> Seq<char>
    decreases n,
{
    if n < 10 {
        seq![dec_digit(n)]
    } else {
        dec_nat(n / 10).push(dec_digit(n % 10))
    }
}

/// The decimal form of a signed integer: a `-` sign when negative, then the
/// digits of the magnitude.
pub open spec fn dec_int(n: int) -> Seq<char> {
    if n < 0 {
        seq!['-'] + dec_nat((-n) as nat)
    } else {
        dec_nat(n as nat)
    }
}

/// The run of `0` characters that pads a digit string of length `len` out to
/// six digits; empty when no padding is needed.
pub open spec fn pad_zeros(len: int) -> Seq<char> {
    if len >= 6 {
        Seq::empty()
    } else {
        Seq::new((6 - len) as nat, |i: int| '0')
    }
}

/// The display identifier of a record: `A`, left zero-padding to six digits,
/// then the decimal digits of the identifier.
pub open spec fn oeis_id_spec(id: nat) -> Seq<char> {
    ("A"@ + pad_zeros(dec_nat(id).len() as int)) + dec_nat(id)
}

/// Relies on the standard `ToString` implementation for `u64`: the result is
/// the decimal digits of the value, most significant first, no sign and no
/// padding.
#[verifier::external_body]
pub fn u64_to_string(n: u64) -> (r: String)
    ensures
        r@ == dec_nat(n as nat),
{
    n.to_string()
}

/// Builds the display identifier of a record: `A`, left zero-padding to
/// six digits, then the decimal digits of the identifier.
pub fn oeis_id_string(id: u64) -> (r: String)
    ensures
        r@ == oeis_id_spec(id as nat),
{
    let digits = u64_to_string(id);
    let mut r = String::from_str("A");
    let len = digits.as_str().unicode_len();
    let pad: usize = if len >= 6 {
        0
    } else {
        6 - len
    };
    let mut j: usize = 0;
    proof {
        assert(r@ + Seq::new(0nat, |i: int| '0') =~= r@);
    }
    while j < pad
        invariant
            len == dec_nat(id as nat).len(),
            pad == pad_zeros(len as int).len(),
            j <= pad,
            r@ == "A"@ + Seq::new(j as nat, |i: int| '0'),
        decreases pad - j,
    {
        r.append("0");
        proof {
            reveal_strlit("0");
            assert(("A"@ + Seq::new(j as nat, |i: int| '0')) + "0"@ =~= "A"@ + Seq::new(
                (j + 1) as nat,
                |i: int| '0',
            ));
        }
        j = j + 1;
    }
    r.append(digits.as_str());
    proof {
        assert(r@ =~= oeis_id_spec(id as nat));
    }
    r
}

/// Relies on the standard `ToString` implementation for `i64`: the decimal
/// digits of the magnitude, preceded by `-` exactly when the value is
/// negative.
#[verifier::external_body]
pub fn i64_to_string(n: i64) -> (r: String)
    ensures
        r@ == dec_int(n as int),
{
    n.to_string()
}

/// What truncation leaves of a text: the text itself when it fits, else its
/// first `max_width` characters followed by the ellipsis marker. The marker
/// counts as extra width, so the displayed width may exceed `max_width` by
/// its three characters.
pub open spec fn truncate_spec(text: Seq<char>, max_width: int) -> Seq<char> {
    if text.len() <= max_width {
        text
    } else {
        text.subrange(0, max_width) + "..."@
    }
}

/// Truncates a text to at most `max_width` characters, appending `...` when
/// anything was cut off.
pub fn truncate_with_ellipsis(text: &str, max_width: usize) -> (r: String)
    ensures
        r@ == truncate_spec(text@, max_width as int),
{
    let len = text.unicode_len();
    if len <= max_width {
        String::from_str(text)
    } else {
        let prefix = text.substring_char(0, max_width);
        let mut r = String::from_str(prefix);
        r.append("...");
        r
    }
}

/// The lines that wrapping a text to a given width produces, with the first
/// line prefixed by a label that counts toward its width budget. The result
/// depends on the arguments alone.
pub uninterp spec fn wrapped_lines(text: Seq<char>, width: int, label: Seq<char>) -> Seq<Seq<char>>;

/// Relies on `textwrap::wrap` with `Options::initial_indent`: wraps `text`
/// to fit in `total_width` columns, the first line carrying `label` as its
/// indent. The wrapping is a pure function of the three arguments, and it
/// emits at least one line for every input, a too-long label included.
#[verifier::external_body]
pub(crate) fn wrap_with_label(label: &str, text: &str, total_width: usize) -> (r: Vec<String>)
    requires
        total_width >= 1,
    ensures
        r.deep_view() == wrapped_lines(text@, total_width as int, label@),
        r.deep_view().len() >= 1,
{
    let opts = textwrap::Options::new(total_width).initial_indent(label);
    textwrap::wrap(text, opts).into_iter().map(|line| line.into_owned()).collect()
}

/// The concatenation of the first `n` parts with `sep` between neighbours.
pub open spec fn joined_with(parts: Seq<Seq<char>>, sep: Seq<char>, n: int) -> Seq<char>
    decreases n,
{
    if n <= 0 {
        Seq::empty()
    } else if n == 1 {
        parts[0]
    } else {
        (joined_with(parts, sep, n - 1) + sep) + parts[n - 1]
    }
}

/// Joins a list of strings with a separator between neighbours.
pub fn join_strings(items: &Vec<String>, sep: &str) -> (r: String)
    ensures
        r@ == joined_with(items.deep_view(), sep@, items@.len() as int),
{
    let mut r = String::new();
    let mut i: usize = 0;
    while i < items.len()
        invariant
            i <= items@.len(),
            r@ == joined_with(items.deep_view(), sep@, i as int),
        decreases items@.len() - i,
    {
        if i > 0 {
            r.append(sep);
        }
        r.append(items[i].as_str());
        proof {
            assert(items.deep_view()[i as int] == items@[i as int]@);
            if i == 0 {
                assert(Seq::<char>::empty() + items.deep_view()[0] =~= items.deep_view()[0]);
            }
        }
        i = i + 1;
    }
    r
}

/// The concatenation of the decimal forms of the first `n` values with `sep`
/// between neighbours.
pub open spec fn joined_ints(vals: Seq<i64>, sep: Seq<char>, n: int) -> Seq<char>
    decreases n,
{
    if n <= 0 {
        Seq::empty()
    } else if n == 1 {
        dec_int(vals[0] as int)
    } else {
        (joined_ints(vals, sep, n - 1) + sep) + dec_int(vals[n - 1] as int)
    }
}

/// Joins the decimal forms of the first `n` values with a separator.
pub fn join_ints(vals: &Vec<i64>, sep: &str, n: usize) -> (r: String)
    requires
        n <= vals@.len(),
    ensures
        r@ == joined_ints(vals@, sep@, n as int),
{
    let mut r = String::new();
    let mut i: usize = 0;
    while i < n
        invariant
            i <= n <= vals@.len(),
            r@ == joined_ints(vals@, sep@, i as int),
        decreases n - i,
    {
        if i > 0 {
            r.append(sep);
        }
        let d = i64_to_string(vals[i]);
        r.append(d.as_str());
        proof {
            if i == 0 {
                assert(Seq::<char>::empty() + dec_int(vals@[0] as int) =~= dec_int(
                    vals@[0] as int,
                ));
            }
        }
        i = i + 1;
    }
    r
}

} // verus!
