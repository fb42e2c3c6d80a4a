use vstd::prelude::*;
use colored::Colorize;

use crate::text::contains;

verus! {

/// The escape character that opens a terminal control sequence.
pub open spec fn escape() -> char {
    '\x1b'
}

/// `s` between the control sequence for `code` and the one that resets all
/// attributes.
pub open spec fn painted(s: Seq<char>, code: Seq<char>) -> Seq<char> {
    seq![escape(), '['] + code + seq!['m'] + s + seq![escape(), '[', '0', 'm']
}

/// `r` shows the escape-free text `s` either bare, when colouring is
/// switched off, or painted with `code`.
pub open spec fn shown_as(r: Seq<char>, s: Seq<char>, code: Seq<char>) -> bool {
    !s.contains(escape()) ==> (r == s || r == painted(s, code))
}

/// The attribute code of green text.
pub open spec fn green_code() -> Seq<char> {
    seq!['3', '2']
}

/// The attribute code of yellow text.
pub open spec fn yellow_code() -> Seq<char> {
    seq!['3', '3']
}

/// The attribute code of bold red text.
pub open spec fn red_bold_code() -> Seq<char> {
    seq!['1', ';', '3', '1']
}

/// Relies on colored's `Colorize::green` and the `Display` of its
/// `ColoredString`: the text bare when colouring is off, else wrapped in the
/// sequences for green and for reset.
#[verifier::external_body]
pub(crate) fn green(s: &str) -> (r: String)
    ensures
        shown_as(r@, s@, green_code()),
{
    s.green().to_string()
}

/// Relies on colored's `Colorize::yellow` and the `Display` of its
/// `ColoredString`: the text bare when colouring is off, else wrapped in the
/// sequences for yellow and for reset.
#[verifier::external_body]
pub(crate) fn yellow(s: &str) -> (r: String)
    ensures
        shown_as(r@, s@, yellow_code()),
{
    s.yellow().to_string()
}

/// Relies on colored's `Colorize::red`, `Colorize::bold` and the `Display`
/// of its `ColoredString`: the text bare when colouring is off, else wrapped
/// in the sequences for bold red and for reset.
#[verifier::external_body]
pub(crate) fn red_bold(s: &str) -> (r: String)
    ensures
        shown_as(r@, s@, red_bold_code()),
{
    s.red().bold().to_string()
}

/// Painting keeps every run of characters that the text held.
pub proof fn lemma_painted_contains(r: Seq<char>, s: Seq<char>, code: Seq<char>, t: Seq<char>)
    requires
        shown_as(r, s, code),
        !s.contains(escape()),
        contains(s, t),
    ensures
        contains(r, t),
{
    if r != s {
        let i = choose|i: int| 0 <= i && i + t.len() <= s.len()
            && #[trigger] s.subrange(i, i + t.len()) == t;
        let off = 2 + code.len() + 1;
        let pre = seq![escape(), '['] + code + seq!['m'];
        assert(pre.len() == off);
        assert(r == pre + s + seq![escape(), '[', '0', 'm']);
        assert(r.subrange(off + i, off + i + t.len()) =~= s.subrange(i, i + t.len()));
    }
}

} // verus!
