use vstd::prelude::*;

use crate::clock::{read_clock, scale, scaled, ClockError, Elapsed};
use crate::paint::{
    escape, shown_as, green, green_code, lemma_painted_contains, painted, red_bold, red_bold_code, yellow,
    yellow_code,
};
use crate::settings::{flag_tokens, Action, Settings, TimeUnit, Verbosity};
use crate::text::{contains, decimal, lemma_contains_at, lemma_decimal_digits, push_decimal, push_text};

verus! {

/// The version of this program.
pub const VERSION: &'static str = "0.1.0";

/// The name under which the program introduces itself, with the space that
/// parts it from the version.
pub const PROGRAM_PREFIX: &'static str = "epoch-get ";

/// The words that follow the value in a verbose time line.
pub open spec fn suffix(u: TimeUnit) -> Seq<char> {
    match u {
        TimeUnit::Seconds => " seconds"@,
        TimeUnit::Milliseconds => " milliseconds"@,
        TimeUnit::Microseconds => " microseconds"@,
        TimeUnit::Nanoseconds => " nanoseconds"@,
    }
}

/// The words before the value in a verbose time line.
pub open spec fn verbose_lead() -> Seq<char> {
    "The Unix Epoch, 1970-01-01 00:00:00 UTC was "@
}

/// The words after the suffix in a verbose time line, with its line break.
pub open spec fn verbose_tail() -> Seq<char> {
    " ago!\n"@
}

/// The line printed for a time value: the bare number when quiet, the
/// sentence when verbose.
pub open spec fn time_line(v: Verbosity, u: TimeUnit, value: nat) -> Seq<char> {
    match v {
        Verbosity::Quiet => decimal(value) + seq!['\n'],
        Verbosity::Verbose => verbose_lead() + decimal(value) + suffix(u) + verbose_tail(),
    }
}

/// The version line: the bare version when quiet; when verbose, the program
/// name before it, bare or painted green.
pub open spec fn version_line(v: Verbosity, r: Seq<char>) -> bool {
    match v {
        Verbosity::Quiet => r == VERSION@ + seq!['\n'],
        Verbosity::Verbose => r == PROGRAM_PREFIX@ + VERSION@ + seq!['\n']
            || r == painted(PROGRAM_PREFIX@, green_code()) + VERSION@ + seq!['\n'],
    }
}

/// The quiet time line is the value's digits, without a leading zero, and
/// one line break: nothing else.
pub proof fn law_quiet_line_is_bare_number(u: TimeUnit, n: nat)
    ensures
        time_line(Verbosity::Quiet, u, n) == decimal(n) + seq!['\n'],
        time_line(Verbosity::Quiet, u, n).last() == '\n',
        forall|i: int| 0 <= i < time_line(Verbosity::Quiet, u, n).len() - 1
            ==> '0' <= #[trigger] time_line(Verbosity::Quiet, u, n)[i] <= '9',
        time_line(Verbosity::Quiet, u, n)[0] == '0' ==> n == 0,
{
    lemma_decimal_digits(n);
    let t = time_line(Verbosity::Quiet, u, n);
    assert forall|i: int| 0 <= i < t.len() - 1 implies '0' <= #[trigger] t[i] <= '9' by {
        assert(t[i] == decimal(n)[i]);
    }
}

fn suffix_text(u: TimeUnit) -> (r: &'static str)
    ensures
        r@ == suffix(u),
{
    match u {
        TimeUnit::Seconds => " seconds",
        TimeUnit::Milliseconds => " milliseconds",
        TimeUnit::Microseconds => " microseconds",
        TimeUnit::Nanoseconds => " nanoseconds",
    }
}

/// The line printed for a clock reading, in the unit and phrasing given.
pub fn render_time(v: Verbosity, u: TimeUnit, e: &Elapsed) -> (r: String)
    ensures
        r@ == time_line(v, u, scaled(*e, u)),
{
    let value = scale(e, u);
    let mut out = String::new();
    match v {
        Verbosity::Quiet => {
            push_decimal(&mut out, value);
            out.append("\n");
            proof {
                reveal_strlit("\n");
            }
        },
        Verbosity::Verbose => {
            out.append("The Unix Epoch, 1970-01-01 00:00:00 UTC was ");
            push_decimal(&mut out, value);
            out.append(suffix_text(u));
            out.append(" ago!\n");
        },
    }
    assert(out@ =~= time_line(v, u, scaled(*e, u)));
    out
}

/// Reads the clock and renders the time line; fails only when the clock
/// stands before the Unix epoch.
pub fn time_report(v: Verbosity, u: TimeUnit) -> (r: Result<String, ClockError>)
    ensures
        r is Ok ==> exists|e: Elapsed| e.wf() && r->Ok_0@ == time_line(v, u, scaled(e, u)),
        r is Err ==> r->Err_0 == ClockError::BeforeEpoch,
{
    match read_clock() {
        Ok(e) => Ok(render_time(v, u, &e)),
        Err(err) => Err(err),
    }
}

/// The version line in the phrasing given.
pub fn version_text(v: Verbosity) -> (r: String)
    ensures
        version_line(v, r@),
{
    proof {
        reveal_strlit("\n");
        reveal_strlit("epoch-get ");
        assert(PROGRAM_PREFIX@ == "epoch-get "@);
        assert(!PROGRAM_PREFIX@.contains(escape()));
    }
    let mut out = match v {
        Verbosity::Quiet => String::new(),
        Verbosity::Verbose => green(PROGRAM_PREFIX),
    };
    out.append(VERSION);
    out.append("\n");
    assert(out@ =~= VERSION@ + seq!['\n'] || out@ =~= PROGRAM_PREFIX@ + VERSION@ + seq!['\n']
        || out@ =~= painted(PROGRAM_PREFIX@, green_code()) + VERSION@ + seq!['\n']);
    out
}

impl ClockError {
    /// The message that reports the error, its label bare or painted bold
    /// red.
    pub fn message(&self) -> (r: String)
        ensures
            r@ == "Error:"@ + " Unable to get system time!"@
                || r@ == painted("Error:"@, red_bold_code()) + " Unable to get system time!"@,
    {
        proof {
            reveal_strlit("Error:");
        }
        let mut out = red_bold("Error:");
        out.append(" Unable to get system time!");
        out
    }
}

/// The text names every flag that the resolver acts on.
pub open spec fn documents_flags(r: Seq<char>) -> bool {
    forall|i: int| 0 <= i < flag_tokens().len() ==> contains(r, #[trigger] flag_tokens()[i])
}

/// The groups of flags that the help lists, in order.
pub open spec fn option_flags() -> Seq<Seq<char>> {
    seq![
        "-h, --help"@,
        "-V, --version"@,
        "-v, --verbose"@,
        "-s, --seconds"@,
        "-m, -ms, --milliseconds"@,
        "-u, -us, --microseconds"@,
        "-n, -ns, --nanoseconds"@,
    ]
}

/// What follows each group's flags: the mark of the default unit where it
/// applies, the description, and a blank line before the next entry.
pub open spec fn option_notes() -> Seq<Seq<char>> {
    seq![
        "\n            Print this help menu.\n\n"@,
        "\n            Print the program version.\n\n"@,
        "\n            Be verbose when printing the time.\n            Can be combined with any of the following arguments:\n\n"@,
        " - default\n            Print the value in seconds.\n\n"@,
        "\n            Print the value in milliseconds.\n\n"@,
        "\n            Print the value in microseconds.\n\n"@,
        "\n            Print the value in nanoseconds.\n"@,
    ]
}

/// One entry of the options section: the shown flags, indented, and their
/// note.
pub open spec fn option_entry(shown: Seq<char>, note: Seq<char>) -> Seq<char> {
    "    "@ + shown + note
}

/// The line that shows how the program is invoked, and the blank line after
/// it.
pub open spec fn usage_line() -> Seq<char> {
    "    epoch-get [OPTIONS]\n\n"@
}

/// The help text built from its shown pieces: the version line, a blank
/// line, the usage section, then the options section with one entry per
/// group of flags.
pub open spec fn help_layout(
    version: Seq<char>,
    usage: Seq<char>,
    options: Seq<char>,
    shown: Seq<Seq<char>>,
) -> Seq<char> {
    version + seq!['\n'] + usage + seq!['\n'] + usage_line() + options + seq!['\n']
        + option_entry(shown[0], option_notes()[0])
        + option_entry(shown[1], option_notes()[1])
        + option_entry(shown[2], option_notes()[2])
        + option_entry(shown[3], option_notes()[3])
        + option_entry(shown[4], option_notes()[4])
        + option_entry(shown[5], option_notes()[5])
        + option_entry(shown[6], option_notes()[6])
}

/// The usage document: laid out as `help_layout`, opening with the verbose
/// version line, its headings bare or painted yellow and each group of flags
/// bare or painted green.
pub open spec fn help_doc(r: Seq<char>) -> bool {
    exists|version: Seq<char>, usage: Seq<char>, options: Seq<char>, shown: Seq<Seq<char>>|
        {
            &&& version_line(Verbosity::Verbose, version)
            &&& shown_as(usage, "USAGE:"@, yellow_code())
            &&& shown_as(options, "OPTIONS:"@, yellow_code())
            &&& shown.len() == 7
            &&& forall|i: int|
                0 <= i < 7 ==> shown_as(#[trigger] shown[i], option_flags()[i], green_code())
            &&& r == help_layout(version, usage, options, shown)
        }
}

/// Appends an option entry: the flags indented and painted green, then
/// `rest`. The result holds the flags as shown.
fn push_option(out: &mut String, flags: &str, rest: &str) -> (shown: Ghost<Seq<char>>)
    requires
        !flags@.contains(escape()),
    ensures
        final(out)@ == old(out)@ + option_entry(shown@, rest@),
        shown_as(shown@, flags@, green_code()),
        forall|t: Seq<char>| #[trigger] contains(old(out)@, t) ==> contains(final(out)@, t),
        forall|t: Seq<char>| #[trigger] contains(flags@, t) ==> contains(final(out)@, t),
{
    let ghost start = out@;
    push_text(out, "    ");
    let g = green(flags);
    proof {
        assert forall|t: Seq<char>| #[trigger] contains(flags@, t) implies contains(g@, t) by {
            lemma_painted_contains(g@, flags@, green_code(), t);
        }
    }
    push_text(out, g.as_str());
    push_text(out, rest);
    assert(out@ =~= start + option_entry(g@, rest@));
    Ghost(g@)
}

/// Appends a section heading painted yellow, then a line break. The result
/// holds the heading as shown.
fn push_heading(out: &mut String, heading: &str) -> (shown: Ghost<Seq<char>>)
    requires
        !heading@.contains(escape()),
    ensures
        final(out)@ == old(out)@ + shown@ + seq!['\n'],
        shown_as(shown@, heading@, yellow_code()),
        forall|t: Seq<char>| #[trigger] contains(old(out)@, t) ==> contains(final(out)@, t),
        contains(final(out)@, heading@),
{
    let y = yellow(heading);
    proof {
        lemma_contains_at(heading@, heading@, 0);
        lemma_painted_contains(y@, heading@, yellow_code(), heading@);
        reveal_strlit("\n");
    }
    push_text(out, y.as_str());
    push_text(out, "\n");
    Ghost(y@)
}

proof fn lemma_option_flags()
    ensures
        !"USAGE:"@.contains(escape()),
        !"OPTIONS:"@.contains(escape()),
        !"-h, --help"@.contains(escape()),
        !"-V, --version"@.contains(escape()),
        !"-v, --verbose"@.contains(escape()),
        !"-s, --seconds"@.contains(escape()),
        !"-m, -ms, --milliseconds"@.contains(escape()),
        !"-u, -us, --microseconds"@.contains(escape()),
        !"-n, -ns, --nanoseconds"@.contains(escape()),
        contains("-h, --help"@, "-h"@),
        contains("-h, --help"@, "--help"@),
        contains("-V, --version"@, "-V"@),
        contains("-V, --version"@, "--version"@),
        contains("-v, --verbose"@, "-v"@),
        contains("-v, --verbose"@, "--verbose"@),
        contains("-s, --seconds"@, "-s"@),
        contains("-s, --seconds"@, "--seconds"@),
        contains("-m, -ms, --milliseconds"@, "-m"@),
        contains("-m, -ms, --milliseconds"@, "-ms"@),
        contains("-m, -ms, --milliseconds"@, "--milliseconds"@),
        contains("-u, -us, --microseconds"@, "-u"@),
        contains("-u, -us, --microseconds"@, "-us"@),
        contains("-u, -us, --microseconds"@, "--microseconds"@),
        contains("-n, -ns, --nanoseconds"@, "-n"@),
        contains("-n, -ns, --nanoseconds"@, "-ns"@),
        contains("-n, -ns, --nanoseconds"@, "--nanoseconds"@),
{
    reveal_strlit("USAGE:");
    reveal_strlit("OPTIONS:");
    reveal_strlit("-h, --help");
    reveal_strlit("-V, --version");
    reveal_strlit("-v, --verbose");
    reveal_strlit("-s, --seconds");
    reveal_strlit("-m, -ms, --milliseconds");
    reveal_strlit("-u, -us, --microseconds");
    reveal_strlit("-n, -ns, --nanoseconds");
    reveal_strlit("-h");
    reveal_strlit("--help");
    reveal_strlit("-V");
    reveal_strlit("--version");
    reveal_strlit("-v");
    reveal_strlit("--verbose");
    reveal_strlit("-s");
    reveal_strlit("--seconds");
    reveal_strlit("-m");
    reveal_strlit("-ms");
    reveal_strlit("--milliseconds");
    reveal_strlit("-u");
    reveal_strlit("-us");
    reveal_strlit("--microseconds");
    reveal_strlit("-n");
    reveal_strlit("-ns");
    reveal_strlit("--nanoseconds");
    lemma_contains_at("-h, --help"@, "-h"@, 0);
    lemma_contains_at("-h, --help"@, "--help"@, 4);
    lemma_contains_at("-V, --version"@, "-V"@, 0);
    lemma_contains_at("-V, --version"@, "--version"@, 4);
    lemma_contains_at("-v, --verbose"@, "-v"@, 0);
    lemma_contains_at("-v, --verbose"@, "--verbose"@, 4);
    lemma_contains_at("-s, --seconds"@, "-s"@, 0);
    lemma_contains_at("-s, --seconds"@, "--seconds"@, 4);
    lemma_contains_at("-m, -ms, --milliseconds"@, "-m"@, 0);
    lemma_contains_at("-m, -ms, --milliseconds"@, "-ms"@, 4);
    lemma_contains_at("-m, -ms, --milliseconds"@, "--milliseconds"@, 9);
    lemma_contains_at("-u, -us, --microseconds"@, "-u"@, 0);
    lemma_contains_at("-u, -us, --microseconds"@, "-us"@, 4);
    lemma_contains_at("-u, -us, --microseconds"@, "--microseconds"@, 9);
    lemma_contains_at("-n, -ns, --nanoseconds"@, "-n"@, 0);
    lemma_contains_at("-n, -ns, --nanoseconds"@, "-ns"@, 4);
    lemma_contains_at("-n, -ns, --nanoseconds"@, "--nanoseconds"@, 9);
}

/// The usage document: the verbose version line, the invocation form and
/// one entry for each group of flags.
pub fn help_text() -> (r: String)
    ensures
        help_doc(r@),
        documents_flags(r@),
{
    proof {
        lemma_option_flags();
        reveal_strlit("\n");
    }
    let mut out = version_text(Verbosity::Verbose);
    let ghost version = out@;
    push_text(&mut out, "\n");
    let usage = push_heading(&mut out, "USAGE:");
    push_text(&mut out, "    epoch-get [OPTIONS]\n\n");
    let options = push_heading(&mut out, "OPTIONS:");
    let g0 = push_option(&mut out, "-h, --help", "\n            Print this help menu.\n\n");
    let g1 = push_option(&mut out, "-V, --version", "\n            Print the program version.\n\n");
    let g2 = push_option(
        &mut out,
        "-v, --verbose",
        "\n            Be verbose when printing the time.\n            Can be combined with any of the following arguments:\n\n",
    );
    let g3 = push_option(&mut out, "-s, --seconds", " - default\n            Print the value in seconds.\n\n");
    let g4 = push_option(
        &mut out,
        "-m, -ms, --milliseconds",
        "\n            Print the value in milliseconds.\n\n",
    );
    let g5 = push_option(
        &mut out,
        "-u, -us, --microseconds",
        "\n            Print the value in microseconds.\n\n",
    );
    let g6 = push_option(&mut out, "-n, -ns, --nanoseconds", "\n            Print the value in nanoseconds.\n");
    proof {
        let f = flag_tokens();
        assert(f[0] == "-h"@ && f[1] == "--help"@ && f[2] == "-V"@ && f[3] == "--version"@);
        assert(f[4] == "-v"@ && f[5] == "--verbose"@ && f[6] == "-s"@ && f[7] == "--seconds"@);
        assert(f[8] == "-m"@ && f[9] == "-ms"@ && f[10] == "--milliseconds"@);
        assert(f[11] == "-u"@ && f[12] == "-us"@ && f[13] == "--microseconds"@);
        assert(f[14] == "-n"@ && f[15] == "-ns"@ && f[16] == "--nanoseconds"@);
        assert(f.len() == 17);
        let shown = seq![g0@, g1@, g2@, g3@, g4@, g5@, g6@];
        let flags = option_flags();
        let notes = option_notes();
        assert(flags[0] == "-h, --help"@ && flags[1] == "-V, --version"@ && flags[2] == "-v, --verbose"@);
        assert(flags[3] == "-s, --seconds"@ && flags[4] == "-m, -ms, --milliseconds"@);
        assert(flags[5] == "-u, -us, --microseconds"@ && flags[6] == "-n, -ns, --nanoseconds"@);
        assert(notes[0] == "\n            Print this help menu.\n\n"@);
        assert(notes[1] == "\n            Print the program version.\n\n"@);
        assert(notes[2] == "\n            Be verbose when printing the time.\n            Can be combined with any of the following arguments:\n\n"@);
        assert(notes[3] == " - default\n            Print the value in seconds.\n\n"@);
        assert(notes[4] == "\n            Print the value in milliseconds.\n\n"@);
        assert(notes[5] == "\n            Print the value in microseconds.\n\n"@);
        assert(notes[6] == "\n            Print the value in nanoseconds.\n"@);
        assert(shown[0] == g0@ && shown[1] == g1@ && shown[2] == g2@ && shown[3] == g3@);
        assert(shown[4] == g4@ && shown[5] == g5@ && shown[6] == g6@);
        assert(out@ =~= help_layout(version, usage@, options@, shown));
        assert(forall|i: int|
            0 <= i < 7 ==> shown_as(#[trigger] shown[i], option_flags()[i], green_code()));
    }
    out
}

/// What a run with the settings given prints on standard output. Only
/// printing the time can fail, and only when the clock stands before the
/// Unix epoch.
pub fn run(s: Settings) -> (r: Result<String, ClockError>)
    ensures
        s.action == Action::Help ==> r is Ok && help_doc(r->Ok_0@) && documents_flags(r->Ok_0@),
        s.action == Action::Version ==> r is Ok && version_line(s.verbosity, r->Ok_0@),
        s.action == Action::Print && r is Ok ==> exists|e: Elapsed|
            e.wf() && r->Ok_0@ == time_line(s.verbosity, s.unit, scaled(e, s.unit)),
        r is Err ==> s.action == Action::Print && r->Err_0 == ClockError::BeforeEpoch,
{
    match s.action {
        Action::Help => Ok(help_text()),
        Action::Print => time_report(s.verbosity, s.unit),
        Action::Version => Ok(version_text(s.verbosity)),
    }
}

} // verus!
