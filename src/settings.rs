use vstd::prelude::*;

use crate::text::same_text;

verus! {

/// How the output is phrased.
#[derive(PartialEq, Eq, Structural, Clone, Copy, Debug)]
pub enum Verbosity {
    Verbose,
    Quiet,
}

/// The unit in which elapsed time is printed.
#[derive(PartialEq, Eq, Structural, Clone, Copy, Debug)]
pub enum TimeUnit {
    Seconds,
    Milliseconds,
    Microseconds,
    Nanoseconds,
}

/// What the program does once the command line is read.
#[derive(PartialEq, Eq, Structural, Clone, Copy, Debug)]
pub enum Action {
    Help,
    Print,
    Version,
}

/// What one command-line token asks for.
#[derive(PartialEq, Eq, Structural, Clone, Copy, Debug)]
pub enum Flag {
    Verbose,
    Unit(TimeUnit),
    Act(Action),
    Unknown,
}

/// The three settings of one run.
#[derive(PartialEq, Eq, Structural, Clone, Copy, Debug)]
pub struct Settings {
    pub verbosity: Verbosity,
    pub unit: TimeUnit,
    pub action: Action,
}

/// Quiet, in seconds, printing the time.
pub open spec fn default_settings() -> Settings {
    Settings { verbosity: Verbosity::Quiet, unit: TimeUnit::Seconds, action: Action::Print }
}

/// The meaning of a token; matching is exact and case-sensitive.
pub open spec fn flag_of(t: Seq<char>) -> Flag {
    if t == "-v"@ || t == "--verbose"@ {
        Flag::Verbose
    } else if t == "-s"@ || t == "--seconds"@ {
        Flag::Unit(TimeUnit::Seconds)
    } else if t == "-m"@ || t == "-ms"@ || t == "--milliseconds"@ {
        Flag::Unit(TimeUnit::Milliseconds)
    } else if t == "-u"@ || t == "-us"@ || t == "--microseconds"@ {
        Flag::Unit(TimeUnit::Microseconds)
    } else if t == "-n"@ || t == "-ns"@ || t == "--nanoseconds"@ {
        Flag::Unit(TimeUnit::Nanoseconds)
    } else if t == "-h"@ || t == "--help"@ {
        Flag::Act(Action::Help)
    } else if t == "-V"@ || t == "--version"@ {
        Flag::Act(Action::Version)
    } else {
        Flag::Unknown
    }
}

/// Every token that the resolver acts on, in the order the help lists them.
pub open spec fn flag_tokens() -> Seq<Seq<char>> {
    seq![
        "-h"@, "--help"@, "-V"@, "--version"@, "-v"@, "--verbose"@, "-s"@, "--seconds"@,
        "-m"@, "-ms"@, "--milliseconds"@, "-u"@, "-us"@, "--microseconds"@,
        "-n"@, "-ns"@, "--nanoseconds"@,
    ]
}

/// The settings after one flag: it overrides its own category only.
pub open spec fn apply(s: Settings, f: Flag) -> Settings {
    match f {
        Flag::Verbose => Settings { verbosity: Verbosity::Verbose, unit: s.unit, action: s.action },
        Flag::Unit(u) => Settings { verbosity: s.verbosity, unit: u, action: s.action },
        Flag::Act(a) => Settings { verbosity: s.verbosity, unit: s.unit, action: a },
        Flag::Unknown => s,
    }
}

/// The settings after the tokens, read left to right from `start`.
pub open spec fn fold_tokens(start: Settings, tokens: Seq<Seq<char>>) -> Settings
    decreases tokens.len(),
{
    if tokens.len() == 0 {
        start
    } else {
        apply(fold_tokens(start, tokens.drop_last()), flag_of(tokens.last()))
    }
}

/// The settings of a run whose argument list is `args`; the first argument
/// names the program and is not matched.
pub open spec fn resolved(args: Seq<Seq<char>>) -> Settings {
    if args.len() <= 1 {
        default_settings()
    } else {
        fold_tokens(default_settings(), args.drop_first())
    }
}

/// The characters of each argument.
pub open spec fn arg_views(args: Seq<String>) -> Seq<Seq<char>> {
    args.map_values(|a: String| a@)
}

/// The meaning of one command-line token.
pub fn classify(t: &str) -> (f: Flag)
    ensures
        f == flag_of(t@),
{
    if same_text(t, "-v") || same_text(t, "--verbose") {
        Flag::Verbose
    } else if same_text(t, "-s") || same_text(t, "--seconds") {
        Flag::Unit(TimeUnit::Seconds)
    } else if same_text(t, "-m") || same_text(t, "-ms") || same_text(t, "--milliseconds") {
        Flag::Unit(TimeUnit::Milliseconds)
    } else if same_text(t, "-u") || same_text(t, "-us") || same_text(t, "--microseconds") {
        Flag::Unit(TimeUnit::Microseconds)
    } else if same_text(t, "-n") || same_text(t, "-ns") || same_text(t, "--nanoseconds") {
        Flag::Unit(TimeUnit::Nanoseconds)
    } else if same_text(t, "-h") || same_text(t, "--help") {
        Flag::Act(Action::Help)
    } else if same_text(t, "-V") || same_text(t, "--version") {
        Flag::Act(Action::Version)
    } else {
        Flag::Unknown
    }
}

impl Settings {
    /// Quiet, in seconds, printing the time.
    pub fn defaults() -> (r: Settings)
        ensures
            r == default_settings(),
    {
        Settings { verbosity: Verbosity::Quiet, unit: TimeUnit::Seconds, action: Action::Print }
    }

    /// Takes one flag into account; a later flag of a category overrides an
    /// earlier one, and an unknown token changes nothing.
    pub fn apply_flag(&mut self, f: Flag)
        ensures
            *final(self) == apply(*old(self), f),
    {
        match f {
            Flag::Verbose => self.verbosity = Verbosity::Verbose,
            Flag::Unit(u) => self.unit = u,
            Flag::Act(a) => self.action = a,
            Flag::Unknown => {},
        }
    }
}

/// Resolves the settings of a run from its whole argument list, program
/// name first.
pub fn resolve(args: &[String]) -> (r: Settings)
    ensures
        r == resolved(arg_views(args@)),
{
    let mut s = Settings::defaults();
    if args.len() <= 1 {
        return s;
    }
    let ghost views = arg_views(args@);
    let mut i: usize = 1;
    while i < args.len()
        invariant
            1 <= i <= args@.len(),
            views == arg_views(args@),
            s == fold_tokens(default_settings(), views.subrange(1, i as int)),
        decreases args@.len() - i,
    {
        let f = classify(args[i].as_str());
        s.apply_flag(f);
        assert(views.subrange(1, i + 1).drop_last() == views.subrange(1, i as int));
        i = i + 1;
    }
    assert(views.subrange(1, args@.len() as int) == views.drop_first());
    s
}


proof fn lemma_fold_concat(s: Settings, x: Seq<Seq<char>>, y: Seq<Seq<char>>)
    ensures
        fold_tokens(s, x + y) == fold_tokens(fold_tokens(s, x), y),
    decreases y.len(),
{
    if y.len() == 0 {
        assert(x + y == x);
    } else {
        assert((x + y).drop_last() == x + y.drop_last());
        assert((x + y).last() == y.last());
        lemma_fold_concat(s, x, y.drop_last());
    }
}

proof fn lemma_action_kept(s: Settings, t: Seq<Seq<char>>)
    requires
        forall|j: int| 0 <= j < t.len() ==> !(flag_of(#[trigger] t[j]) is Act),
    ensures
        fold_tokens(s, t).action == s.action,
    decreases t.len(),
{
    if t.len() > 0 {
        lemma_action_kept(s, t.drop_last());
    }
}

proof fn lemma_last_action(s: Settings, t: Seq<Seq<char>>, i: int)
    requires
        0 <= i < t.len(),
        flag_of(t[i]) is Act,
        forall|j: int| i < j < t.len() ==> !(flag_of(#[trigger] t[j]) is Act),
    ensures
        fold_tokens(s, t).action == flag_of(t[i])->Act_0,
    decreases t.len(),
{
    if i < t.len() - 1 {
        lemma_last_action(s, t.drop_last(), i);
    }
}

proof fn lemma_last_unit(s: Settings, t: Seq<Seq<char>>, i: int)
    requires
        0 <= i < t.len(),
        flag_of(t[i]) is Unit,
        forall|j: int| i < j < t.len() ==> !(flag_of(#[trigger] t[j]) is Unit),
    ensures
        fold_tokens(s, t).unit == flag_of(t[i])->Unit_0,
    decreases t.len(),
{
    if i < t.len() - 1 {
        lemma_last_unit(s, t.drop_last(), i);
    }
}

/// Without an action flag among the arguments after the program name, the
/// run prints the time.
pub proof fn law_print_without_action(args: Seq<Seq<char>>)
    requires
        forall|j: int| 1 <= j < args.len() ==> !(flag_of(#[trigger] args[j]) is Act),
    ensures
        resolved(args).action == Action::Print,
{
    if args.len() > 1 {
        let t = args.drop_first();
        assert forall|j: int| 0 <= j < t.len() implies !(flag_of(#[trigger] t[j]) is Act) by {
            assert(t[j] == args[j + 1]);
        }
        lemma_action_kept(default_settings(), t);
    }
}

/// Of several action flags the last one, read left to right, decides the
/// action.
pub proof fn law_last_action_wins(args: Seq<Seq<char>>, i: int)
    requires
        1 <= i < args.len(),
        flag_of(args[i]) is Act,
        forall|j: int| i < j < args.len() ==> !(flag_of(#[trigger] args[j]) is Act),
    ensures
        resolved(args).action == flag_of(args[i])->Act_0,
{
    let t = args.drop_first();
    assert forall|j: int| i - 1 < j < t.len() implies !(flag_of(#[trigger] t[j]) is Act) by {
        assert(t[j] == args[j + 1]);
    }
    lemma_last_action(default_settings(), t, i - 1);
}

/// Of several unit flags the last one decides the unit, whatever other flags
/// stand between them.
pub proof fn law_last_unit_wins(args: Seq<Seq<char>>, i: int)
    requires
        1 <= i < args.len(),
        flag_of(args[i]) is Unit,
        forall|j: int| i < j < args.len() ==> !(flag_of(#[trigger] args[j]) is Unit),
    ensures
        resolved(args).unit == flag_of(args[i])->Unit_0,
{
    let t = args.drop_first();
    assert forall|j: int| i - 1 < j < t.len() implies !(flag_of(#[trigger] t[j]) is Unit) by {
        assert(t[j] == args[j + 1]);
    }
    lemma_last_unit(default_settings(), t, i - 1);
}

/// A token that is no flag changes nothing, wherever it stands after the
/// program name.
pub proof fn law_unknown_token_ignored(pre: Seq<Seq<char>>, t: Seq<char>, post: Seq<Seq<char>>)
    requires
        pre.len() >= 1,
        flag_of(t) is Unknown,
    ensures
        resolved(pre + seq![t] + post) == resolved(pre + post),
{
    let with = pre + seq![t] + post;
    let without = pre + post;
    let x = pre.drop_first();
    assert(with.drop_first() == x + seq![t] + post);
    assert(without.drop_first() == x + post);
    let d = default_settings();
    lemma_fold_concat(d, x + seq![t], post);
    lemma_fold_concat(d, x, seq![t]);
    assert(seq![t].drop_last() == Seq::<Seq<char>>::empty());
    assert(seq![t].last() == t);
    let e = Seq::<Seq<char>>::empty();
    assert(fold_tokens(fold_tokens(d, x), e) == fold_tokens(d, x));
    assert(fold_tokens(fold_tokens(d, x), seq![t]) == apply(fold_tokens(fold_tokens(d, x), e), flag_of(t)));
    assert(fold_tokens(d, x + seq![t]) == fold_tokens(d, x));
    lemma_fold_concat(d, x, post);
    assert(pre + seq![t] + post == pre + (seq![t] + post));
    if without.len() <= 1 {
        assert(post.len() == 0);
        assert(x.len() == 0);
    }
}

/// Naming the program alone runs as naming it with `-s`: quiet, in seconds,
/// printing the time.
pub proof fn law_no_arguments_as_seconds(program: Seq<char>)
    ensures
        resolved(seq![program]) == resolved(seq![program, "-s"@]),
        resolved(seq![program]) == default_settings(),
{
    reveal_strlit("-s");
    reveal_strlit("-v");
    reveal_strlit("--verbose");
    let args = seq![program, "-s"@];
    let t = args.drop_first();
    assert(t == seq!["-s"@]);
    assert(t.drop_last() == Seq::<Seq<char>>::empty());
    assert("-s"@[1] != "-v"@[1]);
    assert("-s"@.len() != "--verbose"@.len());
    assert(flag_of("-s"@) == Flag::Unit(TimeUnit::Seconds));
    assert(t.last() == "-s"@);
    let d = default_settings();
    assert(fold_tokens(d, t.drop_last()) == d);
    assert(fold_tokens(d, t) == d);
    assert(resolved(args) == fold_tokens(d, t));
}


/// A token is listed among the flags exactly when the resolver acts on it.
pub proof fn law_listed_tokens_are_flags(t: Seq<char>)
    ensures
        flag_tokens().contains(t) <==> !(flag_of(t) is Unknown),
{
    let f = flag_tokens();
    assert(f[0] == "-h"@ && f[1] == "--help"@ && f[2] == "-V"@ && f[3] == "--version"@);
    assert(f[4] == "-v"@ && f[5] == "--verbose"@ && f[6] == "-s"@ && f[7] == "--seconds"@);
    assert(f[8] == "-m"@ && f[9] == "-ms"@ && f[10] == "--milliseconds"@);
    assert(f[11] == "-u"@ && f[12] == "-us"@ && f[13] == "--microseconds"@);
    assert(f[14] == "-n"@ && f[15] == "-ns"@ && f[16] == "--nanoseconds"@);
    assert(f.len() == 17);
    if !(flag_of(t) is Unknown) {
        let i = if t == "-h"@ { 0int } else if t == "--help"@ { 1 } else if t == "-V"@ { 2 }
            else if t == "--version"@ { 3 } else if t == "-v"@ { 4 } else if t == "--verbose"@ { 5 }
            else if t == "-s"@ { 6 } else if t == "--seconds"@ { 7 } else if t == "-m"@ { 8 }
            else if t == "-ms"@ { 9 } else if t == "--milliseconds"@ { 10 } else if t == "-u"@ { 11 }
            else if t == "-us"@ { 12 } else if t == "--microseconds"@ { 13 } else if t == "-n"@ { 14 }
            else if t == "-ns"@ { 15 } else { 16 };
        assert(f[i] == t);
    }
}

} // verus!
