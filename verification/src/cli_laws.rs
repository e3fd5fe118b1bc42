//! Properties of the command-line grammar that hold of every command line.

use vstd::prelude::*;

use crate::analysis::AnalysisArgsView;
use crate::db::DbCommandsView;
use crate::serve::ServeArgsView;
use crate::decode::DecodeArgsView;

use crate::cli::{
    CommandsView,
    apply_switch, count_up, finish, Switch, find_eq, initial_model, is_escape, is_long_token, is_output_format,
    is_short_token, long_arg, long_name, long_value, parse_spec, run, set_value, short_arg,
    short_cluster, step, strip_eq, subcommand_of, enter_level, ArgKind, CliError, CliView, Level, Mode, ParseModel,
    ValueOption,
};

verus! {

/// The output format read so far is one that `--output` accepts.
pub open spec fn output_ok(m: ParseModel) -> bool {
    match m.output {
        Some(o) => is_output_format(o),
        None => true,
    }
}

proof fn lemma_set_value_keeps_output_ok(m: ParseModel, o: ValueOption, v: Seq<char>)
    requires
        output_ok(m),
    ensures
        set_value(m, o, v) matches Ok(m2) ==> output_ok(m2),
{
}

proof fn lemma_short_cluster_keeps_output_ok(m: ParseModel, cs: Seq<char>)
    requires
        output_ok(m),
    ensures
        short_cluster(m, cs) matches Ok(m2) ==> output_ok(m2),
    decreases cs.len(),
{
    if cs.len() > 0 {
        match short_arg(m.level, cs[0]) {
            Some(ArgKind::Switch(s)) => {
                if let Ok(m2) = apply_switch(m, s) {
                    lemma_short_cluster_keeps_output_ok(m2, cs.drop_first());
                }
            },
            Some(ArgKind::Value(o)) => {
                lemma_set_value_keeps_output_ok(m, o, strip_eq(cs.drop_first()));
            },
            None => {},
        }
    }
}

proof fn lemma_step_keeps_output_ok(m: ParseModel, t: Seq<char>)
    requires
        output_ok(m),
    ensures
        step(m, t) matches Ok(m2) ==> output_ok(m2),
{
    lemma_short_cluster_keeps_output_ok(m, t.drop_first());
    if let Some(o) = m.pending {
        lemma_set_value_keeps_output_ok(ParseModel { pending: None, ..m }, o, t);
    }
    match long_arg(m.level, long_name(t)) {
        Some(ArgKind::Value(o)) => {
            if let Some(v) = long_value(t) {
                lemma_set_value_keeps_output_ok(m, o, v);
            }
        },
        _ => {},
    }
}

proof fn lemma_run_output_ok(m: ParseModel, toks: Seq<Seq<char>>)
    requires
        output_ok(m),
    ensures
        run(m, toks) matches Ok(v) ==> is_output_format(v.output),
    decreases toks.len(),
{
    if toks.len() > 0 {
        lemma_step_keeps_output_ok(m, toks[0]);
        if let Ok(m2) = step(m, toks[0]) {
            lemma_run_output_ok(m2, toks.drop_first());
        }
    }
}

/// Every command line that parses selects one of the output formats that
/// `--output` accepts (`human`, `json`, `compact`, `short`): the default is
/// one of them, and any other value is refused.
pub proof fn law_output_is_accepted_format(args: Seq<Seq<char>>)
    ensures
        parse_spec(args) matches Ok(v) ==> is_output_format(v.output),
{
    lemma_run_output_ok(initial_model(), if args.len() == 0 { args } else { args.drop_first() });
}


/// An argument that the grammar reads as a positional value: not `--`, not
/// a long flag and not a short-flag cluster.
pub open spec fn is_plain(t: Seq<char>) -> bool {
    !is_escape(t) && !is_long_token(t) && !is_short_token(t)
}

proof fn lemma_find_eq_absent(s: Seq<char>, i: int)
    requires
        0 <= i,
        forall|j: int| i <= j < s.len() ==> s[j] != '=',
    ensures
        find_eq(s, i) == s.len(),
    decreases s.len() - i,
{
    if i < s.len() {
        lemma_find_eq_absent(s, i + 1);
    }
}

/// The command words never begin with `-`.
proof fn lemma_dash_is_no_word(t: Seq<char>, level: Level)
    requires
        t.len() > 0,
        t[0] == '-',
    ensures
        t != "help"@,
        subcommand_of(level, t) is None,
{
    reveal_strlit("help");
    reveal_strlit("decode");
    reveal_strlit("clean");
    reveal_strlit("db");
    reveal_strlit("serve");
    reveal_strlit("inspect");
    reveal_strlit("trace");
    reveal_strlit("profile");
    reveal_strlit("diff");
    reveal_strlit("replay");
    reveal_strlit("whatif");
    reveal_strlit("export");
    reveal_strlit("update");
    reveal_strlit("stats");
    reveal_strlit("search");
}

/// `--output` reads as the output option awaiting its value, at any level.
proof fn lemma_output_flag(m: ParseModel)
    requires
        m.mode == Mode::Normal,
        !m.trailing,
        m.pending is None,
    ensures
        step(m, "--output"@) == Ok::<ParseModel, CliError>(ParseModel { pending: Some(ValueOption::Output), ..m }),
{
    let t = "--output"@;
    reveal_strlit("--output");
    reveal_strlit("output");
    reveal_strlit("help");
    reveal_strlit("verbose");
    lemma_dash_is_no_word(t, m.level);
    let rem = t.skip(2);
    lemma_find_eq_absent(rem, 0);
    assert(rem.take(rem.len() as int) =~= "output"@);
    assert(long_name(t) == "output"@);
    assert(long_value(t) is None);
}

/// `-v` reads as one more verbosity step, at any level.
proof fn lemma_verbose_flag(m: ParseModel)
    requires
        m.mode == Mode::Normal,
        !m.trailing,
        m.pending is None,
    ensures
        step(m, "-v"@) == Ok::<ParseModel, CliError>(
            ParseModel { here_verbose: count_up(m.here_verbose), verbose: count_up(m.here_verbose), ..m },
        ),
{
    let t = "-v"@;
    reveal_strlit("-v");
    lemma_dash_is_no_word(t, m.level);
    assert(t.drop_first() =~= seq!['v']);
    let m2 = ParseModel { here_verbose: count_up(m.here_verbose), verbose: count_up(m.here_verbose), ..m };
    assert(seq!['v'].drop_first().len() == 0);
    assert(short_cluster(m2, seq!['v'].drop_first()) == Ok::<ParseModel, CliError>(m2));
}


/// The word `decode`, read where a subcommand may stand at the top level.
proof fn lemma_decode_word(m: ParseModel)
    requires
        m.mode == Mode::Normal,
        !m.trailing,
        m.pending is None,
        m.level == Level::Top,
    ensures
        step(m, "decode"@) == Ok::<ParseModel, CliError>(enter_level(m, Level::Decode)),
{
    reveal_strlit("decode");
    reveal_strlit("help");
}

/// `--output` with its value may stand before the subcommand, right after
/// it, or after the subcommand's own argument: the command line means the
/// same in each place (shown for `decode`, whose one positional argument
/// is any argument that does not look like a flag).
pub proof fn law_output_option_anywhere(prog: Seq<char>, v: Seq<char>, h: Seq<char>)
    requires
        is_plain(h),
    ensures
        parse_spec(seq![prog, "--output"@, v, "decode"@, h]) == parse_spec(
            seq![prog, "decode"@, "--output"@, v, h],
        ),
        parse_spec(seq![prog, "decode"@, "--output"@, v, h]) == parse_spec(
            seq![prog, "decode"@, h, "--output"@, v],
        ),
{
    let m0 = initial_model();
    let md = enter_level(m0, Level::Decode);
    lemma_output_flag(m0);
    lemma_decode_word(m0);
    lemma_output_flag(md);
    reveal_with_fuel(run, 6);
    let a1 = seq![prog, "--output"@, v, "decode"@, h];
    let a2 = seq![prog, "decode"@, "--output"@, v, h];
    let a3 = seq![prog, "decode"@, h, "--output"@, v];
    assert(a1.drop_first() =~= seq!["--output"@, v, "decode"@, h]);
    assert(a2.drop_first() =~= seq!["decode"@, "--output"@, v, h]);
    assert(a3.drop_first() =~= seq!["decode"@, h, "--output"@, v]);
    let p0 = ParseModel { pending: Some(ValueOption::Output), ..m0 };
    let pd = ParseModel { pending: Some(ValueOption::Output), ..md };
    if is_plain(v) {
        if is_output_format(v) {
            let m1 = ParseModel { output: Some(v), here_output: true, ..m0 };
            assert(step(p0, v) == Ok::<ParseModel, CliError>(m1));
            lemma_decode_word(m1);
            let m1d = enter_level(m1, Level::Decode);
            let m2 = ParseModel { output: Some(v), here_output: true, ..md };
            assert(step(pd, v) == Ok::<ParseModel, CliError>(m2));
            let mh = ParseModel { positional: Some(h), ..md };
            assert(step(md, h) == Ok::<ParseModel, CliError>(mh));
            lemma_output_flag(mh);
            let mhp = ParseModel { pending: Some(ValueOption::Output), ..mh };
            assert(step(mhp, v) == Ok::<ParseModel, CliError>(ParseModel { output: Some(v), here_output: true, ..mh }));
            assert(step(m1d, h) == Ok::<ParseModel, CliError>(ParseModel { positional: Some(h), ..m1d }));
            assert(step(m2, h) == Ok::<ParseModel, CliError>(ParseModel { positional: Some(h), ..m2 }));
        } else {
            assert(step(p0, v) == Err::<ParseModel, CliError>(CliError::InvalidValue));
            assert(step(pd, v) == Err::<ParseModel, CliError>(CliError::InvalidValue));
            let mh = ParseModel { positional: Some(h), ..md };
            assert(step(md, h) == Ok::<ParseModel, CliError>(mh));
            lemma_output_flag(mh);
            let mhp = ParseModel { pending: Some(ValueOption::Output), ..mh };
            assert(step(mhp, v) == Err::<ParseModel, CliError>(CliError::InvalidValue));
        }
    } else {
        assert(step(p0, v) == Err::<ParseModel, CliError>(CliError::MissingValue));
        assert(step(pd, v) == Err::<ParseModel, CliError>(CliError::MissingValue));
        let mh = ParseModel { positional: Some(h), ..md };
        assert(step(md, h) == Ok::<ParseModel, CliError>(mh));
        lemma_output_flag(mh);
        let mhp = ParseModel { pending: Some(ValueOption::Output), ..mh };
        assert(step(mhp, v) == Err::<ParseModel, CliError>(CliError::MissingValue));
    }
}


/// `-v` may stand before the subcommand, right after it, or after the
/// subcommand's own argument; each place gives verbosity 1, with the
/// default output format and network (shown for `decode`).
pub proof fn law_verbose_flag_anywhere(prog: Seq<char>, h: Seq<char>)
    requires
        is_plain(h),
    ensures
        parse_spec(seq![prog, "-v"@, "decode"@, h]) == Ok::<CliView, CliError>(
            CliView {
                command: CommandsView::Decode(DecodeArgsView { tx_hash: h, raw: false, short: false }),
                output: "human"@,
                network: "testnet"@,
                verbose: 1,
            },
        ),
        parse_spec(seq![prog, "decode"@, "-v"@, h]) == parse_spec(seq![prog, "-v"@, "decode"@, h]),
        parse_spec(seq![prog, "decode"@, h, "-v"@]) == parse_spec(seq![prog, "-v"@, "decode"@, h]),
{
    let m0 = initial_model();
    let md = enter_level(m0, Level::Decode);
    reveal_with_fuel(run, 5);
    let a1 = seq![prog, "-v"@, "decode"@, h];
    let a2 = seq![prog, "decode"@, "-v"@, h];
    let a3 = seq![prog, "decode"@, h, "-v"@];
    assert(a1.drop_first() =~= seq!["-v"@, "decode"@, h]);
    assert(a2.drop_first() =~= seq!["decode"@, "-v"@, h]);
    assert(a3.drop_first() =~= seq!["decode"@, h, "-v"@]);
    lemma_verbose_flag(m0);
    let m1 = ParseModel { here_verbose: 1, verbose: 1, ..m0 };
    lemma_decode_word(m1);
    lemma_decode_word(m0);
    lemma_verbose_flag(md);
    let m1d = enter_level(m1, Level::Decode);
    assert(step(m1d, h) == Ok::<ParseModel, CliError>(ParseModel { positional: Some(h), ..m1d }));
    let m2 = ParseModel { here_verbose: 1, verbose: 1, ..md };
    assert(step(m2, h) == Ok::<ParseModel, CliError>(ParseModel { positional: Some(h), ..m2 }));
    let mh = ParseModel { positional: Some(h), ..md };
    assert(step(md, h) == Ok::<ParseModel, CliError>(mh));
    lemma_verbose_flag(mh);
}

/// When `--output` is given both before and after the subcommand, the value
/// given after it (at the deeper level) is the one that counts.
pub proof fn law_deepest_output_wins(prog: Seq<char>, a: Seq<char>, b: Seq<char>, h: Seq<char>)
    requires
        is_plain(h),
        is_output_format(a),
        is_output_format(b),
    ensures
        parse_spec(seq![prog, "--output"@, a, "decode"@, "--output"@, b, h]) == Ok::<CliView, CliError>(
            CliView {
                command: CommandsView::Decode(DecodeArgsView { tx_hash: h, raw: false, short: false }),
                output: b,
                network: "testnet"@,
                verbose: 0,
            },
        ),
{
    let m0 = initial_model();
    reveal_with_fuel(run, 7);
    let args = seq![prog, "--output"@, a, "decode"@, "--output"@, b, h];
    assert(args.drop_first() =~= seq!["--output"@, a, "decode"@, "--output"@, b, h]);
    lemma_output_flag(m0);
    let p0 = ParseModel { pending: Some(ValueOption::Output), ..m0 };
    assert(is_plain(a)) by {
        reveal_strlit("human");
        reveal_strlit("json");
        reveal_strlit("compact");
        reveal_strlit("short");
    }
    assert(is_plain(b)) by {
        reveal_strlit("human");
        reveal_strlit("json");
        reveal_strlit("compact");
        reveal_strlit("short");
    }
    let m1 = ParseModel { output: Some(a), here_output: true, ..m0 };
    assert(step(p0, a) == Ok::<ParseModel, CliError>(m1));
    lemma_decode_word(m1);
    let md = enter_level(m1, Level::Decode);
    lemma_output_flag(md);
    let pd = ParseModel { pending: Some(ValueOption::Output), ..md };
    let m2 = ParseModel { output: Some(b), here_output: true, ..md };
    assert(step(pd, b) == Ok::<ParseModel, CliError>(m2));
    assert(step(m2, h) == Ok::<ParseModel, CliError>(ParseModel { positional: Some(h), ..m2 }));
}


/// A command line whose first argument is `--help` or `-h` asks for help,
/// whatever follows it.
pub proof fn law_help_first(prog: Seq<char>, rest: Seq<Seq<char>>)
    ensures
        parse_spec(seq![prog, "--help"@] + rest) == Err::<CliView, CliError>(CliError::HelpRequested),
        parse_spec(seq![prog, "-h"@] + rest) == Err::<CliView, CliError>(CliError::HelpRequested),
{
    let m0 = initial_model();
    reveal_strlit("--help");
    reveal_strlit("-h");
    reveal_strlit("help");
    reveal_strlit("verbose");
    let t1 = "--help"@;
    let t2 = "-h"@;
    lemma_dash_is_no_word(t1, Level::Top);
    lemma_dash_is_no_word(t2, Level::Top);
    let r1 = t1.skip(2);
    lemma_find_eq_absent(r1, 0);
    assert(r1.take(r1.len() as int) =~= "help"@);
    assert(step(m0, t1) == Err::<ParseModel, CliError>(CliError::HelpRequested));
    assert(t2.drop_first() =~= seq!['h']);
    assert(step(m0, t2) == Err::<ParseModel, CliError>(CliError::HelpRequested));
    let a1 = seq![prog, t1] + rest;
    let a2 = seq![prog, t2] + rest;
    assert(a1.drop_first()[0] == t1);
    assert(a2.drop_first()[0] == t2);
}


/// The short-flag cluster `-v…v` with `k` letters `v`.
pub open spec fn v_cluster(k: nat) -> Seq<char> {
    seq!['-'] + Seq::new(k, |i: int| 'v')
}

/// `c` raised by `k`, saturating at `u8::MAX`.
pub open spec fn add_saturating(c: u8, k: nat) -> u8 {
    if c + k > u8::MAX {
        u8::MAX
    } else {
        (c + k) as u8
    }
}

proof fn lemma_v_letters(m: ParseModel, k: nat)
    requires
        k >= 1,
    ensures
        short_cluster(m, Seq::new(k, |i: int| 'v')) == Ok::<ParseModel, CliError>(
            ParseModel {
                here_verbose: add_saturating(m.here_verbose, k),
                verbose: add_saturating(m.here_verbose, k),
                ..m
            },
        ),
    decreases k,
{
    let vs = Seq::new(k, |i: int| 'v');
    let m2 = ParseModel { here_verbose: count_up(m.here_verbose), verbose: count_up(m.here_verbose), ..m };
    assert(vs[0] == 'v');
    assert(vs.drop_first() =~= Seq::new((k - 1) as nat, |i: int| 'v'));
    if k > 1 {
        lemma_v_letters(m2, (k - 1) as nat);
    } else {
        assert(vs.drop_first().len() == 0);
    }
}

/// `-v` repeated `k` times in one cluster (`-vv`, `-vvv`…) sets the
/// verbosity to `k`, and to 255 from 255 on.
pub proof fn law_verbose_counts(prog: Seq<char>, k: nat)
    requires
        k >= 1,
    ensures
        parse_spec(seq![prog, v_cluster(k), "clean"@]) == Ok::<CliView, CliError>(
            CliView {
                command: CommandsView::Clean,
                output: "human"@,
                network: "testnet"@,
                verbose: if k > 255 {
                    255u8
                } else {
                    k as u8
                },
            },
        ),
{
    let m0 = initial_model();
    let t = v_cluster(k);
    assert(t[0] == '-');
    assert(t[1] == 'v');
    assert(t.drop_first() =~= Seq::new(k, |i: int| 'v'));
    lemma_dash_is_no_word(t, Level::Top);
    lemma_v_letters(m0, k);
    let m1 = ParseModel { here_verbose: add_saturating(0, k), verbose: add_saturating(0, k), ..m0 };
    assert(step(m0, t) == Ok::<ParseModel, CliError>(m1));
    reveal_strlit("clean");
    reveal_strlit("decode");
    reveal_strlit("help");
    assert(step(m1, "clean"@) == Ok::<ParseModel, CliError>(enter_level(m1, Level::Clean)));
    reveal_with_fuel(run, 3);
    let args = seq![prog, t, "clean"@];
    assert(args.drop_first() =~= seq![t, "clean"@]);
}

/// The database words, read in turn after the program name, reach the
/// level of their subcommand.
proof fn lemma_db_words()
    ensures
        step(initial_model(), "db"@) == Ok::<ParseModel, CliError>(enter_level(initial_model(), Level::Db)),
        step(enter_level(initial_model(), Level::Db), "update"@) == Ok::<ParseModel, CliError>(
            enter_level(enter_level(initial_model(), Level::Db), Level::DbUpdate),
        ),
        step(enter_level(initial_model(), Level::Db), "stats"@) == Ok::<ParseModel, CliError>(
            enter_level(enter_level(initial_model(), Level::Db), Level::DbStats),
        ),
        step(enter_level(initial_model(), Level::Db), "search"@) == Ok::<ParseModel, CliError>(
            enter_level(enter_level(initial_model(), Level::Db), Level::DbSearch),
        ),
{
    reveal_strlit("help");
    reveal_strlit("decode");
    reveal_strlit("clean");
    reveal_strlit("db");
    reveal_strlit("serve");
    reveal_strlit("update");
    reveal_strlit("stats");
    reveal_strlit("search");
}

/// Each `db` subcommand word selects the database command of the same name,
/// with the default output and network: `prism db update` updates the
/// taxonomy database, `prism db stats` shows its statistics, and
/// `prism db search <query>` searches it for the query (any word that does
/// not look like a flag).
pub proof fn law_db_subcommand_words(prog: Seq<char>, q: Seq<char>)
    requires
        is_plain(q),
    ensures
        parse_spec(seq![prog, "db"@, "update"@]) == Ok::<CliView, CliError>(
            CliView {
                command: CommandsView::Db(DbCommandsView::Update),
                output: "human"@,
                network: "testnet"@,
                verbose: 0,
            },
        ),
        parse_spec(seq![prog, "db"@, "stats"@]) == Ok::<CliView, CliError>(
            CliView {
                command: CommandsView::Db(DbCommandsView::Stats),
                output: "human"@,
                network: "testnet"@,
                verbose: 0,
            },
        ),
        parse_spec(seq![prog, "db"@, "search"@, q]) == Ok::<CliView, CliError>(
            CliView {
                command: CommandsView::Db(DbCommandsView::Search { query: q }),
                output: "human"@,
                network: "testnet"@,
                verbose: 0,
            },
        ),
{
    lemma_db_words();
    let m1 = enter_level(initial_model(), Level::Db);
    let ms = enter_level(m1, Level::DbSearch);
    reveal_strlit("help");
    assert(subcommand_of(Level::DbSearch, q) is None);
    assert(step(ms, q) == Ok::<ParseModel, CliError>(ParseModel { positional: Some(q), ..ms }));
    reveal_with_fuel(run, 4);
    assert(seq![prog, "db"@, "update"@].drop_first() =~= seq!["db"@, "update"@]);
    assert(seq!["db"@, "update"@].drop_first() =~= seq!["update"@]);
    assert(seq!["update"@].drop_first() =~= Seq::<Seq<char>>::empty());
    assert(seq![prog, "db"@, "stats"@].drop_first() =~= seq!["db"@, "stats"@]);
    assert(seq!["db"@, "stats"@].drop_first() =~= seq!["stats"@]);
    assert(seq!["stats"@].drop_first() =~= Seq::<Seq<char>>::empty());
    assert(seq![prog, "db"@, "search"@, q].drop_first() =~= seq!["db"@, "search"@, q]);
    assert(seq!["db"@, "search"@, q].drop_first() =~= seq!["search"@, q]);
    assert(seq!["search"@, q].drop_first() =~= seq![q]);
    assert(seq![q].drop_first() =~= Seq::<Seq<char>>::empty());
}

/// Each top-level command word, read first, enters the level of its command.
proof fn lemma_top_words()
    ensures
        step(initial_model(), "decode"@) == Ok::<ParseModel, CliError>(enter_level(initial_model(), Level::Decode)),
        step(initial_model(), "inspect"@) == Ok::<ParseModel, CliError>(enter_level(initial_model(), Level::Inspect)),
        step(initial_model(), "trace"@) == Ok::<ParseModel, CliError>(enter_level(initial_model(), Level::Trace)),
        step(initial_model(), "profile"@) == Ok::<ParseModel, CliError>(enter_level(initial_model(), Level::Profile)),
        step(initial_model(), "diff"@) == Ok::<ParseModel, CliError>(enter_level(initial_model(), Level::Diff)),
        step(initial_model(), "replay"@) == Ok::<ParseModel, CliError>(enter_level(initial_model(), Level::Replay)),
        step(initial_model(), "whatif"@) == Ok::<ParseModel, CliError>(enter_level(initial_model(), Level::Whatif)),
        step(initial_model(), "export"@) == Ok::<ParseModel, CliError>(enter_level(initial_model(), Level::Export)),
        step(initial_model(), "clean"@) == Ok::<ParseModel, CliError>(enter_level(initial_model(), Level::Clean)),
        step(initial_model(), "serve"@) == Ok::<ParseModel, CliError>(enter_level(initial_model(), Level::Serve)),
{
    reveal_strlit("help");
    reveal_strlit("decode");
    reveal_strlit("clean");
    reveal_strlit("db");
    reveal_strlit("serve");
    reveal_strlit("inspect");
    reveal_strlit("trace");
    reveal_strlit("profile");
    reveal_strlit("diff");
    reveal_strlit("replay");
    reveal_strlit("whatif");
    reveal_strlit("export");
}

/// The levels whose one positional argument is a transaction hash.
pub open spec fn takes_hash(l: Level) -> bool {
    l == Level::Decode || l == Level::Inspect || l == Level::Trace || l == Level::Profile || l
        == Level::Diff || l == Level::Replay || l == Level::Whatif || l == Level::Export
}

/// A plain word read at a level that takes a hash becomes that hash.
proof fn lemma_hash_word(m: ParseModel, h: Seq<char>)
    requires
        m.mode == Mode::Normal,
        !m.trailing,
        m.pending is None,
        m.positional is None,
        takes_hash(m.level),
        is_plain(h),
    ensures
        step(m, h) == Ok::<ParseModel, CliError>(ParseModel { positional: Some(h), ..m }),
{
}

/// `prog w h`: the command word `w`, entering level `l`, then the hash `h`.
proof fn lemma_word_then_hash(prog: Seq<char>, w: Seq<char>, l: Level, h: Seq<char>)
    requires
        step(initial_model(), w) == Ok::<ParseModel, CliError>(enter_level(initial_model(), l)),
        takes_hash(l),
        is_plain(h),
    ensures
        parse_spec(seq![prog, w, h]) == finish(
            ParseModel { positional: Some(h), ..enter_level(initial_model(), l) },
        ),
{
    let m1 = enter_level(initial_model(), l);
    lemma_hash_word(m1, h);
    reveal_with_fuel(run, 3);
    assert(seq![prog, w, h].drop_first() =~= seq![w, h]);
    assert(seq![w, h].drop_first() =~= seq![h]);
    assert(seq![h].drop_first() =~= Seq::<Seq<char>>::empty());
}

/// The command line `prog` followed by `words`, with default output,
/// network and verbosity, selecting `command`.
pub open spec fn selects(args: Seq<Seq<char>>, command: CommandsView) -> bool {
    parse_spec(args) == Ok::<CliView, CliError>(
        CliView { command, output: "human"@, network: "testnet"@, verbose: 0 },
    )
}

/// Each command word selects the command of the same name, with the word
/// after it (any word that does not look like a flag) as its transaction
/// hash and every option at its default: `decode` decodes the error,
/// `inspect`, `trace`, `profile`, `diff`, `replay`, `whatif` and `export`
/// analyse that transaction, `clean` clears the cache, and `serve` listens
/// on 127.0.0.1:8080.
pub proof fn law_command_words(prog: Seq<char>, h: Seq<char>)
    requires
        is_plain(h),
    ensures
        selects(seq![prog, "decode"@, h], CommandsView::Decode(DecodeArgsView { tx_hash: h, raw: false, short: false })),
        selects(seq![prog, "inspect"@, h], CommandsView::Inspect(AnalysisArgsView { tx_hash: h, interactive: false, option: None })),
        selects(seq![prog, "trace"@, h], CommandsView::Trace(AnalysisArgsView { tx_hash: h, interactive: false, option: None })),
        selects(seq![prog, "profile"@, h], CommandsView::Profile(AnalysisArgsView { tx_hash: h, interactive: false, option: None })),
        selects(seq![prog, "diff"@, h], CommandsView::Diff(AnalysisArgsView { tx_hash: h, interactive: false, option: None })),
        selects(seq![prog, "replay"@, h], CommandsView::Replay(AnalysisArgsView { tx_hash: h, interactive: false, option: None })),
        selects(seq![prog, "whatif"@, h], CommandsView::Whatif(AnalysisArgsView { tx_hash: h, interactive: false, option: None })),
        selects(seq![prog, "export"@, h], CommandsView::Export(AnalysisArgsView { tx_hash: h, interactive: false, option: None })),
        selects(seq![prog, "clean"@], CommandsView::Clean),
        selects(seq![prog, "serve"@], CommandsView::Serve(ServeArgsView { port: 8080, host: "127.0.0.1"@ })),
{
    lemma_top_words();
    lemma_word_then_hash(prog, "decode"@, Level::Decode, h);
    lemma_word_then_hash(prog, "inspect"@, Level::Inspect, h);
    lemma_word_then_hash(prog, "trace"@, Level::Trace, h);
    lemma_word_then_hash(prog, "profile"@, Level::Profile, h);
    lemma_word_then_hash(prog, "diff"@, Level::Diff, h);
    lemma_word_then_hash(prog, "replay"@, Level::Replay, h);
    lemma_word_then_hash(prog, "whatif"@, Level::Whatif, h);
    lemma_word_then_hash(prog, "export"@, Level::Export, h);
    reveal_with_fuel(run, 2);
    assert(seq![prog, "clean"@].drop_first() =~= seq!["clean"@]);
    assert(seq!["clean"@].drop_first() =~= Seq::<Seq<char>>::empty());
    assert(seq![prog, "serve"@].drop_first() =~= seq!["serve"@]);
    assert(seq!["serve"@].drop_first() =~= Seq::<Seq<char>>::empty());
}

/// A long flag with no `=` names what follows its two dashes.
proof fn lemma_long_plain(t: Seq<char>)
    requires
        t.len() > 2,
        forall|j: int| 2 <= j < t.len() ==> t[j] != '=',
    ensures
        long_name(t) == t.skip(2),
        long_value(t) is None,
{
    let rem = t.skip(2);
    lemma_find_eq_absent(rem, 0);
    assert(rem.take(rem.len() as int) =~= rem);
}

/// The long flags of the analysis and decode commands, read at their level.
proof fn lemma_command_flags(m: ParseModel)
    requires
        m.mode == Mode::Normal,
        !m.trailing,
        m.pending is None,
    ensures
        m.level == Level::Decode ==> step(m, "--raw"@) == apply_switch(m, Switch::Raw),
        m.level == Level::Decode ==> step(m, "--short"@) == apply_switch(m, Switch::Short),
        m.level == Level::Replay ==> step(m, "--interactive"@) == apply_switch(m, Switch::Interactive),
        m.level == Level::Replay ==> step(m, "-i"@) == apply_switch(m, Switch::Interactive),
        m.level == Level::Whatif ==> step(m, "--modify"@) == Ok::<ParseModel, CliError>(
            ParseModel { pending: Some(ValueOption::Modify), ..m },
        ),
        m.level == Level::Export ==> step(m, "--format"@) == Ok::<ParseModel, CliError>(
            ParseModel { pending: Some(ValueOption::Format), ..m },
        ),
{
    reveal_strlit("help");
    reveal_strlit("verbose");
    reveal_strlit("output");
    reveal_strlit("network");
    reveal_strlit("raw");
    reveal_strlit("short");
    reveal_strlit("port");
    reveal_strlit("host");
    reveal_strlit("interactive");
    reveal_strlit("modify");
    reveal_strlit("format");
    reveal_strlit("--raw");
    reveal_strlit("--short");
    reveal_strlit("--interactive");
    reveal_strlit("--modify");
    reveal_strlit("--format");
    reveal_strlit("-i");
    lemma_dash_is_no_word("--raw"@, m.level);
    lemma_dash_is_no_word("--short"@, m.level);
    lemma_dash_is_no_word("--interactive"@, m.level);
    lemma_dash_is_no_word("--modify"@, m.level);
    lemma_dash_is_no_word("--format"@, m.level);
    lemma_dash_is_no_word("-i"@, m.level);
    lemma_long_plain("--raw"@);
    lemma_long_plain("--short"@);
    lemma_long_plain("--interactive"@);
    lemma_long_plain("--modify"@);
    lemma_long_plain("--format"@);
    assert("--raw"@.skip(2) =~= "raw"@);
    assert("--short"@.skip(2) =~= "short"@);
    assert("--interactive"@.skip(2) =~= "interactive"@);
    assert("--modify"@.skip(2) =~= "modify"@);
    assert("--format"@.skip(2) =~= "format"@);
    let cs = "-i"@.drop_first();
    assert(cs =~= seq!['i']);
    if m.level == Level::Replay {
        match apply_switch(m, Switch::Interactive) {
            Ok(m2) => {
                assert(cs.drop_first().len() == 0);
                assert(short_cluster(m2, cs.drop_first()) == Ok::<ParseModel, CliError>(m2));
            },
            Err(_) => {},
        }
    }
}

/// A plain word read where an option awaits its value becomes that value.
proof fn lemma_pending_value(m: ParseModel, o: ValueOption, v: Seq<char>)
    requires
        m.mode == Mode::Normal,
        !m.trailing,
        m.pending == Some(o),
        is_plain(v),
    ensures
        step(m, v) == set_value(ParseModel { pending: None, ..m }, o, v),
{
}

/// `prog w h f`: a command word, its hash and one more argument.
proof fn lemma_word_hash_arg(prog: Seq<char>, w: Seq<char>, l: Level, h: Seq<char>, f: Seq<char>, m3: ParseModel)
    requires
        step(initial_model(), w) == Ok::<ParseModel, CliError>(enter_level(initial_model(), l)),
        takes_hash(l),
        is_plain(h),
        step(ParseModel { positional: Some(h), ..enter_level(initial_model(), l) }, f) == Ok::<
            ParseModel,
            CliError,
        >(m3),
    ensures
        parse_spec(seq![prog, w, h, f]) == finish(m3),
{
    lemma_hash_word(enter_level(initial_model(), l), h);
    reveal_with_fuel(run, 4);
    assert(seq![prog, w, h, f].drop_first() =~= seq![w, h, f]);
    assert(seq![w, h, f].drop_first() =~= seq![h, f]);
    assert(seq![h, f].drop_first() =~= seq![f]);
    assert(seq![f].drop_first() =~= Seq::<Seq<char>>::empty());
}

/// `prog w h f v`: a command word, its hash, an option and its value.
proof fn lemma_word_hash_option(
    prog: Seq<char>,
    w: Seq<char>,
    l: Level,
    h: Seq<char>,
    f: Seq<char>,
    v: Seq<char>,
    m3: ParseModel,
    m4: ParseModel,
)
    requires
        step(initial_model(), w) == Ok::<ParseModel, CliError>(enter_level(initial_model(), l)),
        takes_hash(l),
        is_plain(h),
        step(ParseModel { positional: Some(h), ..enter_level(initial_model(), l) }, f) == Ok::<
            ParseModel,
            CliError,
        >(m3),
        step(m3, v) == Ok::<ParseModel, CliError>(m4),
    ensures
        parse_spec(seq![prog, w, h, f, v]) == finish(m4),
{
    lemma_hash_word(enter_level(initial_model(), l), h);
    reveal_with_fuel(run, 5);
    assert(seq![prog, w, h, f, v].drop_first() =~= seq![w, h, f, v]);
    assert(seq![w, h, f, v].drop_first() =~= seq![h, f, v]);
    assert(seq![h, f, v].drop_first() =~= seq![f, v]);
    assert(seq![f, v].drop_first() =~= seq![v]);
    assert(seq![v].drop_first() =~= Seq::<Seq<char>>::empty());
}

/// The switches of the commands that have their own: `--raw` and
/// `--short` of `decode`, `-i` and `--interactive` of `replay`, each given
/// after the hash, are carried to the command.
pub proof fn law_command_switches(prog: Seq<char>, h: Seq<char>)
    requires
        is_plain(h),
    ensures
        selects(seq![prog, "decode"@, h, "--raw"@], CommandsView::Decode(DecodeArgsView { tx_hash: h, raw: true, short: false })),
        selects(seq![prog, "decode"@, h, "--short"@], CommandsView::Decode(DecodeArgsView { tx_hash: h, raw: false, short: true })),
        selects(seq![prog, "replay"@, h, "-i"@], CommandsView::Replay(AnalysisArgsView { tx_hash: h, interactive: true, option: None })),
        selects(seq![prog, "replay"@, h, "--interactive"@], CommandsView::Replay(AnalysisArgsView { tx_hash: h, interactive: true, option: None })),
{
    lemma_top_words();
    let md = ParseModel { positional: Some(h), ..enter_level(initial_model(), Level::Decode) };
    let mr = ParseModel { positional: Some(h), ..enter_level(initial_model(), Level::Replay) };
    lemma_command_flags(md);
    lemma_command_flags(mr);
    lemma_word_hash_arg(prog, "decode"@, Level::Decode, h, "--raw"@, ParseModel { raw: true, ..md });
    lemma_word_hash_arg(prog, "decode"@, Level::Decode, h, "--short"@, ParseModel { short: true, ..md });
    lemma_word_hash_arg(prog, "replay"@, Level::Replay, h, "-i"@, ParseModel { interactive: true, ..mr });
    lemma_word_hash_arg(
        prog,
        "replay"@,
        Level::Replay,
        h,
        "--interactive"@,
        ParseModel { interactive: true, ..mr },
    );
}

/// The valued options: `--modify <patch>` of `whatif` and `--format
/// <format>` of `export`, given after the hash, carry their value (any word
/// that does not look like a flag) to the command.
pub proof fn law_command_values(prog: Seq<char>, h: Seq<char>, v: Seq<char>)
    requires
        is_plain(h),
        is_plain(v),
    ensures
        selects(seq![prog, "whatif"@, h, "--modify"@, v], CommandsView::Whatif(AnalysisArgsView { tx_hash: h, interactive: false, option: Some(v) })),
        selects(seq![prog, "export"@, h, "--format"@, v], CommandsView::Export(AnalysisArgsView { tx_hash: h, interactive: false, option: Some(v) })),
{
    lemma_top_words();
    let mw = ParseModel { positional: Some(h), ..enter_level(initial_model(), Level::Whatif) };
    let me = ParseModel { positional: Some(h), ..enter_level(initial_model(), Level::Export) };
    lemma_command_flags(mw);
    lemma_command_flags(me);
    let mw3 = ParseModel { pending: Some(ValueOption::Modify), ..mw };
    let me3 = ParseModel { pending: Some(ValueOption::Format), ..me };
    lemma_pending_value(mw3, ValueOption::Modify, v);
    lemma_pending_value(me3, ValueOption::Format, v);
    lemma_word_hash_option(prog, "whatif"@, Level::Whatif, h, "--modify"@, v, mw3, ParseModel { modify: Some(v), ..mw });
    lemma_word_hash_option(prog, "export"@, Level::Export, h, "--format"@, v, me3, ParseModel { format: Some(v), ..me });
}

} // verus!
