//! The command line of `prism`: its grammar, stated as a machine that reads
//! one argument at a time, and a parser proved to follow it.
//!
//! Global options (`--output`, `--network`/`-n`, `--verbose`/`-v`) may stand
//! at any level of the command line; the value given at the deepest level
//! wins. Each level also has `-h`/`--help`, and levels with subcommands
//! accept the `help` subcommand.

use vstd::prelude::*;

use crate::analysis::{
    AnalysisArgsView, DiffArgs, ExportArgs, InspectArgs, ProfileArgs, ReplayArgs, TraceArgs,
    WhatifArgs,
};
use crate::clean::CleanArgs;
use crate::db::{DbArgs, DbCommands, DbCommandsView};
use crate::decode::{DecodeArgs, DecodeArgsView};
use crate::serve::{ServeArgs, ServeArgsView};
use crate::text::{chars_eq_str, chars_of, string_from_chars};

verus! {

/// Prism — From cryptic error to root cause in one command.
#[derive(Debug, Clone)]
pub struct Cli {
    /// Subcommand to execute.
    pub command: Commands,
    /// Output format: human, json, compact, or short.
    pub output: String,
    /// Network: mainnet, testnet, futurenet, or a custom RPC URL.
    pub network: String,
    /// Verbosity: how many times `-v` was given (at the deepest level that has it).
    pub verbose: u8,
}

/// The subcommands of `prism`.
#[derive(Debug, Clone)]
pub enum Commands {
    /// Decode a transaction error into plain English.
    Decode(DecodeArgs),
    /// Inspect full transaction context.
    Inspect(InspectArgs),
    /// Replay transaction and output execution trace.
    Trace(TraceArgs),
    /// Generate resource consumption profile.
    Profile(ProfileArgs),
    /// Show state diff (before/after) for a transaction.
    Diff(DiffArgs),
    /// Launch interactive TUI debugger.
    Replay(ReplayArgs),
    /// Re-simulate with modified inputs.
    Whatif(WhatifArgs),
    /// Export debug session as a regression test.
    Export(ExportArgs),
    /// Clear local cache data.
    Clean(CleanArgs),
    /// Manage the error taxonomy database.
    Db(DbArgs),
    /// Start WebSocket server for streaming trace updates.
    Serve(ServeArgs),
}

/// Why a command line was refused.
#[derive(Debug, Clone, Copy, PartialEq, Eq, Structural)]
pub enum CliError {
    /// `-h`, `--help` or the `help` subcommand was given.
    HelpRequested,
    /// A flag that the command at hand does not know.
    UnknownArgument,
    /// An option that takes a value was not given one.
    MissingValue,
    /// A value was attached (`--flag=value`) to a flag that takes none.
    UnexpectedValue,
    /// An option or switch was given twice at the same level.
    RepeatedArgument,
    /// A value that the option does not accept.
    InvalidValue,
    /// A positional argument where the command takes no (further) one.
    UnexpectedArgument,
    /// A word where a subcommand name is expected.
    UnrecognizedSubcommand,
    /// A command that needs a subcommand was given none.
    MissingSubcommand,
    /// A required positional argument is missing.
    MissingRequiredArgument,
}

/// What a command line selects, as mathematical values.
#[verifier::ext_equal]
pub enum CommandsView {
    Decode(DecodeArgsView),
    Inspect(AnalysisArgsView),
    Trace(AnalysisArgsView),
    Profile(AnalysisArgsView),
    Diff(AnalysisArgsView),
    Replay(AnalysisArgsView),
    Whatif(AnalysisArgsView),
    Export(AnalysisArgsView),
    Clean,
    Db(DbCommandsView),
    Serve(ServeArgsView),
}

/// What a whole command line says, as mathematical values.
#[verifier::ext_equal]
pub struct CliView {
    pub command: CommandsView,
    pub output: Seq<char>,
    pub network: Seq<char>,
    pub verbose: u8,
}

impl View for Commands {
    type V = CommandsView;

    open spec fn view(&self) -> CommandsView {
        match self {
            Commands::Decode(a) => CommandsView::Decode(a@),
            Commands::Inspect(a) => CommandsView::Inspect(a@),
            Commands::Trace(a) => CommandsView::Trace(a@),
            Commands::Profile(a) => CommandsView::Profile(a@),
            Commands::Diff(a) => CommandsView::Diff(a@),
            Commands::Replay(a) => CommandsView::Replay(a@),
            Commands::Whatif(a) => CommandsView::Whatif(a@),
            Commands::Export(a) => CommandsView::Export(a@),
            Commands::Clean(_) => CommandsView::Clean,
            Commands::Db(a) => CommandsView::Db(a@),
            Commands::Serve(a) => CommandsView::Serve(a@),
        }
    }
}

impl View for Cli {
    type V = CliView;

    open spec fn view(&self) -> CliView {
        CliView {
            command: self.command@,
            output: self.output@,
            network: self.network@,
            verbose: self.verbose,
        }
    }
}

/// The command (or subcommand) whose arguments are being read.
#[derive(Debug, Clone, Copy, PartialEq, Eq, Structural)]
pub enum Level {
    Top,
    Decode,
    Inspect,
    Trace,
    Profile,
    Diff,
    Replay,
    Whatif,
    Export,
    Clean,
    Db,
    DbUpdate,
    DbStats,
    DbSearch,
    Serve,
}

/// Options that take a value.
#[derive(Debug, Clone, Copy, PartialEq, Eq, Structural)]
pub enum ValueOption {
    Output,
    Network,
    Port,
    Host,
    Modify,
    Format,
}

/// Options that take no value.
#[derive(Debug, Clone, Copy, PartialEq, Eq, Structural)]
pub enum Switch {
    Help,
    Verbose,
    Raw,
    Short,
    Interactive,
}

/// What a flag name stands for at a level.
#[derive(Debug, Clone, Copy, PartialEq, Eq, Structural)]
pub enum ArgKind {
    Switch(Switch),
    Value(ValueOption),
}

/// Whether arguments are being read for a command, or as the names of the
/// command whose help is asked for (after the `help` subcommand).
#[derive(Debug, Clone, Copy, PartialEq, Eq, Structural)]
pub enum Mode {
    Normal,
    HelpPath(Level),
}

/// The state of the grammar after some arguments have been read.
#[verifier::ext_equal]
pub struct ParseModel {
    pub mode: Mode,
    pub level: Level,
    /// An option read without its value, which the next argument supplies.
    pub pending: Option<ValueOption>,
    /// Whether `--` was read: what follows is positional.
    pub trailing: bool,
    /// The global options, as last set at any level.
    pub output: Option<Seq<char>>,
    pub network: Option<Seq<char>>,
    pub verbose: u8,
    /// Which global options were given at the current level.
    pub here_output: bool,
    pub here_network: bool,
    pub here_verbose: u8,
    /// The options of the current level.
    pub positional: Option<Seq<char>>,
    pub raw: bool,
    pub short: bool,
    pub port: Option<u16>,
    pub host: Option<Seq<char>>,
    pub interactive: bool,
    pub modify: Option<Seq<char>>,
    pub format: Option<Seq<char>>,
}

/// The output formats that `--output` accepts.
pub open spec fn is_output_format(v: Seq<char>) -> bool {
    v == "human"@ || v == "json"@ || v == "compact"@ || v == "short"@
}

/// Whether a level has subcommands (and so the `help` subcommand).
pub open spec fn has_subcommands(level: Level) -> bool {
    level == Level::Top || level == Level::Db
}

/// The subcommand that a word names at a level, `help` aside.
pub open spec fn subcommand_of(level: Level, t: Seq<char>) -> Option<Level> {
    match level {
        Level::Top => if t == "decode"@ {
            Some(Level::Decode)
        } else if t == "clean"@ {
            Some(Level::Clean)
        } else if t == "db"@ {
            Some(Level::Db)
        } else if t == "serve"@ {
            Some(Level::Serve)
        } else if t == "inspect"@ {
            Some(Level::Inspect)
        } else if t == "trace"@ {
            Some(Level::Trace)
        } else if t == "profile"@ {
            Some(Level::Profile)
        } else if t == "diff"@ {
            Some(Level::Diff)
        } else if t == "replay"@ {
            Some(Level::Replay)
        } else if t == "whatif"@ {
            Some(Level::Whatif)
        } else if t == "export"@ {
            Some(Level::Export)
        } else {
            None
        },
        Level::Db => if t == "update"@ {
            Some(Level::DbUpdate)
        } else if t == "stats"@ {
            Some(Level::DbStats)
        } else if t == "search"@ {
            Some(Level::DbSearch)
        } else {
            None
        },
        _ => None,
    }
}

/// What a long flag name (after `--`) stands for at a level.
pub open spec fn long_arg(level: Level, name: Seq<char>) -> Option<ArgKind> {
    if name == "help"@ {
        Some(ArgKind::Switch(Switch::Help))
    } else if name == "verbose"@ {
        Some(ArgKind::Switch(Switch::Verbose))
    } else if name == "output"@ {
        Some(ArgKind::Value(ValueOption::Output))
    } else if name == "network"@ {
        Some(ArgKind::Value(ValueOption::Network))
    } else if level == Level::Decode && name == "raw"@ {
        Some(ArgKind::Switch(Switch::Raw))
    } else if level == Level::Decode && name == "short"@ {
        Some(ArgKind::Switch(Switch::Short))
    } else if level == Level::Serve && name == "port"@ {
        Some(ArgKind::Value(ValueOption::Port))
    } else if level == Level::Serve && name == "host"@ {
        Some(ArgKind::Value(ValueOption::Host))
    } else if level == Level::Replay && name == "interactive"@ {
        Some(ArgKind::Switch(Switch::Interactive))
    } else if level == Level::Whatif && name == "modify"@ {
        Some(ArgKind::Value(ValueOption::Modify))
    } else if level == Level::Export && name == "format"@ {
        Some(ArgKind::Value(ValueOption::Format))
    } else {
        None
    }
}

/// What a short flag letter stands for at a level.
pub open spec fn short_arg(level: Level, c: char) -> Option<ArgKind> {
    if c == 'h' {
        Some(ArgKind::Switch(Switch::Help))
    } else if c == 'v' {
        Some(ArgKind::Switch(Switch::Verbose))
    } else if c == 'n' {
        Some(ArgKind::Value(ValueOption::Network))
    } else if level == Level::Serve && c == 'p' {
        Some(ArgKind::Value(ValueOption::Port))
    } else if level == Level::Replay && c == 'i' {
        Some(ArgKind::Switch(Switch::Interactive))
    } else {
        None
    }
}

/// `--` on its own: everything after it is positional.
pub open spec fn is_escape(t: Seq<char>) -> bool {
    t.len() == 2 && t[0] == '-' && t[1] == '-'
}

/// A long flag: `--name` or `--name=value`.
pub open spec fn is_long_token(t: Seq<char>) -> bool {
    t.len() > 2 && t[0] == '-' && t[1] == '-'
}

/// A cluster of short flags: `-x`, `-xyz`, `-nVALUE`.
pub open spec fn is_short_token(t: Seq<char>) -> bool {
    t.len() >= 2 && t[0] == '-' && t[1] != '-'
}

/// The index of the first `=` in `s` at or after `i`, or the length of `s`.
pub open spec fn find_eq(s: Seq<char>, i: int) -> int
    decreases s.len() - i,
{
    if i >= s.len() {
        s.len() as int
    } else if s[i] == '=' {
        i
    } else {
        find_eq(s, i + 1)
    }
}

/// The name of a long flag: what follows `--`, up to the first `=`.
pub open spec fn long_name(t: Seq<char>) -> Seq<char> {
    let rem = t.skip(2);
    rem.take(find_eq(rem, 0))
}

/// The value attached to a long flag after its first `=`, if any.
pub open spec fn long_value(t: Seq<char>) -> Option<Seq<char>> {
    let rem = t.skip(2);
    let k = find_eq(rem, 0);
    if k < rem.len() {
        Some(rem.skip(k + 1))
    } else {
        None
    }
}

/// A value attached to a short option, without one leading `=`.
pub open spec fn strip_eq(rest: Seq<char>) -> Seq<char> {
    if rest.len() > 0 && rest[0] == '=' {
        rest.drop_first()
    } else {
        rest
    }
}

/// Whether a character is an ASCII digit.
pub open spec fn is_digit(c: char) -> bool {
    '0' <= c && c <= '9'
}

/// The number that a string of ASCII digits spells.
pub open spec fn digits_value(s: Seq<char>) -> nat
    decreases s.len(),
{
    if s.len() == 0 {
        0
    } else {
        digits_value(s.drop_last()) * 10 + ((s.last() as int - '0' as int) as nat)
    }
}

/// Whether every character of `s` is an ASCII digit.
pub open spec fn all_digits(s: Seq<char>) -> bool {
    forall|i: int| 0 <= i < s.len() ==> is_digit(#[trigger] s[i])
}

/// A `--port` value without its sign, if it has one.
pub open spec fn unsigned_part(s: Seq<char>) -> Seq<char> {
    if s.len() > 0 && (s[0] == '-' || s[0] == '+') {
        s.drop_first()
    } else {
        s
    }
}

/// The port that a `--port` value names: an optional sign and at least one
/// digit, read as a 64-bit integer and accepted in the range of `u16`.
pub open spec fn port_value(s: Seq<char>) -> Option<u16> {
    let neg = s.len() > 0 && s[0] == '-';
    let body = unsigned_part(s);
    if body.len() > 0 && all_digits(body) && digits_value(body) <= 65535 && (neg
        ==> digits_value(body) == 0) {
        Some(digits_value(body) as u16)
    } else {
        None
    }
}

/// The state before any argument is read.
pub open spec fn initial_model() -> ParseModel {
    ParseModel {
        mode: Mode::Normal,
        level: Level::Top,
        pending: None,
        trailing: false,
        output: None,
        network: None,
        verbose: 0,
        here_output: false,
        here_network: false,
        here_verbose: 0,
        positional: None,
        raw: false,
        short: false,
        port: None,
        host: None,
        interactive: false,
        modify: None,
        format: None,
    }
}

/// The state on entering a subcommand: the options of the level start over,
/// the global values read so far are kept.
pub open spec fn enter_level(m: ParseModel, level: Level) -> ParseModel {
    ParseModel {
        level,
        pending: None,
        trailing: false,
        here_output: false,
        here_network: false,
        here_verbose: 0,
        positional: None,
        raw: false,
        short: false,
        port: None,
        host: None,
        interactive: false,
        modify: None,
        format: None,
        ..m
    }
}

/// One more `-v`, saturating at `u8::MAX`.
pub open spec fn count_up(c: u8) -> u8 {
    if c == u8::MAX {
        c
    } else {
        (c + 1) as u8
    }
}

/// Giving a value to an option.
pub open spec fn set_value(m: ParseModel, o: ValueOption, v: Seq<char>) -> Result<ParseModel, CliError> {
    match o {
        ValueOption::Output => if m.here_output {
            Err(CliError::RepeatedArgument)
        } else if !is_output_format(v) {
            Err(CliError::InvalidValue)
        } else {
            Ok(ParseModel { output: Some(v), here_output: true, ..m })
        },
        ValueOption::Network => if m.here_network {
            Err(CliError::RepeatedArgument)
        } else {
            Ok(ParseModel { network: Some(v), here_network: true, ..m })
        },
        ValueOption::Port => if m.port is Some {
            Err(CliError::RepeatedArgument)
        } else {
            match port_value(v) {
                Some(p) => Ok(ParseModel { port: Some(p), ..m }),
                None => Err(CliError::InvalidValue),
            }
        },
        ValueOption::Host => if m.host is Some {
            Err(CliError::RepeatedArgument)
        } else {
            Ok(ParseModel { host: Some(v), ..m })
        },
        ValueOption::Modify => if m.modify is Some {
            Err(CliError::RepeatedArgument)
        } else {
            Ok(ParseModel { modify: Some(v), ..m })
        },
        ValueOption::Format => if m.format is Some {
            Err(CliError::RepeatedArgument)
        } else {
            Ok(ParseModel { format: Some(v), ..m })
        },
    }
}

/// Giving a switch.
pub open spec fn apply_switch(m: ParseModel, s: Switch) -> Result<ParseModel, CliError> {
    match s {
        Switch::Help => Err(CliError::HelpRequested),
        Switch::Verbose => Ok(
            ParseModel { here_verbose: count_up(m.here_verbose), verbose: count_up(m.here_verbose), ..m },
        ),
        Switch::Raw => if m.raw {
            Err(CliError::RepeatedArgument)
        } else {
            Ok(ParseModel { raw: true, ..m })
        },
        Switch::Short => if m.short {
            Err(CliError::RepeatedArgument)
        } else {
            Ok(ParseModel { short: true, ..m })
        },
        Switch::Interactive => if m.interactive {
            Err(CliError::RepeatedArgument)
        } else {
            Ok(ParseModel { interactive: true, ..m })
        },
    }
}

/// Reading the letters of a short-flag cluster (what follows the `-`).
pub open spec fn short_cluster(m: ParseModel, cs: Seq<char>) -> Result<ParseModel, CliError>
    decreases cs.len(),
{
    if cs.len() == 0 {
        Ok(m)
    } else {
        match short_arg(m.level, cs[0]) {
            None => Err(CliError::UnknownArgument),
            Some(ArgKind::Switch(s)) => match apply_switch(m, s) {
                Ok(m2) => short_cluster(m2, cs.drop_first()),
                Err(e) => Err(e),
            },
            Some(ArgKind::Value(o)) => {
                let rest = cs.drop_first();
                if rest.len() == 0 {
                    Ok(ParseModel { pending: Some(o), ..m })
                } else {
                    set_value(m, o, strip_eq(rest))
                }
            },
        }
    }
}

/// Reading a long flag.
pub open spec fn long_flag(m: ParseModel, t: Seq<char>) -> Result<ParseModel, CliError> {
    match long_arg(m.level, long_name(t)) {
        None => Err(CliError::UnknownArgument),
        Some(ArgKind::Switch(s)) => if long_value(t) is Some {
            Err(CliError::UnexpectedValue)
        } else {
            apply_switch(m, s)
        },
        Some(ArgKind::Value(o)) => match long_value(t) {
            Some(v) => set_value(m, o, v),
            None => Ok(ParseModel { pending: Some(o), ..m }),
        },
    }
}

/// Reading a positional argument.
pub open spec fn positional_arg(m: ParseModel, t: Seq<char>) -> Result<ParseModel, CliError> {
    match m.level {
        Level::Decode | Level::DbSearch | Level::Inspect | Level::Trace | Level::Profile
        | Level::Diff | Level::Replay | Level::Whatif | Level::Export => if m.positional is Some {
            Err(CliError::UnexpectedArgument)
        } else {
            Ok(ParseModel { positional: Some(t), ..m })
        },
        Level::Top | Level::Db => Err(CliError::UnrecognizedSubcommand),
        _ => Err(CliError::UnexpectedArgument),
    }
}

/// Reading one argument.
pub open spec fn step(m: ParseModel, t: Seq<char>) -> Result<ParseModel, CliError> {
    match m.mode {
        Mode::HelpPath(lv) => if has_subcommands(lv) && t == "help"@ {
            Ok(ParseModel { mode: Mode::HelpPath(Level::Clean), ..m })
        } else {
            match subcommand_of(lv, t) {
                Some(sub) => Ok(ParseModel { mode: Mode::HelpPath(sub), ..m }),
                None => Err(CliError::UnrecognizedSubcommand),
            }
        },
        Mode::Normal => if m.trailing {
            positional_arg(m, t)
        } else if m.pending is None && has_subcommands(m.level) && t == "help"@ {
            Ok(ParseModel { mode: Mode::HelpPath(m.level), ..m })
        } else if m.pending is None && subcommand_of(m.level, t) is Some {
            Ok(enter_level(m, subcommand_of(m.level, t)->0))
        } else if is_escape(t) {
            if m.pending is Some {
                Err(CliError::MissingValue)
            } else {
                Ok(ParseModel { trailing: true, ..m })
            }
        } else if is_long_token(t) {
            if m.pending is Some {
                Err(CliError::MissingValue)
            } else {
                long_flag(m, t)
            }
        } else if is_short_token(t) {
            if m.pending is Some {
                Err(CliError::MissingValue)
            } else {
                short_cluster(m, t.drop_first())
            }
        } else {
            match m.pending {
                Some(o) => set_value(ParseModel { pending: None, ..m }, o, t),
                None => positional_arg(m, t),
            }
        },
    }
}

/// The arguments of an analysis command: its transaction hash, whether the
/// debugger is asked for, and the value of its one option (if it has one).
pub open spec fn analysis_view(h: Seq<char>, interactive: bool, option: Option<Seq<char>>) -> AnalysisArgsView {
    AnalysisArgsView { tx_hash: h, interactive, option }
}

/// The command that the state selects once all arguments are read.
pub open spec fn finish_command(m: ParseModel) -> Result<CommandsView, CliError> {
    match m.level {
        Level::Top | Level::Db => Err(CliError::MissingSubcommand),
        Level::Decode => match m.positional {
            Some(h) => Ok(CommandsView::Decode(DecodeArgsView { tx_hash: h, raw: m.raw, short: m.short })),
            None => Err(CliError::MissingRequiredArgument),
        },
        Level::Inspect => match m.positional {
            Some(h) => Ok(CommandsView::Inspect(analysis_view(h, false, None))),
            None => Err(CliError::MissingRequiredArgument),
        },
        Level::Trace => match m.positional {
            Some(h) => Ok(CommandsView::Trace(analysis_view(h, false, None))),
            None => Err(CliError::MissingRequiredArgument),
        },
        Level::Profile => match m.positional {
            Some(h) => Ok(CommandsView::Profile(analysis_view(h, false, None))),
            None => Err(CliError::MissingRequiredArgument),
        },
        Level::Diff => match m.positional {
            Some(h) => Ok(CommandsView::Diff(analysis_view(h, false, None))),
            None => Err(CliError::MissingRequiredArgument),
        },
        Level::Replay => match m.positional {
            Some(h) => Ok(CommandsView::Replay(analysis_view(h, m.interactive, None))),
            None => Err(CliError::MissingRequiredArgument),
        },
        Level::Whatif => match m.positional {
            Some(h) => Ok(CommandsView::Whatif(analysis_view(h, false, m.modify))),
            None => Err(CliError::MissingRequiredArgument),
        },
        Level::Export => match m.positional {
            Some(h) => Ok(CommandsView::Export(analysis_view(h, false, m.format))),
            None => Err(CliError::MissingRequiredArgument),
        },
        Level::Clean => Ok(CommandsView::Clean),
        Level::DbUpdate => Ok(CommandsView::Db(DbCommandsView::Update)),
        Level::DbStats => Ok(CommandsView::Db(DbCommandsView::Stats)),
        Level::DbSearch => match m.positional {
            Some(q) => Ok(CommandsView::Db(DbCommandsView::Search { query: q })),
            None => Err(CliError::MissingRequiredArgument),
        },
        Level::Serve => Ok(
            CommandsView::Serve(
                ServeArgsView {
                    port: match m.port {
                        Some(p) => p,
                        None => 8080,
                    },
                    host: match m.host {
                        Some(h) => h,
                        None => "127.0.0.1"@,
                    },
                },
            ),
        ),
    }
}

/// The outcome once all arguments are read.
pub open spec fn finish(m: ParseModel) -> Result<CliView, CliError> {
    match m.mode {
        Mode::HelpPath(_) => Err(CliError::HelpRequested),
        Mode::Normal => if m.pending is Some {
            Err(CliError::MissingValue)
        } else {
            match finish_command(m) {
                Err(e) => Err(e),
                Ok(c) => Ok(
                    CliView {
                        command: c,
                        output: match m.output {
                            Some(o) => o,
                            None => "human"@,
                        },
                        network: match m.network {
                            Some(n) => n,
                            None => "testnet"@,
                        },
                        verbose: m.verbose,
                    },
                ),
            }
        },
    }
}

/// Reading the arguments `toks` from state `m` to the end.
pub open spec fn run(m: ParseModel, toks: Seq<Seq<char>>) -> Result<CliView, CliError>
    decreases toks.len(),
{
    if toks.len() == 0 {
        finish(m)
    } else {
        match step(m, toks[0]) {
            Ok(m2) => run(m2, toks.drop_first()),
            Err(e) => Err(e),
        }
    }
}

/// What a whole command line (the program name first) means.
pub open spec fn parse_spec(args: Seq<Seq<char>>) -> Result<CliView, CliError> {
    run(initial_model(), if args.len() == 0 { args } else { args.drop_first() })
}


/// The characters of `t` from `from` up to (not including) `to`.
fn sub_chars(t: &Vec<char>, from: usize, to: usize) -> (r: Vec<char>)
    requires
        from <= to <= t.len(),
    ensures
        r@ == t@.subrange(from as int, to as int),
{
    let mut r: Vec<char> = Vec::new();
    let mut i = from;
    while i < to
        invariant
            from <= i <= to <= t.len(),
            r@ == t@.subrange(from as int, i as int),
        decreases to - i,
    {
        r.push(t[i]);
        i = i + 1;
        assert(r@ =~= t@.subrange(from as int, i as int));
    }
    r
}

/// A copy of a character sequence.
fn copy_chars(t: &Vec<char>) -> (r: Vec<char>)
    ensures
        r@ == t@,
{
    let r = sub_chars(t, 0, t.len());
    assert(t@.subrange(0, t.len() as int) =~= t@);
    r
}

fn is_output_format_exec(v: &Vec<char>) -> (b: bool)
    ensures
        b == is_output_format(v@),
{
    chars_eq_str(v, "human") || chars_eq_str(v, "json") || chars_eq_str(v, "compact")
        || chars_eq_str(v, "short")
}

fn subcommand_exec(level: Level, t: &Vec<char>) -> (r: Option<Level>)
    ensures
        r == subcommand_of(level, t@),
{
    match level {
        Level::Top => if chars_eq_str(t, "decode") {
            Some(Level::Decode)
        } else if chars_eq_str(t, "clean") {
            Some(Level::Clean)
        } else if chars_eq_str(t, "db") {
            Some(Level::Db)
        } else if chars_eq_str(t, "serve") {
            Some(Level::Serve)
        } else if chars_eq_str(t, "inspect") {
            Some(Level::Inspect)
        } else if chars_eq_str(t, "trace") {
            Some(Level::Trace)
        } else if chars_eq_str(t, "profile") {
            Some(Level::Profile)
        } else if chars_eq_str(t, "diff") {
            Some(Level::Diff)
        } else if chars_eq_str(t, "replay") {
            Some(Level::Replay)
        } else if chars_eq_str(t, "whatif") {
            Some(Level::Whatif)
        } else if chars_eq_str(t, "export") {
            Some(Level::Export)
        } else {
            None
        },
        Level::Db => if chars_eq_str(t, "update") {
            Some(Level::DbUpdate)
        } else if chars_eq_str(t, "stats") {
            Some(Level::DbStats)
        } else if chars_eq_str(t, "search") {
            Some(Level::DbSearch)
        } else {
            None
        },
        _ => None,
    }
}

fn has_subcommands_exec(level: Level) -> (b: bool)
    ensures
        b == has_subcommands(level),
{
    match level {
        Level::Top | Level::Db => true,
        _ => false,
    }
}

fn long_arg_exec(level: Level, name: &Vec<char>) -> (r: Option<ArgKind>)
    ensures
        r == long_arg(level, name@),
{
    let is_decode = match level {
        Level::Decode => true,
        _ => false,
    };
    let is_serve = match level {
        Level::Serve => true,
        _ => false,
    };
    let is_replay = match level {
        Level::Replay => true,
        _ => false,
    };
    let is_whatif = match level {
        Level::Whatif => true,
        _ => false,
    };
    let is_export = match level {
        Level::Export => true,
        _ => false,
    };
    if chars_eq_str(name, "help") {
        Some(ArgKind::Switch(Switch::Help))
    } else if chars_eq_str(name, "verbose") {
        Some(ArgKind::Switch(Switch::Verbose))
    } else if chars_eq_str(name, "output") {
        Some(ArgKind::Value(ValueOption::Output))
    } else if chars_eq_str(name, "network") {
        Some(ArgKind::Value(ValueOption::Network))
    } else if is_decode && chars_eq_str(name, "raw") {
        Some(ArgKind::Switch(Switch::Raw))
    } else if is_decode && chars_eq_str(name, "short") {
        Some(ArgKind::Switch(Switch::Short))
    } else if is_serve && chars_eq_str(name, "port") {
        Some(ArgKind::Value(ValueOption::Port))
    } else if is_serve && chars_eq_str(name, "host") {
        Some(ArgKind::Value(ValueOption::Host))
    } else if is_replay && chars_eq_str(name, "interactive") {
        Some(ArgKind::Switch(Switch::Interactive))
    } else if is_whatif && chars_eq_str(name, "modify") {
        Some(ArgKind::Value(ValueOption::Modify))
    } else if is_export && chars_eq_str(name, "format") {
        Some(ArgKind::Value(ValueOption::Format))
    } else {
        None
    }
}

fn short_arg_exec(level: Level, c: char) -> (r: Option<ArgKind>)
    ensures
        r == short_arg(level, c),
{
    let is_serve = match level {
        Level::Serve => true,
        _ => false,
    };
    let is_replay = match level {
        Level::Replay => true,
        _ => false,
    };
    if c == 'h' {
        Some(ArgKind::Switch(Switch::Help))
    } else if c == 'v' {
        Some(ArgKind::Switch(Switch::Verbose))
    } else if c == 'n' {
        Some(ArgKind::Value(ValueOption::Network))
    } else if is_serve && c == 'p' {
        Some(ArgKind::Value(ValueOption::Port))
    } else if is_replay && c == 'i' {
        Some(ArgKind::Switch(Switch::Interactive))
    } else {
        None
    }
}

/// The name and attached value of a long flag.
fn split_long(t: &Vec<char>) -> (r: (Vec<char>, Option<Vec<char>>))
    requires
        is_long_token(t@),
    ensures
        r.0@ == long_name(t@),
        match long_value(t@) {
            Some(v) => r.1 is Some && r.1->0@ == v,
            None => r.1 is None,
        },
{
    let ghost rem = t@.skip(2);
    let mut k: usize = 2;
    while k < t.len() && t[k] != '='
        invariant
            2 <= k <= t.len(),
            rem == t@.skip(2),
            find_eq(rem, 0) == find_eq(rem, k - 2),
        decreases t.len() - k,
    {
        assert(rem[k - 2] == t@[k as int]);
        k = k + 1;
    }
    if k < t.len() {
        assert(rem[k - 2] == t@[k as int]);
    }
    assert(find_eq(rem, 0) == k - 2);
    let name = sub_chars(t, 2, k);
    assert(rem.take(k - 2) =~= t@.subrange(2, k as int));
    if k < t.len() {
        let value = sub_chars(t, k + 1, t.len());
        assert(rem.skip(k - 2 + 1) =~= t@.subrange(k + 1, t.len() as int));
        (name, Some(value))
    } else {
        (name, None)
    }
}

/// `min(x, 65536)`: large enough to tell every too-large port apart.
spec fn capped(x: nat) -> nat {
    if x > 65536 {
        65536
    } else {
        x
    }
}

proof fn lemma_capped_step(x: nat, d: nat)
    requires
        d < 10,
    ensures
        capped(x * 10 + d) == capped(capped(x) * 10 + d),
{
}

fn port_value_exec(s: &Vec<char>) -> (r: Option<u16>)
    ensures
        r == port_value(s@),
{
    let n = s.len();
    let neg = n > 0 && s[0] == '-';
    let start: usize = if n > 0 && (s[0] == '-' || s[0] == '+') {
        1
    } else {
        0
    };
    let ghost body = unsigned_part(s@);
    assert(body =~= s@.subrange(start as int, n as int));
    if start >= n {
        assert(body.len() == 0);
        return None;
    }
    let mut val: u64 = 0;
    let mut i: usize = start;
    while i < n
        invariant
            start <= i <= n == s@.len(),
            body == s@.subrange(start as int, n as int),
            body == unsigned_part(s@),
            forall|j: int| start <= j < i ==> is_digit(#[trigger] s@[j]),
            val == capped(digits_value(s@.subrange(start as int, i as int))),
        decreases n - i,
    {
        let c = s[i];
        if !('0' <= c && c <= '9') {
            assert(body[i - start] == c);
            assert(!is_digit(body[i - start]));
            return None;
        }
        let d: u64 = (c as u32 - 48) as u64;
        let ghost prefix = s@.subrange(start as int, i as int);
        let ghost next = s@.subrange(start as int, i + 1);
        assert(next.drop_last() =~= prefix);
        assert(next.last() == c);
        proof {
            lemma_capped_step(digits_value(prefix), d as nat);
        }
        val = if val >= 65536 {
            65536
        } else {
            let w = val * 10 + d;
            if w > 65536 {
                65536
            } else {
                w
            }
        };
        i = i + 1;
    }
    assert forall|j: int| 0 <= j < body.len() implies is_digit(#[trigger] body[j]) by {
        assert(body[j] == s@[start + j]);
    }
    assert(s@.subrange(start as int, n as int) == body);
    if val > 65535 {
        return None;
    }
    if neg && val != 0 {
        return None;
    }
    Some(val as u16)
}

/// `Some(v@)` for `Some(v)`.
pub open spec fn opt_chars(o: Option<Vec<char>>) -> Option<Seq<char>> {
    match o {
        Some(v) => Some(v@),
        None => None,
    }
}

/// Whether an exec step with result `r`, leaving the state `after`, did what
/// the grammar prescribes.
pub open spec fn follows(r: Result<(), CliError>, after: ParseModel, expected: Result<ParseModel, CliError>) -> bool {
    match expected {
        Ok(m) => r is Ok && after == m,
        Err(e) => r == Err::<(), CliError>(e),
    }
}

/// The state of the parser, holding what the grammar's state holds.
struct ParseState {
    mode: Mode,
    level: Level,
    pending: Option<ValueOption>,
    trailing: bool,
    output: Option<Vec<char>>,
    network: Option<Vec<char>>,
    verbose: u8,
    here_output: bool,
    here_network: bool,
    here_verbose: u8,
    positional: Option<Vec<char>>,
    raw: bool,
    short: bool,
    port: Option<u16>,
    host: Option<Vec<char>>,
    interactive: bool,
    modify: Option<Vec<char>>,
    format: Option<Vec<char>>,
}

impl ParseState {
    spec fn model(&self) -> ParseModel {
        ParseModel {
            mode: self.mode,
            level: self.level,
            pending: self.pending,
            trailing: self.trailing,
            output: opt_chars(self.output),
            network: opt_chars(self.network),
            verbose: self.verbose,
            here_output: self.here_output,
            here_network: self.here_network,
            here_verbose: self.here_verbose,
            positional: opt_chars(self.positional),
            raw: self.raw,
            short: self.short,
            port: self.port,
            host: opt_chars(self.host),
            interactive: self.interactive,
            modify: opt_chars(self.modify),
            format: opt_chars(self.format),
        }
    }

    fn new() -> (s: Self)
        ensures
            s.model() == initial_model(),
    {
        ParseState {
            mode: Mode::Normal,
            level: Level::Top,
            pending: None,
            trailing: false,
            output: None,
            network: None,
            verbose: 0,
            here_output: false,
            here_network: false,
            here_verbose: 0,
            positional: None,
            raw: false,
            short: false,
            port: None,
            host: None,
            interactive: false,
            modify: None,
            format: None,
        }
    }

    fn enter(&mut self, level: Level)
        ensures
            final(self).model() == enter_level(old(self).model(), level),
    {
        self.level = level;
        self.pending = None;
        self.trailing = false;
        self.here_output = false;
        self.here_network = false;
        self.here_verbose = 0;
        self.positional = None;
        self.raw = false;
        self.short = false;
        self.port = None;
        self.host = None;
        self.interactive = false;
        self.modify = None;
        self.format = None;
    }

    fn set_value(&mut self, o: ValueOption, v: Vec<char>) -> (r: Result<(), CliError>)
        ensures
            follows(r, final(self).model(), set_value(old(self).model(), o, v@)),
    {
        match o {
            ValueOption::Output => {
                if self.here_output {
                    return Err(CliError::RepeatedArgument);
                }
                if !is_output_format_exec(&v) {
                    return Err(CliError::InvalidValue);
                }
                self.output = Some(v);
                self.here_output = true;
                Ok(())
            },
            ValueOption::Network => {
                if self.here_network {
                    return Err(CliError::RepeatedArgument);
                }
                self.network = Some(v);
                self.here_network = true;
                Ok(())
            },
            ValueOption::Port => {
                if self.port.is_some() {
                    return Err(CliError::RepeatedArgument);
                }
                match port_value_exec(&v) {
                    Some(p) => {
                        self.port = Some(p);
                        Ok(())
                    },
                    None => Err(CliError::InvalidValue),
                }
            },
            ValueOption::Host => {
                if self.host.is_some() {
                    return Err(CliError::RepeatedArgument);
                }
                self.host = Some(v);
                Ok(())
            },
            ValueOption::Modify => {
                if self.modify.is_some() {
                    return Err(CliError::RepeatedArgument);
                }
                self.modify = Some(v);
                Ok(())
            },
            ValueOption::Format => {
                if self.format.is_some() {
                    return Err(CliError::RepeatedArgument);
                }
                self.format = Some(v);
                Ok(())
            },
        }
    }

    fn apply_switch(&mut self, s: Switch) -> (r: Result<(), CliError>)
        ensures
            follows(r, final(self).model(), apply_switch(old(self).model(), s)),
    {
        match s {
            Switch::Help => Err(CliError::HelpRequested),
            Switch::Verbose => {
                let c = if self.here_verbose == u8::MAX {
                    self.here_verbose
                } else {
                    self.here_verbose + 1
                };
                self.here_verbose = c;
                self.verbose = c;
                Ok(())
            },
            Switch::Raw => {
                if self.raw {
                    return Err(CliError::RepeatedArgument);
                }
                self.raw = true;
                Ok(())
            },
            Switch::Short => {
                if self.short {
                    return Err(CliError::RepeatedArgument);
                }
                self.short = true;
                Ok(())
            },
            Switch::Interactive => {
                if self.interactive {
                    return Err(CliError::RepeatedArgument);
                }
                self.interactive = true;
                Ok(())
            },
        }
    }

    /// Reads the letters of the short-flag cluster `t` (which starts with `-`).
    fn short_cluster(&mut self, t: &Vec<char>) -> (r: Result<(), CliError>)
        requires
            t.len() >= 1,
        ensures
            follows(r, final(self).model(), short_cluster(old(self).model(), t@.drop_first())),
    {
        let ghost goal = short_cluster(old(self).model(), t@.drop_first());
        let mut i: usize = 1;
        assert(t@.skip(1) =~= t@.drop_first());
        while i < t.len()
            invariant
                1 <= i <= t.len(),
                goal == short_cluster(old(self).model(), t@.drop_first()),
                goal == short_cluster(self.model(), t@.skip(i as int)),
            decreases t.len() - i,
        {
            let ghost cs = t@.skip(i as int);
            assert(cs[0] == t@[i as int]);
            assert(cs.drop_first() =~= t@.skip(i + 1));
            match short_arg_exec(self.level, t[i]) {
                None => {
                    return Err(CliError::UnknownArgument);
                },
                Some(ArgKind::Switch(s)) => {
                    let r = self.apply_switch(s);
                    if r.is_err() {
                        return r;
                    }
                },
                Some(ArgKind::Value(o)) => {
                    if i + 1 == t.len() {
                        assert(cs.drop_first().len() == 0);
                        self.pending = Some(o);
                        return Ok(());
                    }
                    let ghost rest = cs.drop_first();
                    let v = if t[i + 1] == '=' {
                        let v = sub_chars(t, i + 2, t.len());
                        assert(v@ =~= strip_eq(rest));
                        v
                    } else {
                        let v = sub_chars(t, i + 1, t.len());
                        assert(v@ =~= strip_eq(rest));
                        v
                    };
                    return self.set_value(o, v);
                },
            }
            i = i + 1;
        }
        assert(t@.skip(i as int).len() == 0);
        Ok(())
    }

    fn long_flag(&mut self, t: &Vec<char>) -> (r: Result<(), CliError>)
        requires
            is_long_token(t@),
        ensures
            follows(r, final(self).model(), long_flag(old(self).model(), t@)),
    {
        let (name, value) = split_long(t);
        match long_arg_exec(self.level, &name) {
            None => Err(CliError::UnknownArgument),
            Some(ArgKind::Switch(s)) => {
                if value.is_some() {
                    Err(CliError::UnexpectedValue)
                } else {
                    self.apply_switch(s)
                }
            },
            Some(ArgKind::Value(o)) => match value {
                Some(v) => self.set_value(o, v),
                None => {
                    self.pending = Some(o);
                    Ok(())
                },
            },
        }
    }

    fn positional_arg(&mut self, t: &Vec<char>) -> (r: Result<(), CliError>)
        ensures
            follows(r, final(self).model(), positional_arg(old(self).model(), t@)),
    {
        match self.level {
            Level::Decode | Level::DbSearch | Level::Inspect | Level::Trace | Level::Profile
            | Level::Diff | Level::Replay | Level::Whatif | Level::Export => {
                if self.positional.is_some() {
                    return Err(CliError::UnexpectedArgument);
                }
                self.positional = Some(copy_chars(t));
                Ok(())
            },
            Level::Top | Level::Db => Err(CliError::UnrecognizedSubcommand),
            _ => Err(CliError::UnexpectedArgument),
        }
    }

    fn step(&mut self, t: &Vec<char>) -> (r: Result<(), CliError>)
        ensures
            follows(r, final(self).model(), step(old(self).model(), t@)),
    {
        match self.mode {
            Mode::HelpPath(lv) => {
                if has_subcommands_exec(lv) && chars_eq_str(t, "help") {
                    self.mode = Mode::HelpPath(Level::Clean);
                    return Ok(());
                }
                match subcommand_exec(lv, t) {
                    Some(sub) => {
                        self.mode = Mode::HelpPath(sub);
                        Ok(())
                    },
                    None => Err(CliError::UnrecognizedSubcommand),
                }
            },
            Mode::Normal => {
                if self.trailing {
                    return self.positional_arg(t);
                }
                if self.pending.is_none() && has_subcommands_exec(self.level) && chars_eq_str(
                    t,
                    "help",
                ) {
                    self.mode = Mode::HelpPath(self.level);
                    return Ok(());
                }
                if self.pending.is_none() {
                    if let Some(sub) = subcommand_exec(self.level, t) {
                        self.enter(sub);
                        return Ok(());
                    }
                }
                let n = t.len();
                if n == 2 && t[0] == '-' && t[1] == '-' {
                    if self.pending.is_some() {
                        return Err(CliError::MissingValue);
                    }
                    self.trailing = true;
                    return Ok(());
                }
                if n > 2 && t[0] == '-' && t[1] == '-' {
                    if self.pending.is_some() {
                        return Err(CliError::MissingValue);
                    }
                    return self.long_flag(t);
                }
                if n >= 2 && t[0] == '-' && t[1] != '-' {
                    if self.pending.is_some() {
                        return Err(CliError::MissingValue);
                    }
                    return self.short_cluster(t);
                }
                match self.pending {
                    Some(o) => {
                        self.pending = None;
                        self.set_value(o, copy_chars(t))
                    },
                    None => self.positional_arg(t),
                }
            },
        }
    }

    fn finish(self) -> (r: Result<Cli, CliError>)
        ensures
            match finish(self.model()) {
                Ok(v) => r is Ok && r->Ok_0@ == v,
                Err(e) => r is Err && r->Err_0 == e,
            },
    {
        if let Mode::HelpPath(_) = self.mode {
            return Err(CliError::HelpRequested);
        }
        if self.pending.is_some() {
            return Err(CliError::MissingValue);
        }
        let command = match self.level {
            Level::Top | Level::Db => {
                return Err(CliError::MissingSubcommand);
            },
            Level::Decode => match &self.positional {
                Some(h) => Commands::Decode(
                    DecodeArgs { tx_hash: string_from_chars(h), raw: self.raw, short: self.short },
                ),
                None => {
                    return Err(CliError::MissingRequiredArgument);
                },
            },
            Level::Inspect | Level::Trace | Level::Profile | Level::Diff | Level::Replay
            | Level::Whatif | Level::Export => match &self.positional {
                Some(h) => {
                    let tx_hash = string_from_chars(h);
                    match self.level {
                        Level::Inspect => Commands::Inspect(InspectArgs { tx_hash }),
                        Level::Trace => Commands::Trace(TraceArgs { tx_hash }),
                        Level::Profile => Commands::Profile(ProfileArgs { tx_hash }),
                        Level::Diff => Commands::Diff(DiffArgs { tx_hash }),
                        Level::Replay => Commands::Replay(
                            ReplayArgs { tx_hash, interactive: self.interactive },
                        ),
                        Level::Whatif => Commands::Whatif(
                            WhatifArgs {
                                tx_hash,
                                modify: match &self.modify {
                                    Some(p) => Some(string_from_chars(p)),
                                    None => None,
                                },
                            },
                        ),
                        _ => Commands::Export(
                            ExportArgs {
                                tx_hash,
                                format: match &self.format {
                                    Some(f) => Some(string_from_chars(f)),
                                    None => None,
                                },
                            },
                        ),
                    }
                },
                None => {
                    return Err(CliError::MissingRequiredArgument);
                },
            },
            Level::Clean => Commands::Clean(CleanArgs),
            Level::DbUpdate => Commands::Db(DbArgs { command: DbCommands::Update }),
            Level::DbStats => Commands::Db(DbArgs { command: DbCommands::Stats }),
            Level::DbSearch => match &self.positional {
                Some(q) => Commands::Db(
                    DbArgs { command: DbCommands::Search { query: string_from_chars(q) } },
                ),
                None => {
                    return Err(CliError::MissingRequiredArgument);
                },
            },
            Level::Serve => Commands::Serve(
                ServeArgs {
                    port: match self.port {
                        Some(p) => p,
                        None => 8080,
                    },
                    host: match &self.host {
                        Some(h) => string_from_chars(h),
                        None => "127.0.0.1".to_owned(),
                    },
                },
            ),
        };
        let output = match &self.output {
            Some(o) => string_from_chars(o),
            None => "human".to_owned(),
        };
        let network = match &self.network {
            Some(n) => string_from_chars(n),
            None => "testnet".to_owned(),
        };
        Ok(Cli { command, output, network, verbose: self.verbose })
    }
}

/// The arguments as mathematical strings.
pub open spec fn args_view(args: Seq<String>) -> Seq<Seq<char>> {
    args.map_values(|a: String| a@)
}

impl Cli {
    /// Parses a command line given as strings, the program name first.
    pub fn parse_args(args: &Vec<String>) -> (r: Result<Cli, CliError>)
        ensures
            match parse_spec(args_view(args@)) {
                Ok(v) => r is Ok && r->Ok_0@ == v,
                Err(e) => r is Err && r->Err_0 == e,
            },
    {
        let ghost all = args_view(args@);
        let ghost toks = if all.len() == 0 {
            all
        } else {
            all.drop_first()
        };
        let mut state = ParseState::new();
        let mut i: usize = if args.len() == 0 {
            0
        } else {
            1
        };
        assert(toks =~= all.skip(i as int));
        while i < args.len()
            invariant
                i <= args.len(),
                all == args_view(args@),
                parse_spec(all) == run(state.model(), all.skip(i as int)),
            decreases args.len() - i,
        {
            let t = chars_of(args[i].as_str());
            let ghost rest = all.skip(i as int);
            assert(rest[0] == t@);
            assert(rest.drop_first() =~= all.skip(i + 1));
            let r = state.step(&t);
            if let Err(e) = r {
                return Err(e);
            }
            i = i + 1;
        }
        assert(all.skip(i as int).len() == 0);
        state.finish()
    }

    /// Parses a command line given as string slices, the program name first.
    pub fn try_parse_from<const N: usize>(args: [&str; N]) -> (r: Result<Cli, CliError>)
        ensures
            match parse_spec(args@.map_values(|a: &str| a@)) {
                Ok(v) => r is Ok && r->Ok_0@ == v,
                Err(e) => r is Err && r->Err_0 == e,
            },
    {
        let mut owned: Vec<String> = Vec::new();
        let mut i: usize = 0;
        while i < N
            invariant
                i <= N,
                N == args@.len(),
                owned@.len() == i,
                forall|j: int| 0 <= j < i ==> #[trigger] owned@[j]@ == args@[j]@,
            decreases N - i,
        {
            owned.push(args[i].to_owned());
            i = i + 1;
        }
        assert(args_view(owned@) =~= args@.map_values(|a: &str| a@));
        Cli::parse_args(&owned)
    }
}

} // verus!
