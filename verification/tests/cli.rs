use prism::cli::{Cli, CliError, Commands};
use prism::db::DbCommands;
use prism::logging::{build_log_filter, shows_source_locations};
use prism::version::build_version;

#[test]
fn parses_short_verbose_flag() {
    let cli = Cli::try_parse_from(["prism", "-v", "db", "update"]).expect("cli should parse");
    assert_eq!(cli.verbose, 1);
}

#[test]
fn parses_repeated_verbose_flags_as_trace() {
    let cli = Cli::try_parse_from(["prism", "-vv", "db", "update"]).expect("cli should parse");
    assert_eq!(cli.verbose, 2);
    assert!(build_log_filter(cli.verbose)
        .to_string()
        .contains("prism=trace"));
}

#[test]
fn parses_long_verbose_flag_after_subcommand() {
    let cli = Cli::try_parse_from(["prism", "decode", "--verbose", "abc123"])
        .expect("cli should parse");
    assert_eq!(cli.verbose, 1);
}

#[test]
fn parses_short_output_alias() {
    let cli = Cli::try_parse_from(["prism", "--output", "short", "decode", "abc123"])
        .expect("cli should parse");
    assert_eq!(cli.output, "short");
}

#[test]
fn defaults_to_warn_without_verbose() {
    let warn = build_log_filter(0).to_string();
    let debug = build_log_filter(1).to_string();
    let trace = build_log_filter(2).to_string();

    assert!(warn.contains("prism=warn"));
    assert!(debug.contains("prism=debug"));
    assert!(trace.contains("prism=trace"));
    assert!(trace.contains("prism_core=trace"));
}

#[test]
fn version_string_includes_build_hash_and_protocol() {
    let protocol = soroban_env_host::meta::INTERFACE_VERSION.protocol;
    let version = build_version("0.1.0", "3f2a9c1", protocol);

    assert!(version.contains("0.1.0"));
    assert!(version.contains("3f2a9c1"));
    assert!(version.contains(&protocol.to_string()));
}

#[test]
fn version_string_exact_layout() {
    assert_eq!(
        build_version("0.1.0", "3f2a9c1", 22),
        "prism 0.1.0 (build: 3f2a9c1) | Soroban Protocol: 22"
    );
}

#[test]
fn log_filter_keeps_warn_for_other_targets() {
    assert_eq!(build_log_filter(0), "warn,prism=warn,prism_core=warn");
    assert_eq!(build_log_filter(1), "warn,prism=debug,prism_core=debug");
    assert_eq!(build_log_filter(7), "warn,prism=trace,prism_core=trace");
    assert!(!shows_source_locations(1));
    assert!(shows_source_locations(2));
}

#[test]
fn defaults_for_output_and_network() {
    let cli = Cli::try_parse_from(["prism", "clean"]).expect("cli should parse");
    assert_eq!(cli.output, "human");
    assert_eq!(cli.network, "testnet");
    assert_eq!(cli.verbose, 0);
    assert!(matches!(cli.command, Commands::Clean(_)));
}

#[test]
fn decode_arguments_and_switches() {
    let cli = Cli::try_parse_from(["prism", "decode", "--raw", "AAAA", "--short"])
        .expect("cli should parse");
    match cli.command {
        Commands::Decode(args) => {
            assert_eq!(args.tx_hash, "AAAA");
            assert!(args.raw);
            assert!(args.short);
        }
        _ => panic!("expected decode"),
    }
}

#[test]
fn deepest_output_wins() {
    let cli = Cli::try_parse_from(["prism", "--output", "json", "decode", "--output", "compact", "h"])
        .expect("cli should parse");
    assert_eq!(cli.output, "compact");
}

#[test]
fn verbose_count_comes_from_the_deepest_level() {
    let cli = Cli::try_parse_from(["prism", "-vvv", "decode", "-v", "h"]).expect("cli should parse");
    assert_eq!(cli.verbose, 1);
    let cli = Cli::try_parse_from(["prism", "-vvv", "decode", "h"]).expect("cli should parse");
    assert_eq!(cli.verbose, 3);
}

#[test]
fn network_short_forms() {
    let cli = Cli::try_parse_from(["prism", "-n", "mainnet", "clean"]).unwrap();
    assert_eq!(cli.network, "mainnet");
    let cli = Cli::try_parse_from(["prism", "-nfuturenet", "clean"]).unwrap();
    assert_eq!(cli.network, "futurenet");
    let cli = Cli::try_parse_from(["prism", "-vn=https://rpc.example", "clean"]).unwrap();
    assert_eq!(cli.network, "https://rpc.example");
    assert_eq!(cli.verbose, 1);
    let cli = Cli::try_parse_from(["prism", "--network=a=b", "clean"]).unwrap();
    assert_eq!(cli.network, "a=b");
}

#[test]
fn db_subcommands() {
    let cli = Cli::try_parse_from(["prism", "db", "search", "budget"]).unwrap();
    match cli.command {
        Commands::Db(args) => match args.command {
            DbCommands::Search { query } => assert_eq!(query, "budget"),
            _ => panic!("expected search"),
        },
        _ => panic!("expected db"),
    }
    let cli = Cli::try_parse_from(["prism", "db", "stats"]).unwrap();
    assert!(matches!(cli.command, Commands::Db(ref a) if matches!(a.command, DbCommands::Stats)));
}

#[test]
fn serve_port_and_host() {
    let cli = Cli::try_parse_from(["prism", "serve"]).unwrap();
    match cli.command {
        Commands::Serve(args) => {
            assert_eq!(args.port, 8080);
            assert_eq!(args.host, "127.0.0.1");
        }
        _ => panic!("expected serve"),
    }
    let cli = Cli::try_parse_from(["prism", "serve", "-p", "9000", "--host", "0.0.0.0"]).unwrap();
    match cli.command {
        Commands::Serve(args) => {
            assert_eq!(args.port, 9000);
            assert_eq!(args.host, "0.0.0.0");
        }
        _ => panic!("expected serve"),
    }
    let cli = Cli::try_parse_from(["prism", "serve", "--port=+080"]).unwrap();
    assert!(matches!(cli.command, Commands::Serve(ref a) if a.port == 80));
    let cli = Cli::try_parse_from(["prism", "serve", "--port=-0"]).unwrap();
    assert!(matches!(cli.command, Commands::Serve(ref a) if a.port == 0));
}

#[test]
fn refused_command_lines() {
    let err = |args: &[&str]| {
        let owned: Vec<String> = args.iter().map(|s| s.to_string()).collect();
        Cli::parse_args(&owned).err()
    };
    assert_eq!(err(&["prism"]), Some(CliError::MissingSubcommand));
    assert_eq!(err(&["prism", "db"]), Some(CliError::MissingSubcommand));
    assert_eq!(err(&["prism", "decode"]), Some(CliError::MissingRequiredArgument));
    assert_eq!(err(&["prism", "db", "search"]), Some(CliError::MissingRequiredArgument));
    assert_eq!(err(&["prism", "frobnicate"]), Some(CliError::UnrecognizedSubcommand));
    assert_eq!(err(&["prism", "--output", "xml", "clean"]), Some(CliError::InvalidValue));
    assert_eq!(err(&["prism", "--output"]), Some(CliError::MissingValue));
    assert_eq!(err(&["prism", "--output", "-v", "clean"]), Some(CliError::MissingValue));
    assert_eq!(err(&["prism", "--network", "a", "--network", "b", "clean"]), Some(CliError::RepeatedArgument));
    assert_eq!(err(&["prism", "decode", "--raw", "--raw", "h"]), Some(CliError::RepeatedArgument));
    assert_eq!(err(&["prism", "decode", "--raw=yes", "h"]), Some(CliError::UnexpectedValue));
    assert_eq!(err(&["prism", "decode", "h", "extra"]), Some(CliError::UnexpectedArgument));
    assert_eq!(err(&["prism", "clean", "--raw"]), Some(CliError::UnknownArgument));
    assert_eq!(err(&["prism", "-x", "clean"]), Some(CliError::UnknownArgument));
    assert_eq!(err(&["prism", "serve", "--port", "70000"]), Some(CliError::InvalidValue));
    assert_eq!(err(&["prism", "serve", "--port=-1"]), Some(CliError::InvalidValue));
    assert_eq!(err(&["prism", "serve", "--port="]), Some(CliError::InvalidValue));
}

#[test]
fn help_is_answered() {
    let err = |args: &[&str]| {
        let owned: Vec<String> = args.iter().map(|s| s.to_string()).collect();
        Cli::parse_args(&owned).err()
    };
    assert_eq!(err(&["prism", "--help"]), Some(CliError::HelpRequested));
    assert_eq!(err(&["prism", "-h", "bogus"]), Some(CliError::HelpRequested));
    assert_eq!(err(&["prism", "decode", "-vh"]), Some(CliError::HelpRequested));
    assert_eq!(err(&["prism", "help"]), Some(CliError::HelpRequested));
    assert_eq!(err(&["prism", "help", "db", "update"]), Some(CliError::HelpRequested));
    assert_eq!(err(&["prism", "help", "bogus"]), Some(CliError::UnrecognizedSubcommand));
}

#[test]
fn double_dash_makes_the_rest_positional() {
    let cli = Cli::try_parse_from(["prism", "decode", "--", "-abc"]).unwrap();
    match cli.command {
        Commands::Decode(args) => assert_eq!(args.tx_hash, "-abc"),
        _ => panic!("expected decode"),
    }
    let cli = Cli::try_parse_from(["prism", "decode", "help"]).unwrap();
    assert!(matches!(cli.command, Commands::Decode(ref a) if a.tx_hash == "help"));
}

#[test]
fn global_options_mean_the_same_in_each_place() {
    let places = [
        ["prism", "--output", "json", "decode", "h1"],
        ["prism", "decode", "--output", "json", "h1"],
        ["prism", "decode", "h1", "--output", "json"],
    ];
    for args in places {
        let cli = Cli::try_parse_from(args).unwrap();
        assert_eq!(cli.output, "json");
        assert!(matches!(cli.command, Commands::Decode(ref a) if a.tx_hash == "h1"));
    }
    for args in [["prism", "-v", "decode", "h1"], ["prism", "decode", "-v", "h1"], ["prism", "decode", "h1", "-v"]] {
        let cli = Cli::try_parse_from(args).unwrap();
        assert_eq!(cli.verbose, 1);
        assert_eq!(cli.output, "human");
        assert_eq!(cli.network, "testnet");
    }
}

#[test]
fn verbose_count_saturates() {
    let cluster = format!("-{}", "v".repeat(300));
    let cli = Cli::parse_args(&vec!["prism".to_string(), cluster, "clean".to_string()]).unwrap();
    assert_eq!(cli.verbose, 255);
}

#[test]
fn analysis_commands_take_a_transaction_hash() {
    let cli = Cli::try_parse_from(["prism", "inspect", "h1"]).expect("cli should parse");
    assert!(matches!(cli.command, Commands::Inspect(ref a) if a.tx_hash == "h1"));
    let cli = Cli::try_parse_from(["prism", "trace", "h2", "--output", "json"]).expect("cli should parse");
    assert!(matches!(cli.command, Commands::Trace(ref a) if a.tx_hash == "h2"));
    assert_eq!(cli.output, "json");
    let cli = Cli::try_parse_from(["prism", "profile", "h3"]).expect("cli should parse");
    assert!(matches!(cli.command, Commands::Profile(ref a) if a.tx_hash == "h3"));
    let cli = Cli::try_parse_from(["prism", "-n", "mainnet", "diff", "h4"]).expect("cli should parse");
    assert!(matches!(cli.command, Commands::Diff(ref a) if a.tx_hash == "h4"));
    assert_eq!(cli.network, "mainnet");
}

#[test]
fn analysis_command_options() {
    let cli = Cli::try_parse_from(["prism", "replay", "h", "-i"]).expect("cli should parse");
    assert!(matches!(cli.command, Commands::Replay(ref a) if a.tx_hash == "h" && a.interactive));
    let cli = Cli::try_parse_from(["prism", "replay", "--interactive", "h"]).expect("cli should parse");
    assert!(matches!(cli.command, Commands::Replay(ref a) if a.interactive));
    let cli = Cli::try_parse_from(["prism", "replay", "h"]).expect("cli should parse");
    assert!(matches!(cli.command, Commands::Replay(ref a) if !a.interactive));
    let cli = Cli::try_parse_from(["prism", "whatif", "h", "--modify", "patch.json"]).expect("cli should parse");
    assert!(matches!(cli.command, Commands::Whatif(ref a) if a.modify.as_deref() == Some("patch.json")));
    let cli = Cli::try_parse_from(["prism", "whatif", "h"]).expect("cli should parse");
    assert!(matches!(cli.command, Commands::Whatif(ref a) if a.modify.is_none()));
    let cli = Cli::try_parse_from(["prism", "export", "h", "--format=test"]).expect("cli should parse");
    assert!(matches!(cli.command, Commands::Export(ref a) if a.format.as_deref() == Some("test")));
}

#[test]
fn analysis_commands_refused_and_help() {
    let err = |args: &[&str]| {
        let owned: Vec<String> = args.iter().map(|s| s.to_string()).collect();
        Cli::parse_args(&owned).err()
    };
    assert_eq!(err(&["prism", "inspect"]), Some(CliError::MissingRequiredArgument));
    assert_eq!(err(&["prism", "export", "--format", "test"]), Some(CliError::MissingRequiredArgument));
    assert_eq!(err(&["prism", "trace", "--help"]), Some(CliError::HelpRequested));
    assert_eq!(err(&["prism", "help", "whatif"]), Some(CliError::HelpRequested));
    assert_eq!(err(&["prism", "trace", "a", "b"]), Some(CliError::UnexpectedArgument));
    assert_eq!(err(&["prism", "trace", "-i", "h"]), Some(CliError::UnknownArgument));
    assert_eq!(err(&["prism", "replay", "-i", "-i", "h"]), Some(CliError::RepeatedArgument));
    assert_eq!(err(&["prism", "whatif", "h", "--modify"]), Some(CliError::MissingValue));
    assert_eq!(err(&["prism", "export", "h", "--format", "a", "--format", "b"]), Some(CliError::RepeatedArgument));
    assert_eq!(err(&["prism", "replay", "--interactive=yes", "h"]), Some(CliError::UnexpectedValue));
}
