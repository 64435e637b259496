use sqview::cli::{
    parse_database_path, print_path_line, should_watch_database, terminal_background_osc, terminal_report, Cli,
    CliCommand, RunMode,
};
use sqview::theme::Theme;

#[test]
fn open_mode_routes_runtime_flags() {
    let cli = Cli { path: Some(":memory:".to_string()), readonly: true, no_watch: true, command: None };
    match cli.into_run_mode() {
        RunMode::Open(o) => {
            assert_eq!(o.path, ":memory:");
            assert!(o.readonly);
            assert!(!o.watch);
        },
        _ => panic!("expected open mode"),
    }
}

#[test]
fn paths_subcommand_routes_without_db_path() {
    let cli = Cli { path: None, readonly: false, no_watch: false, command: Some(CliCommand::Paths) };
    assert!(matches!(cli.into_run_mode(), RunMode::Paths));
    let cli = Cli { path: None, readonly: false, no_watch: false, command: Some(CliCommand::CheckTerminal) };
    assert!(matches!(cli.into_run_mode(), RunMode::CheckTerminal));
}

#[test]
fn watch_helper_skips_memory_and_opt_out() {
    assert!(!should_watch_database(":memory:", true));
    assert!(!should_watch_database("demo.db", false));
    assert!(should_watch_database("demo.db", true));
}

#[test]
fn terminal_background_osc_uses_theme_background() {
    let theme = Theme::default();
    assert_eq!(terminal_background_osc(&theme), Some("\u{1b}]11;#23211f\u{7}".to_string()));
}

#[test]
fn missing_database_file_is_rejected() {
    let err = parse_database_path("/nowhere/missing.db", false).unwrap_err();
    assert!(err.contains("does not exist"));
    assert_eq!(err, "database file '/nowhere/missing.db' does not exist");
    assert_eq!(parse_database_path(":memory:", false), Ok(":memory:".to_string()));
    assert_eq!(parse_database_path("demo.db", true), Ok("demo.db".to_string()));
}

#[test]
fn paths_report_unavailable_locations() {
    assert_eq!(print_path_line("config", Some("/c/config.toml")), "config: /c/config.toml");
    assert_eq!(print_path_line("data", None), "data: unavailable");
}

#[test]
fn terminal_report_reads_the_environment_values() {
    let r = terminal_report("TrueColor", "WezTerm", "xterm-256color");
    assert!(r.starts_with("Terminal capabilities:\n  COLORTERM: truecolor ✓\n  TERM_PROGRAM: WezTerm\n"));
    assert!(r.contains("  Mouse support: yes (from TERM)\n"));
    let r = terminal_report("unknown", "", "dumb");
    assert!(r.contains("  COLORTERM: unknown\n"));
    assert!(r.contains("  TERM_PROGRAM: unknown\n"));
    assert!(r.contains("  Mouse support: unknown (from TERM)\n"));
    assert!(r.ends_with("icons look wrong)\n"));
}
