use obs_shell::cli::{cli, parse_cli, CliArg, CliCell, CliOptions, CliOutcome};

fn flag(name: &str) -> CliArg {
    CliArg { name: name.to_string(), occurrences: 1, value: None }
}

fn valued(name: &str, value: &str) -> CliArg {
    CliArg { name: name.to_string(), occurrences: 1, value: Some(value.to_string()) }
}

fn run(args: Vec<CliArg>) -> CliOptions {
    match parse_cli(&args) {
        CliOutcome::Run(o) => o,
        CliOutcome::ShowVersion => panic!("expected options"),
    }
}

#[test]
fn no_arguments_give_defaults() {
    let o = run(vec![]);
    assert!(!o.portable_mode && !o.safe_mode && !o.multi && !o.disable_shutdown_check);
    assert_eq!(o.opt_starting_scene, None);
}

#[test]
fn flags_are_set() {
    let o = run(vec![flag("portable"), flag("safe-mode"), flag("minimize-to-tray"), flag("verbose")]);
    assert!(o.portable_mode);
    assert!(o.safe_mode);
    assert!(o.opt_minimize_tray);
    assert!(o.log_verbose);
    assert!(!o.opt_always_on_top);
}

#[test]
fn multi_disables_shutdown_check() {
    let o = run(vec![flag("multi")]);
    assert!(o.multi);
    assert!(o.disable_shutdown_check);
}

#[test]
fn unused_flag_is_ignored() {
    let o = run(vec![CliArg { name: "portable".to_string(), occurrences: 0, value: None }]);
    assert!(!o.portable_mode);
}

#[test]
fn values_are_taken() {
    let o = run(vec![valued("collection", "Main"), valued("profile", "Live"), valued("scene", "Intro")]);
    assert_eq!(o.opt_starting_collection, Some("Main".to_string()));
    assert_eq!(o.opt_starting_profile, Some("Live".to_string()));
    assert_eq!(o.opt_starting_scene, Some("Intro".to_string()));
}

#[test]
fn unknown_argument_changes_nothing() {
    let o = run(vec![flag("unknown")]);
    assert!(!o.portable_mode && !o.opt_studio_mode);
}

#[test]
fn version_stops() {
    assert!(matches!(parse_cli(&vec![flag("portable"), flag("version")]), CliOutcome::ShowVersion));
}

#[test]
fn stored_options_are_returned() {
    let mut cell = CliCell::new();
    cell.init(run(vec![flag("always-on-top")]));
    cell.init(run(vec![flag("portable")]));
    let o = cli(&cell);
    assert!(o.opt_always_on_top);
    assert!(!o.portable_mode);
}
