use vollibrespot::cli::daemon_options;
use vollibrespot::cli::decide_startup;
use vollibrespot::cli::parse_args;
use vollibrespot::cli::read_command_line;
use vollibrespot::cli::usage;
use vollibrespot::cli::CommandLine;
use vollibrespot::cli::Startup;
use vollibrespot::options::FailureKind;
use vollibrespot::options::ParseFailure;

const USAGE: &str = "Usage: daemon [options]

Options:
    -c, --config CONFIG Path to config file to read. Defaults to 'config.toml'
        --backend BACKEND
                        Audio backend to use. Use '?' to list options
        --verbose       Enable verbose output
";

fn words(args: &[&str]) -> Vec<String> {
    args.iter().map(|word| String::from(*word)).collect()
}

fn started(args: &[&str]) -> Startup {
    let mut all = vec!["daemon"];
    all.extend(args);
    parse_args(&words(&all))
}

fn runs(args: &[&str]) -> (bool, Option<String>, String) {
    match started(args) {
        Startup::Run { verbose, backend, config_file } => (verbose, backend, config_file),
        other => panic!("{:?}", other),
    }
}

fn rejected(args: &[&str]) -> String {
    match started(args) {
        Startup::Reject(message) => message,
        other => panic!("{:?}", other),
    }
}

#[test]
fn usage_describes_the_options() {
    assert_eq!(usage("daemon", &daemon_options()), USAGE);
}

#[test]
fn the_daemon_runs_with_a_configuration_file() {
    assert_eq!(runs(&[]), (false, None, String::from("config.toml")));
    assert_eq!(runs(&["-c", "a.toml"]), (false, None, String::from("a.toml")));
    assert_eq!(runs(&["-cb.toml"]), (false, None, String::from("b.toml")));
    assert_eq!(runs(&["--config=c.toml", "--verbose"]), (true, None, String::from("c.toml")));
    assert_eq!(runs(&["--", "--version"]), (false, None, String::from("config.toml")));
}

#[test]
fn a_named_backend_is_used() {
    assert_eq!(
        runs(&["--backend", "pipe", "free"]),
        (false, Some(String::from("pipe")), String::from("config.toml")),
    );
    assert_eq!(
        runs(&["-c", "d.toml", "--backend=alsa", "--verbose"]),
        (true, Some(String::from("alsa")), String::from("d.toml")),
    );
}

#[test]
fn backends_are_listed_on_request() {
    assert!(matches!(started(&["--backend", "?"]), Startup::ListBackends { verbose: false }));
    assert!(matches!(
        started(&["--verbose", "--backend=?", "-c", "x"]),
        Startup::ListBackends { verbose: true },
    ));
}

#[test]
fn the_version_is_shown_for_a_last_word_that_asks_for_it() {
    assert!(matches!(started(&["-v"]), Startup::ShowVersion));
    assert!(matches!(started(&["--verbose", "--version"]), Startup::ShowVersion));
    assert!(matches!(started(&["--nonsense", "-v"]), Startup::ShowVersion));
    assert_eq!(
        rejected(&["-v", "-c", "x"]),
        format!("error: UnrecognizedOption(\"v\")\n{}", USAGE),
    );
}

#[test]
fn bad_command_lines_are_rejected_with_the_usage() {
    assert_eq!(
        rejected(&["--non\"sense"]),
        format!("error: UnrecognizedOption(\"non\\\"sense\")\n{}", USAGE),
    );
    assert_eq!(rejected(&["-c"]), format!("error: ArgumentMissing(\"c\")\n{}", USAGE));
    assert_eq!(
        rejected(&["--verbose=yes"]),
        format!("error: UnexpectedArgument(\"verbose\")\n{}", USAGE),
    );
    assert_eq!(
        rejected(&["--verbose", "--verbose"]),
        format!("error: OptionDuplicated(\"verbose\")\n{}", USAGE),
    );
}

#[test]
fn a_missing_option_is_rejected_like_any_failure() {
    let failure = ParseFailure { kind: FailureKind::OptionMissing, option: String::from("name") };
    match decide_startup(&String::from("x"), Err(failure), String::from("usage")) {
        Startup::Reject(message) => assert_eq!(message, "error: OptionMissing(\"name\")\nusage"),
        other => panic!("{:?}", other),
    }
}

#[test]
fn options_are_read_by_either_name() {
    let opts = daemon_options();
    let line = read_command_line(&opts, &words(&["-c", "x", "--backend", "y"])).unwrap();
    assert!(!line.verbose);
    assert_eq!(line.config.as_deref(), Some("x"));
    assert_eq!(line.backend.as_deref(), Some("y"));
    let failure = read_command_line(&opts, &words(&["-x"])).unwrap_err();
    assert_eq!(failure.kind, FailureKind::UnrecognizedOption);
    assert_eq!(failure.option, "x");
}

#[test]
fn only_running_goes_on() {
    assert_eq!(started(&[]).exit_status(), None);
    assert_eq!(started(&["-v"]).exit_status(), Some(0));
    assert_eq!(started(&["--backend", "?"]).exit_status(), Some(0));
    assert_eq!(started(&["-x"]).exit_status(), Some(1));
    let line = CommandLine { verbose: true, backend: None, config: None };
    let run = decide_startup(&String::from("-v"), Ok(line), String::new());
    assert_eq!(run.exit_status(), None);
}
