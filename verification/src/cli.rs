//! What the daemon's command line asks for.
use crate::options::argument_option;
use crate::options::covers_names;
use crate::options::declare_flag;
use crate::options::declare_option;
use crate::options::first_argument;
use crate::options::flag_option;
use crate::options::given;
use crate::options::option_table;
use crate::options::parse_options;
use crate::options::parse_outcome;
use crate::options::usage_text;
use crate::options::FailureKind;
use crate::options::FailureView;
use crate::options::Given;
use crate::options::OptionTable;
use crate::options::ParseFailure;
use crate::text::debug_str;
use crate::text::debug_text;
use crate::text::texts;
use getopts::Options;
use vstd::prelude::*;
use vstd::slice::slice_subrange;
use vstd::string::*;

verus! {

/// The configuration file that is read when none is named.
pub const DEFAULT_CONFIG_FILE: &'static str = "config.toml";

/// The options that were given.
#[derive(Debug)]
pub struct CommandLine {
    /// Whether to log in detail.
    pub verbose: bool,
    /// The audio backend that was named.
    pub backend: Option<String>,
    /// The configuration file that was named.
    pub config: Option<String>,
}

/// The options that were given.
pub struct CommandLineView {
    /// Whether to log in detail.
    pub verbose: bool,
    /// The audio backend that was named.
    pub backend: Option<Seq<char>>,
    /// The configuration file that was named.
    pub config: Option<Seq<char>>,
}

/// The text of an optional string.
pub open spec fn optional_text(s: Option<String>) -> Option<Seq<char>> {
    match s {
        Some(text) => Some(text@),
        None => None,
    }
}

impl View for CommandLine {
    type V = CommandLineView;

    open spec fn view(&self) -> CommandLineView {
        CommandLineView {
            verbose: self.verbose,
            backend: optional_text(self.backend),
            config: optional_text(self.config),
        }
    }
}

/// What the daemon does once its command line is read.
#[derive(Debug)]
pub enum Startup {
    /// It shows its version and ends.
    ShowVersion,
    /// It shows this message and ends with a failure.
    Reject(String),
    /// It sets up logging, lists the audio backends and ends.
    ListBackends {
        /// Whether to log in detail.
        verbose: bool,
    },
    /// It sets up logging, shows its version and runs.
    Run {
        /// Whether to log in detail.
        verbose: bool,
        /// The audio backend to use, if one was named; it goes before the
        /// configuration's.
        backend: Option<String>,
        /// The configuration file to read.
        config_file: String,
    },
}

/// What the daemon does once its command line is read.
pub enum StartupView {
    /// It shows its version and ends.
    ShowVersion,
    /// It shows this message and ends with a failure.
    Reject(Seq<char>),
    /// It sets up logging, lists the audio backends and ends.
    ListBackends {
        /// Whether to log in detail.
        verbose: bool,
    },
    /// It sets up logging, shows its version and runs.
    Run {
        /// Whether to log in detail.
        verbose: bool,
        /// The audio backend to use, if one was named.
        backend: Option<Seq<char>>,
        /// The configuration file to read.
        config_file: Seq<char>,
    },
}

impl View for Startup {
    type V = StartupView;

    open spec fn view(&self) -> StartupView {
        match *self {
            Startup::ShowVersion => StartupView::ShowVersion,
            Startup::Reject(message) => StartupView::Reject(message@),
            Startup::ListBackends { verbose } => StartupView::ListBackends { verbose },
            Startup::Run { verbose, backend, config_file } => StartupView::Run {
                verbose,
                backend: optional_text(backend),
                config_file: config_file@,
            },
        }
    }
}

/// The options that the daemon takes.
pub open spec fn daemon_table() -> OptionTable {
    OptionTable {
        groups: seq![
            argument_option(
                "c"@,
                "config"@,
                "Path to config file to read. Defaults to 'config.toml'"@,
                "CONFIG"@,
            ),
            argument_option(
                ""@,
                "backend"@,
                "Audio backend to use. Use '?' to list options"@,
                "BACKEND"@,
            ),
            flag_option(""@, "verbose"@, "Enable verbose output"@),
        ],
        stop_at_first_free: false,
        long_only: false,
    }
}

/// The daemon's options among those that were found.
pub open spec fn command_line(found: Given) -> CommandLineView {
    CommandLineView {
        verbose: found["verbose"@].len() > 0,
        backend: first_argument(found, "backend"@),
        config: first_argument(found, "config"@),
    }
}

/// The outcome of reading the daemon's options from what parsing found.
pub open spec fn read_outcome(parsed: Result<Given, FailureView>) -> Result<
    CommandLineView,
    FailureView,
> {
    match parsed {
        Ok(found) => Ok(command_line(found)),
        Err(failure) => Err(failure),
    }
}

/// The headline of the description of the options.
pub open spec fn usage_brief(program: Seq<char>) -> Seq<char> {
    "Usage: "@ + program + " [options]"@
}

/// The name of a kind of failure.
pub open spec fn failure_name(kind: FailureKind) -> Seq<char> {
    match kind {
        FailureKind::ArgumentMissing => "ArgumentMissing"@,
        FailureKind::UnrecognizedOption => "UnrecognizedOption"@,
        FailureKind::OptionMissing => "OptionMissing"@,
        FailureKind::OptionDuplicated => "OptionDuplicated"@,
        FailureKind::UnexpectedArgument => "UnexpectedArgument"@,
    }
}

/// The message about a command line that was refused: the failure, then the
/// description of the options.
pub open spec fn rejection(failure: FailureView, usage: Seq<char>) -> Seq<char> {
    "error: "@ + failure_name(failure.kind) + "("@ + debug_text(failure.option) + ")\n"@ + usage
}

/// What a command line asks for, given its last word, what was read from it, and
/// the description of the options. A version is asked for by a last word that is
/// no option, so it counts only where the command line is refused otherwise.
pub open spec fn startup_for(
    last: Seq<char>,
    read: Result<CommandLineView, FailureView>,
    usage: Seq<char>,
) -> StartupView {
    match read {
        Err(failure) => if last == "-v"@ || last == "--version"@ {
            StartupView::ShowVersion
        } else {
            StartupView::Reject(rejection(failure, usage))
        },
        Ok(line) => if line.backend == Some("?"@) {
            StartupView::ListBackends { verbose: line.verbose }
        } else {
            StartupView::Run {
                verbose: line.verbose,
                backend: line.backend,
                config_file: match line.config {
                    Some(file) => file,
                    None => DEFAULT_CONFIG_FILE@,
                },
            }
        },
    }
}

/// The options that the daemon takes.
pub fn daemon_options() -> (r: Options)
    ensures
        option_table(r) == daemon_table(),
{
    proof {
        reveal_strlit("c");
        reveal_strlit("");
        reveal_strlit("config");
        reveal_strlit("backend");
        reveal_strlit("verbose");
    }
    let mut opts = Options::new();
    declare_option(
        &mut opts,
        "c",
        "config",
        "Path to config file to read. Defaults to 'config.toml'",
        "CONFIG",
    );
    declare_option(
        &mut opts,
        "",
        "backend",
        "Audio backend to use. Use '?' to list options",
        "BACKEND",
    );
    declare_flag(&mut opts, "", "verbose", "Enable verbose output");
    assert(option_table(opts).groups =~= daemon_table().groups);
    opts
}

/// The description of the options, for a program of that name.
pub fn usage(program: &str, opts: &Options) -> (r: String)
    ensures
        r@ == usage_text(option_table(*opts), usage_brief(program@)),
        r@ == usage_text(option_table(*opts), "Usage: "@ + program@ + " [options]"@),
{
    let mut brief = "Usage: ".to_owned();
    brief.append(program);
    brief.append(" [options]");
    opts.usage(brief.as_str())
}

/// Reads the daemon's options from its arguments.
pub fn read_command_line(opts: &Options, args: &[String]) -> (r: Result<CommandLine, ParseFailure>)
    requires
        option_table(*opts) == daemon_table(),
    ensures
        match r {
            Ok(line) => Ok(line@),
            Err(failure) => Err(failure@),
        } == read_outcome(parse_outcome(daemon_table(), texts(args@))),
        match parse_outcome(daemon_table(), texts(args@)) {
            Ok(found) => r matches Ok(line) && line.verbose == (found["verbose"@].len() > 0) && (
            match line.backend {
                Some(backend) => found["backend"@].len() > 0 && found["backend"@][0] == Some(
                    backend@,
                ),
                None => found["backend"@].len() == 0 || found["backend"@][0] is None,
            }) && (match line.config {
                Some(config) => found["config"@].len() > 0 && found["config"@][0] == Some(config@),
                None => found["config"@].len() == 0 || found["config"@][0] is None,
            }),
            Err(expected) => r matches Err(failure) && failure.kind == expected.kind
                && failure.option@ == expected.option,
        },
{
    proof {
        reveal_strlit("config");
        reveal_strlit("backend");
        reveal_strlit("verbose");
    }
    match parse_options(opts, args) {
        Ok(matches) => {
            let ghost found = given(matches);
            assert(covers_names(found, daemon_table()));
            assert(daemon_table().groups[0].long_name == "config"@);
            assert(daemon_table().groups[1].long_name == "backend"@);
            assert(daemon_table().groups[2].long_name == "verbose"@);
            let verbose = matches.opt_present("verbose");
            let backend = matches.opt_str("backend");
            let config = matches.opt_str("config");
            Ok(CommandLine { verbose, backend, config })
        },
        Err(failure) => Err(failure),
    }
}

/// The message about a command line that was refused.
fn rejection_message(failure: &ParseFailure, usage: &str) -> (r: String)
    ensures
        r@ == rejection(failure@, usage@),
{
    let name = match failure.kind {
        FailureKind::ArgumentMissing => "ArgumentMissing",
        FailureKind::UnrecognizedOption => "UnrecognizedOption",
        FailureKind::OptionMissing => "OptionMissing",
        FailureKind::OptionDuplicated => "OptionDuplicated",
        FailureKind::UnexpectedArgument => "UnexpectedArgument",
    };
    let mut message = "error: ".to_owned();
    message.append(name);
    message.append("(");
    message.append(debug_str(failure.option.as_str()).as_str());
    message.append(")\n");
    message.append(usage);
    message
}

/// Decides what a command line asks for, given its last word, what was read from
/// it, and the description of the options.
pub fn decide_startup(
    last: &String,
    read: Result<CommandLine, ParseFailure>,
    usage: String,
) -> (r: Startup)
    ensures
        r@ == startup_for(
            last@,
            match read {
                Ok(line) => Ok(line@),
                Err(failure) => Err(failure@),
            },
            usage@,
        ),
        match read {
            Ok(line) => match r {
                Startup::ListBackends { verbose } => verbose == line.verbose && (
                line.backend matches Some(name) && name@ == "?"@),
                Startup::Run { verbose, backend, config_file } => {
                    &&& verbose == line.verbose
                    &&& line.backend matches Some(name) ==> name@ != "?"@
                    &&& backend == line.backend
                    &&& line.config matches Some(file) ==> config_file == file
                    &&& line.config is None ==> config_file@ == "config.toml"@
                },
                _ => false,
            },
            Err(failure) => match r {
                Startup::ShowVersion => last@ == "-v"@ || last@ == "--version"@,
                Startup::Reject(message) => last@ != "-v"@ && last@ != "--version"@ && message@
                    == rejection(failure@, usage@),
                _ => false,
            },
        },
{
    match read {
        Err(failure) => if *last == "-v".to_owned() || *last == "--version".to_owned() {
            Startup::ShowVersion
        } else {
            Startup::Reject(rejection_message(&failure, usage.as_str()))
        },
        Ok(line) => {
            let verbose = line.verbose;
            let lists_backends = match &line.backend {
                Some(backend) => *backend == "?".to_owned(),
                None => false,
            };
            if lists_backends {
                Startup::ListBackends { verbose }
            } else {
                let config_file = match line.config {
                    Some(file) => file,
                    None => DEFAULT_CONFIG_FILE.to_owned(),
                };
                Startup::Run { verbose, backend: line.backend, config_file }
            }
        },
    }
}

/// Reads the daemon's command line, the program's name first, and decides what it
/// asks for.
pub fn parse_args(args: &Vec<String>) -> (r: Startup)
    requires
        args.len() > 0,
    ensures
        r@ == startup_for(
            args@.last()@,
            read_outcome(parse_outcome(daemon_table(), texts(args@.skip(1)))),
            usage_text(daemon_table(), usage_brief(args@[0]@)),
        ),
        match parse_outcome(daemon_table(), texts(args@.skip(1))) {
            Ok(found) => match r {
                Startup::ListBackends { verbose } => {
                    &&& verbose == (found["verbose"@].len() > 0)
                    &&& found["backend"@].len() > 0 && found["backend"@][0] == Some("?"@)
                },
                Startup::Run { verbose, backend, config_file } => {
                    &&& verbose == (found["verbose"@].len() > 0)
                    &&& match backend {
                        Some(name) => name@ != "?"@ && found["backend"@].len() > 0
                            && found["backend"@][0] == Some(name@),
                        None => found["backend"@].len() == 0 || found["backend"@][0] is None,
                    }
                    &&& config_file@ == (if found["config"@].len() > 0
                        && found["config"@][0] is Some {
                        found["config"@][0]->Some_0
                    } else {
                        "config.toml"@
                    })
                },
                _ => false,
            },
            Err(failure) => match r {
                Startup::ShowVersion => args@.last()@ == "-v"@ || args@.last()@ == "--version"@,
                Startup::Reject(message) => {
                    &&& args@.last()@ != "-v"@ && args@.last()@ != "--version"@
                    &&& message@ == rejection(
                        failure,
                        usage_text(daemon_table(), "Usage: "@ + args@[0]@ + " [options]"@),
                    )
                },
                _ => false,
            },
        },
{
    let opts = daemon_options();
    let rest = slice_subrange(args.as_slice(), 1, args.len());
    assert(rest@ =~= args@.skip(1));
    let read = read_command_line(&opts, rest);
    let description = usage(args[0].as_str(), &opts);
    decide_startup(&args[args.len() - 1], read, description)
}

impl Startup {
    /// The status that the daemon ends with at once; `None` if it runs.
    pub fn exit_status(&self) -> (r: Option<i32>)
        ensures
            r == match self@ {
                StartupView::ShowVersion => Some(0i32),
                StartupView::Reject(_) => Some(1i32),
                StartupView::ListBackends { .. } => Some(0i32),
                StartupView::Run { .. } => None,
            },
            match *self {
                Startup::Run { .. } => r is None,
                Startup::Reject(_) => r == Some(1i32),
                _ => r == Some(0i32),
            },
    {
        match self {
            Startup::ShowVersion => Some(0),
            Startup::Reject(_) => Some(1),
            Startup::ListBackends { .. } => Some(0),
            Startup::Run { .. } => None,
        }
    }
}

/// Details are logged exactly if they were asked for, whether the daemon runs or lists
/// its backends, and whatever else the command line holds; the last word and the
/// description of the options play no part in it.
pub proof fn law_verbose_is_heeded(last: Seq<char>, found: Given, usage: Seq<char>)
    ensures
        match startup_for(last, read_outcome(Ok(found)), usage) {
            StartupView::Run { verbose, .. } => verbose <==> found["verbose"@].len() > 0,
            StartupView::ListBackends { verbose } => verbose <==> found["verbose"@].len() > 0,
            _ => false,
        },
{
}

/// The backends are listed exactly if the backend is named by a question mark; any
/// other name is the backend to run with.
pub proof fn law_backend_is_heeded(last: Seq<char>, found: Given, usage: Seq<char>)
    ensures
        match startup_for(last, read_outcome(Ok(found)), usage) {
            StartupView::Run { backend, .. } => match backend {
                Some(name) => name != "?"@ && found["backend"@].len() > 0 && found["backend"@][0]
                    == Some(name),
                None => found["backend"@].len() == 0 || found["backend"@][0] is None,
            },
            StartupView::ListBackends { .. } => found["backend"@].len() > 0
                && found["backend"@][0] == Some("?"@),
            _ => false,
        },
{
}

/// The daemon runs with the configuration file that was named first, or with the
/// standard one if none was.
pub proof fn law_config_is_heeded(last: Seq<char>, found: Given, usage: Seq<char>)
    ensures
        startup_for(last, read_outcome(Ok(found)), usage) matches StartupView::Run {
            config_file,
            ..
        } ==> {
            &&& found["config"@].len() > 0 && found["config"@][0] is Some ==> found["config"@][0]
                == Some(config_file)
            &&& found["config"@].len() == 0 || found["config"@][0] is None ==> config_file
                == "config.toml"@
        },
{
}

/// A refused command line shows the version if its last word asks for that, and is
/// rejected otherwise; one that is not refused does neither.
pub proof fn law_refusals_are_rejected(
    last: Seq<char>,
    parsed: Result<Given, FailureView>,
    usage: Seq<char>,
)
    ensures
        ({
            let startup = startup_for(last, read_outcome(parsed), usage);
            &&& startup is ShowVersion <==> parsed is Err && (last == "-v"@ || last
                == "--version"@)
            &&& startup is Reject <==> parsed is Err && last != "-v"@ && last != "--version"@
        }),
{
}

/// A rejection names the failure and the option, quoted, on its first line, and ends
/// with the description of the options.
pub proof fn law_rejection_names_the_failure(last: Seq<char>, failure: FailureView, usage: Seq<char>)
    ensures
        startup_for(last, read_outcome(Err(failure)), usage) matches StartupView::Reject(message)
            ==> {
            let name = match failure.kind {
                FailureKind::ArgumentMissing => "ArgumentMissing"@,
                FailureKind::UnrecognizedOption => "UnrecognizedOption"@,
                FailureKind::OptionMissing => "OptionMissing"@,
                FailureKind::OptionDuplicated => "OptionDuplicated"@,
                FailureKind::UnexpectedArgument => "UnexpectedArgument"@,
            };
            &&& message == "error: "@ + name + "("@ + debug_text(failure.option) + ")\n"@ + usage
            &&& message.skip(message.len() - usage.len()) == usage
        },
{
    let message = rejection(failure, usage);
    assert(message.skip(message.len() - usage.len()) =~= usage);
}

/// What is seen of a startup is the startup itself.
pub proof fn law_startup_is_seen_as_it_is(startup: Startup)
    ensures
        match startup {
            Startup::ShowVersion => startup@ is ShowVersion,
            Startup::Reject(message) => startup@ == StartupView::Reject(message@),
            Startup::ListBackends { verbose } => startup@ == (StartupView::ListBackends {
                verbose,
            }),
            Startup::Run { verbose, backend, config_file } => startup@ matches StartupView::Run {
                verbose: v,
                backend: b,
                config_file: c,
            } && v == verbose && c == config_file@ && (match backend {
                Some(name) => b == Some(name@),
                None => b is None,
            }),
        },
{
}

/// What is seen of a command line are its options.
pub proof fn law_command_line_is_seen_as_it_is(line: CommandLine)
    ensures
        line@.verbose == line.verbose,
        match line.backend {
            Some(name) => line@.backend == Some(name@),
            None => line@.backend is None,
        },
        match line.config {
            Some(file) => line@.config == Some(file@),
            None => line@.config is None,
        },
{
}

/// The daemon takes three options: a configuration file, by a short or a long name, a
/// backend, and a wish for details. The first two take an argument, the third none,
/// and none of them has to be given.
pub proof fn law_daemon_takes_three_options()
    ensures
        ({
            let table = daemon_table();
            &&& table.groups.len() == 3
            &&& !table.stop_at_first_free && !table.long_only
            &&& table.groups[0].short_name == "c"@ && table.groups[0].long_name == "config"@
            &&& table.groups[1].short_name == ""@ && table.groups[1].long_name == "backend"@
            &&& table.groups[2].short_name == ""@ && table.groups[2].long_name == "verbose"@
            &&& table.groups[0].argument is Yes && table.groups[1].argument is Yes
            &&& table.groups[2].argument is No
            &&& table.groups[0].hint == "CONFIG"@ && table.groups[1].hint == "BACKEND"@
            &&& table.groups[0].desc == "Path to config file to read. Defaults to 'config.toml'"@
            &&& table.groups[1].desc == "Audio backend to use. Use '?' to list options"@
            &&& table.groups[2].desc == "Enable verbose output"@
            &&& forall|i: int|
                0 <= i < 3 ==> (#[trigger] table.groups[i]).occurrence is Optional
        }),
{
}

/// The headline of the description names the program.
pub proof fn law_headline_names_the_program(program: Seq<char>)
    ensures
        usage_brief(program) == "Usage: "@ + program + " [options]"@,
{
}

} // verus!
