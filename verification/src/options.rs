//! Command line options, as `getopts` declares and parses them.
use crate::text::texts;
use getopts::Fail;
use getopts::Matches;
use getopts::Options;
use vstd::prelude::*;

verus! {

/// `getopts::Options`: the options that a program takes.
#[verifier::external_type_specification]
#[verifier::external_body]
pub struct ExOptions(Options);

/// `getopts::Matches`: the options that were found on a command line.
#[verifier::external_type_specification]
#[verifier::external_body]
pub struct ExMatches(Matches);

/// Whether an option takes an argument.
pub enum ArgumentRule {
    /// It does.
    Yes,
    /// It does not.
    No,
    /// It may.
    Maybe,
}

/// How often an option can be given.
pub enum OccurrenceRule {
    /// Exactly once.
    Required,
    /// At most once.
    Optional,
    /// Any number of times.
    Multi,
}

/// An option that a program takes.
pub struct OptionGroup {
    /// The one-letter name, or nothing.
    pub short_name: Seq<char>,
    /// The long name, or nothing.
    pub long_name: Seq<char>,
    /// What the option is for.
    pub desc: Seq<char>,
    /// What stands for its argument in the description.
    pub hint: Seq<char>,
    /// Whether it takes an argument.
    pub argument: ArgumentRule,
    /// How often it can be given.
    pub occurrence: OccurrenceRule,
}

/// The options that a program takes, and how they are told apart from the rest.
pub struct OptionTable {
    /// The options, in the order of their declaration.
    pub groups: Seq<OptionGroup>,
    /// Whether what follows the first free argument is free as well.
    pub stop_at_first_free: bool,
    /// Whether long options can be given with a single dash.
    pub long_only: bool,
}

/// For each name of an option, long or short, the arguments that the option was
/// given with, in order; `None` for each time it was given without one.
pub type Given = Map<Seq<char>, Seq<Option<Seq<char>>>>;

/// Why a command line was refused.
#[derive(Clone, Copy, Debug, PartialEq, Eq, Structural)]
pub enum FailureKind {
    /// An option lacks its argument.
    ArgumentMissing,
    /// An option is not known.
    UnrecognizedOption,
    /// An option that is required was not given.
    OptionMissing,
    /// An option was given too often.
    OptionDuplicated,
    /// An option was given an argument that it does not take.
    UnexpectedArgument,
}

/// Why a command line was refused, and on which option's account.
#[derive(Debug)]
pub struct ParseFailure {
    /// Why it was refused.
    pub kind: FailureKind,
    /// The name of the option.
    pub option: String,
}

/// Why a command line was refused, and on which option's account.
pub struct FailureView {
    /// Why it was refused.
    pub kind: FailureKind,
    /// The name of the option.
    pub option: Seq<char>,
}

impl View for ParseFailure {
    type V = FailureView;

    open spec fn view(&self) -> FailureView {
        FailureView { kind: self.kind, option: self.option@ }
    }
}

/// What a `getopts::Options` declares.
pub uninterp spec fn option_table(opts: Options) -> OptionTable;

/// What a `getopts::Matches` found.
pub uninterp spec fn given(matches: Matches) -> Given;

/// The outcome of `getopts` parsing arguments by a table of options.
pub uninterp spec fn parse_outcome(table: OptionTable, args: Seq<Seq<char>>) -> Result<
    Given,
    FailureView,
>;

/// The description of a table of options that `getopts` derives, below a headline.
pub uninterp spec fn usage_text(table: OptionTable, brief: Seq<char>) -> Seq<char>;

/// The table with one more option.
pub open spec fn with_group(table: OptionTable, group: OptionGroup) -> OptionTable {
    OptionTable { groups: table.groups.push(group), ..table }
}

/// An option that can be given once, with an argument.
pub open spec fn argument_option(
    short_name: Seq<char>,
    long_name: Seq<char>,
    desc: Seq<char>,
    hint: Seq<char>,
) -> OptionGroup {
    OptionGroup {
        short_name,
        long_name,
        desc,
        hint,
        argument: ArgumentRule::Yes,
        occurrence: OccurrenceRule::Optional,
    }
}

/// An option that can be given once, without an argument.
pub open spec fn flag_option(
    short_name: Seq<char>,
    long_name: Seq<char>,
    desc: Seq<char>,
) -> OptionGroup {
    OptionGroup {
        short_name,
        long_name,
        desc,
        hint: seq![],
        argument: ArgumentRule::No,
        occurrence: OccurrenceRule::Optional,
    }
}

/// Whether `getopts` takes the names: at most one ASCII character for the short
/// one, and not a single character for the long one.
pub open spec fn valid_names(short_name: Seq<char>, long_name: Seq<char>) -> bool {
    &&& short_name.len() == 0 || short_name.len() == 1 && short_name[0] <= '\u{7f}'
    &&& long_name.len() != 1
}

/// Whether each option has a name.
pub open spec fn all_named(table: OptionTable) -> bool {
    forall|i: int|
        0 <= i < table.groups.len() ==> (#[trigger] table.groups[i]).short_name.len() > 0
            || table.groups[i].long_name.len() > 0
}

/// Whether each option can be asked about by each of its names.
pub open spec fn covers_names(found: Given, table: OptionTable) -> bool {
    forall|i: int|
        0 <= i < table.groups.len() ==> {
            &&& (#[trigger] table.groups[i]).short_name.len() > 0 ==> found.contains_key(
                table.groups[i].short_name,
            )
            &&& table.groups[i].long_name.len() > 0 ==> found.contains_key(
                table.groups[i].long_name,
            )
        }
}

/// What a parsed command line comes to.
pub open spec fn outcome(r: Result<Matches, ParseFailure>) -> Result<Given, FailureView> {
    match r {
        Ok(matches) => Ok(given(matches)),
        Err(failure) => Err(failure@),
    }
}

/// The argument that an option was first given with, if it was given with one.
pub open spec fn first_argument(found: Given, name: Seq<char>) -> Option<Seq<char>> {
    if found[name].len() > 0 {
        found[name][0]
    } else {
        None
    }
}

/// `Options::new`: no options, free arguments anywhere, and long options with two
/// dashes.
pub assume_specification[ Options::new ]() -> (r: Options)
    ensures
        option_table(r) == (OptionTable {
            groups: seq![],
            stop_at_first_free: false,
            long_only: false,
        }),
;

/// `Options::optopt`: declares an option that can be given once, with an argument.
#[verifier::external_body]
pub(crate) fn declare_option(
    opts: &mut Options,
    short_name: &str,
    long_name: &str,
    desc: &str,
    hint: &str,
)
    requires
        valid_names(short_name@, long_name@),
    ensures
        option_table(*final(opts)) == with_group(
            option_table(*old(opts)),
            argument_option(short_name@, long_name@, desc@, hint@),
        ),
{
    opts.optopt(short_name, long_name, desc, hint);
}

/// `Options::optflag`: declares an option that can be given once, without an
/// argument.
#[verifier::external_body]
pub(crate) fn declare_flag(opts: &mut Options, short_name: &str, long_name: &str, desc: &str)
    requires
        valid_names(short_name@, long_name@),
    ensures
        option_table(*final(opts)) == with_group(
            option_table(*old(opts)),
            flag_option(short_name@, long_name@, desc@),
        ),
{
    opts.optflag(short_name, long_name, desc);
}

/// `Options::parse`: finds the declared options among the arguments. The outcome
/// depends on the table and the arguments alone; where it is a success, every
/// declared name can be asked about.
#[verifier::external_body]
pub(crate) fn parse_options(opts: &Options, args: &[String]) -> (r: Result<Matches, ParseFailure>)
    requires
        all_named(option_table(*opts)),
    ensures
        outcome(r) == parse_outcome(option_table(*opts), texts(args@)),
        r is Ok ==> covers_names(given(r->Ok_0), option_table(*opts)),
{
    let (kind, option) = match opts.parse(args) {
        Ok(matches) => return Ok(matches),
        Err(Fail::ArgumentMissing(option)) => (FailureKind::ArgumentMissing, option),
        Err(Fail::UnrecognizedOption(option)) => (FailureKind::UnrecognizedOption, option),
        Err(Fail::OptionMissing(option)) => (FailureKind::OptionMissing, option),
        Err(Fail::OptionDuplicated(option)) => (FailureKind::OptionDuplicated, option),
        Err(Fail::UnexpectedArgument(option)) => (FailureKind::UnexpectedArgument, option),
    };
    Err(ParseFailure { kind, option })
}

/// `Options::usage`: the description of all options below a headline.
pub assume_specification[ Options::usage ](opts: &Options, brief: &str) -> (r: String)
    ensures
        r@ == usage_text(option_table(*opts), brief@),
;

/// `Matches::opt_present`: whether the option of that name was given.
pub assume_specification[ Matches::opt_present ](matches: &Matches, name: &str) -> (r: bool)
    requires
        given(*matches).contains_key(name@),
    ensures
        r == (given(*matches)[name@].len() > 0),
;

/// `Matches::opt_str`: the argument that the option of that name was first given
/// with, if any.
pub assume_specification[ Matches::opt_str ](matches: &Matches, name: &str) -> (r: Option<String>)
    requires
        given(*matches).contains_key(name@),
    ensures
        match r {
            Some(argument) => first_argument(given(*matches), name@) == Some(argument@),
            None => first_argument(given(*matches), name@) is None,
        },
;

} // verus!
