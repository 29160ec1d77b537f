//! What the daemon shows on the console: its log and the list of audio backends.
use crate::text::texts;
use vstd::prelude::*;
use vstd::string::*;

verus! {

/// What starts each line of the log.
pub const LOG_TAG: &'static str = "[Vollibrespot]";

/// The module that is shown for a record which names none.
pub const DEFAULT_MODULE: &'static str = "vollibrespot";

/// What is logged when details are asked for.
pub const VERBOSE_FILTERS: &'static str = "libmdns=info,librespot=debug,vollibrespot=trace";

/// What is logged otherwise.
pub const STANDARD_FILTERS: &'static str = "libmdns=info,librespot=info,vollibrespot=info";

/// How grave a record of the log is.
#[derive(Clone, Copy, Debug, PartialEq, Eq, Structural)]
pub enum Severity {
    /// Something failed.
    Error,
    /// Something may be wrong.
    Warn,
    /// Something worth knowing.
    Info,
    /// Something of use for finding faults.
    Debug,
    /// Something of use for following the course of things.
    Trace,
}

/// A colour on the console.
#[derive(Clone, Copy, Debug, PartialEq, Eq, Structural)]
pub enum Colour {
    /// Cyan.
    Cyan,
    /// Green.
    Green,
    /// Red.
    Red,
    /// White.
    White,
    /// Yellow.
    Yellow,
}

/// How a record is shown. Tag and text are always bold.
#[derive(Debug)]
pub struct LineStyle {
    /// The colour of the tag.
    pub tag: Colour,
    /// The module that is named; empty for none.
    pub module: String,
    /// The colour of the module, then bold; plain where there is none.
    pub module_colour: Option<Colour>,
    /// The colour of the text.
    pub text: Colour,
}

/// What is logged.
#[derive(Debug)]
pub struct LogFilters {
    /// The records that are let through.
    pub filters: String,
    /// Whether a wish for details was overridden, which calls for a warning.
    pub overridden: bool,
}

/// The colour of a record's text.
pub open spec fn text_colour(severity: Severity) -> Colour {
    match severity {
        Severity::Trace | Severity::Debug => Colour::Green,
        Severity::Info => Colour::White,
        Severity::Warn => Colour::Yellow,
        Severity::Error => Colour::Red,
    }
}

/// Whether the module is named for a record of that severity.
pub open spec fn names_module(severity: Severity) -> bool {
    severity == Severity::Trace || severity == Severity::Debug
}

/// Decides how a record is shown: only the least grave ones name their module.
pub fn line_style(severity: Severity, source_module: Option<String>) -> (r: LineStyle)
    ensures
        r.tag == Colour::Cyan,
        r.text == text_colour(severity),
        match severity {
            Severity::Error => r.text == Colour::Red && r.module_colour is None && r.module@.len()
                == 0,
            Severity::Warn => r.text == Colour::Yellow && r.module_colour is None
                && r.module@.len() == 0,
            Severity::Info => r.text == Colour::White && r.module_colour is None
                && r.module@.len() == 0,
            Severity::Debug | Severity::Trace => {
                &&& r.text == Colour::Green
                &&& r.module_colour == Some(Colour::Yellow)
                &&& source_module matches Some(path) ==> r.module@ == path@
                &&& source_module is None ==> r.module@ == "vollibrespot"@
            },
        },
        names_module(severity) ==> r.module_colour == Some(Colour::Yellow) && r.module@ == (
        match source_module {
            Some(path) => path@,
            None => DEFAULT_MODULE@,
        }),
        !names_module(severity) ==> r.module_colour is None && r.module@ == ""@,
{
    let text = match severity {
        Severity::Trace | Severity::Debug => Colour::Green,
        Severity::Info => Colour::White,
        Severity::Warn => Colour::Yellow,
        Severity::Error => Colour::Red,
    };
    if severity == Severity::Trace || severity == Severity::Debug {
        let module = match source_module {
            Some(path) => path,
            None => DEFAULT_MODULE.to_owned(),
        };
        LineStyle { tag: Colour::Cyan, module, module_colour: Some(Colour::Yellow), text }
    } else {
        proof {
            reveal_strlit("");
        }
        LineStyle { tag: Colour::Cyan, module: "".to_owned(), module_colour: None, text }
    }
}

/// Decides what is logged: the environment's filters go before the wish for
/// details.
pub fn log_filters(verbose: bool, environment: Option<String>) -> (r: LogFilters)
    ensures
        match environment {
            Some(filters) => r.filters@ == filters@ && r.overridden == verbose,
            None => !r.overridden && r.filters@ == (if verbose {
                VERBOSE_FILTERS@
            } else {
                STANDARD_FILTERS@
            }),
        },
        environment is None && verbose ==> r.filters@
            == "libmdns=info,librespot=debug,vollibrespot=trace"@,
        environment is None && !verbose ==> r.filters@
            == "libmdns=info,librespot=info,vollibrespot=info"@,
{
    match environment {
        Some(filters) => LogFilters { filters, overridden: verbose },
        None => if verbose {
            LogFilters { filters: VERBOSE_FILTERS.to_owned(), overridden: false }
        } else {
            LogFilters { filters: STANDARD_FILTERS.to_owned(), overridden: false }
        },
    }
}

/// The line for the audio backend at a place in the list; the first one is the
/// default.
pub open spec fn backend_line(name: Seq<char>, place: int) -> Seq<char> {
    if place == 0 {
        "- "@ + name + " (default)"@
    } else {
        "- "@ + name
    }
}

/// The lines that list the audio backends, below a headline.
pub fn list_backends(names: &Vec<String>) -> (r: Vec<String>)
    ensures
        texts(r@) == seq!["Available Backends : "@] + Seq::new(
            names@.len(),
            |i: int| backend_line(names@[i]@, i),
        ),
        r@.len() == names@.len() + 1,
        r@[0]@ == "Available Backends : "@,
        names@.len() > 0 ==> r@[1]@ == "- "@ + names@[0]@ + " (default)"@,
        forall|i: int| 1 <= i < names@.len() ==> (#[trigger] r@[i + 1])@ == "- "@ + names@[i]@,
{
    let mut lines: Vec<String> = Vec::new();
    lines.push("Available Backends : ".to_owned());
    for i in 0..names.len()
        invariant
            lines.len() == i + 1,
            lines@[0]@ == "Available Backends : "@,
            forall|k: int|
                1 <= k <= i ==> (#[trigger] lines@[k])@ == backend_line(names@[k - 1]@, k - 1),
    {
        let mut line = "- ".to_owned();
        line.append(names[i].as_str());
        if i == 0 {
            line.append(" (default)");
        }
        lines.push(line);
    }
    assert(texts(lines@) =~= seq!["Available Backends : "@] + Seq::new(
        names@.len(),
        |i: int| backend_line(names@[i]@, i),
    ));
    lines
}

/// The graver a record, the more its colour warns, and only the least grave ones name
/// their module.
pub proof fn law_records_are_coloured_by_severity(severity: Severity)
    ensures
        text_colour(severity) == Colour::Red <==> severity == Severity::Error,
        text_colour(severity) == Colour::Yellow <==> severity == Severity::Warn,
        text_colour(severity) == Colour::White <==> severity == Severity::Info,
        text_colour(severity) == Colour::Green <==> severity == Severity::Debug || severity
            == Severity::Trace,
        names_module(severity) <==> text_colour(severity) == Colour::Green,
{
}

/// Only the first backend of a list is marked as the default.
pub proof fn law_first_backend_is_the_default(name: Seq<char>, place: int)
    ensures
        backend_line(name, 0) == "- "@ + name + " (default)"@,
        place != 0 ==> backend_line(name, place) == "- "@ + name,
{
}

/// Every line of the log starts with the daemon's name in square brackets.
pub proof fn law_lines_are_tagged_with_the_name()
    ensures
        LOG_TAG@ == "[Vollibrespot]"@,
        DEFAULT_MODULE@ == "vollibrespot"@,
{
}

} // verus!
