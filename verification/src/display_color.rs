//! The terminal capability negotiator: decides whether diagnostic
//! output should use ANSI colour escapes.
//!
//! The outcome is a function of a tri-state mode and the process
//! environment: an explicit mode wins outright, and automatic mode
//! consults the terminal-type environment variable, falling back to
//! the platform's console capability probe when the variable is unset.

use vstd::prelude::*;

use crate::version_probe::cmd_ver_supports_ansi;
use crate::version_probe::ver_report_supports_ansi;

verus! {

/// Tri-state colour preference, supplied by the caller once.
#[derive(Debug, Clone, Copy)]
pub enum DisplayColor {
    Disable,
    Auto,
    Enable,
}

/// What the platform's console capability probe reported.
#[derive(Debug)]
pub enum ConsoleProbe {
    /// The platform has no named console subsystem, or the version
    /// query failed or produced undecodable output.
    Unavailable,
    /// The raw text the console version-query command printed.
    VersionReport(String),
}

/// The slice of the process environment the negotiator consults:
/// the terminal-type environment variable and the outcome of the
/// console capability probe.
#[derive(Debug)]
pub struct TerminalEnvironment {
    /// The value of the terminal-type environment variable, when set.
    pub term: Option<String>,
    /// What the console capability probe reported.
    pub probe: ConsoleProbe,
}

/// The terminal-type variable as the specification reads it.
pub open spec fn term_view(term: Option<String>) -> Option<Seq<char>> {
    match term {
        None => None,
        Some(s) => Some(s@),
    }
}

/// The probe outcome as the specification reads it: the version report
/// text, or `None` where no report could be had.
pub open spec fn probe_view(probe: ConsoleProbe) -> Option<Seq<char>> {
    match probe {
        ConsoleProbe::Unavailable => None,
        ConsoleProbe::VersionReport(s) => Some(s@),
    }
}

/// The negotiated outcome: `Disable` and `Enable` win outright; `Auto`
/// enables colour exactly when the terminal-type variable is set to
/// anything but `dumb`, or, with the variable unset, when the console
/// probe's version report judges the console capable.
pub open spec fn negotiated_color(
    mode: DisplayColor,
    term: Option<Seq<char>>,
    report: Option<Seq<char>>,
) -> bool {
    match mode {
        DisplayColor::Disable => false,
        DisplayColor::Enable => true,
        DisplayColor::Auto => match term {
            Some(t) => t != "dumb"@,
            None => match report {
                None => false,
                Some(out) => ver_report_supports_ansi(out),
            },
        },
    }
}

impl DisplayColor {
    /// Decides whether colour output should be enabled under this mode
    /// in the given environment.
    pub fn should_enable(self, env: &TerminalEnvironment) -> (r: bool)
        ensures
            r == negotiated_color(self, term_view(env.term), probe_view(env.probe)),
    {
        match self {
            DisplayColor::Disable => false,
            DisplayColor::Auto => terminal_support_ansi(env),
            DisplayColor::Enable => true,
        }
    }
}

/// Decides whether the terminal supports ANSI escape codes, from the
/// terminal-type environment variable and the console probe: a set
/// variable decides by its value (only the literal `dumb` refuses),
/// and an unset one defers to the probe's version report.
pub fn terminal_support_ansi(env: &TerminalEnvironment) -> (r: bool)
    ensures
        r == negotiated_color(DisplayColor::Auto, term_view(env.term), probe_view(env.probe)),
{
    match &env.term {
        Some(terminal) => {
            let dumb: String = String::from_str("dumb");
            !terminal.eq(&dumb)
        },
        None => match &env.probe {
            ConsoleProbe::Unavailable => false,
            ConsoleProbe::VersionReport(out) => cmd_ver_supports_ansi(out.as_str()),
        },
    }
}

/// Law: with mode `Disable` the negotiator never enables colour,
/// whatever the environment holds.
pub proof fn lemma_disable_never_enables(term: Option<Seq<char>>, report: Option<Seq<char>>)
    ensures
        !negotiated_color(DisplayColor::Disable, term, report),
{
}

/// Law: with mode `Enable` the negotiator always enables colour,
/// whatever the environment holds.
pub proof fn lemma_enable_always_enables(term: Option<Seq<char>>, report: Option<Seq<char>>)
    ensures
        negotiated_color(DisplayColor::Enable, term, report),
{
}

/// Law: in automatic mode, a terminal type of `dumb` disables colour,
/// whatever the console probe reported.
pub proof fn lemma_auto_dumb_terminal_disables(report: Option<Seq<char>>)
    ensures
        !negotiated_color(DisplayColor::Auto, Some("dumb"@), report),
{
}

/// Law: in automatic mode, a set terminal type other than `dumb`
/// enables colour, whatever the console probe reported.
pub proof fn lemma_auto_other_terminal_enables(t: Seq<char>, report: Option<Seq<char>>)
    requires
        t != "dumb"@,
    ensures
        negotiated_color(DisplayColor::Auto, Some(t), report),
{
}

/// Law: in automatic mode, with the terminal-type variable unset and
/// no console capability to probe, colour stays off.
pub proof fn lemma_auto_unset_no_console_disables()
    ensures
        !negotiated_color(DisplayColor::Auto, None, None),
{
}

} // verus!
