//! Behaviour of the terminal capability negotiator.

use benchkit::display_color::ConsoleProbe;
use benchkit::display_color::DisplayColor;
use benchkit::display_color::TerminalEnvironment;

fn env_with_term(term: &str) -> TerminalEnvironment {
    TerminalEnvironment { term: Some(String::from(term)), probe: ConsoleProbe::Unavailable }
}

fn env_unset(probe: ConsoleProbe) -> TerminalEnvironment {
    TerminalEnvironment { term: None, probe }
}

#[test]
fn disable_ignores_environment() {
    let environments = vec![
        env_with_term("dumb"),
        env_with_term("xterm-256color"),
        env_unset(ConsoleProbe::Unavailable),
        env_unset(ConsoleProbe::VersionReport(String::from(
            "Microsoft Windows [Version 10.0.10586]",
        ))),
    ];
    for env in &environments {
        assert!(!DisplayColor::Disable.should_enable(env));
    }
}

#[test]
fn enable_ignores_environment() {
    let environments = vec![
        env_with_term("dumb"),
        env_with_term("xterm-256color"),
        env_unset(ConsoleProbe::Unavailable),
        env_unset(ConsoleProbe::VersionReport(String::from(
            "Microsoft Windows [Version 6.1.7601]",
        ))),
    ];
    for env in &environments {
        assert!(DisplayColor::Enable.should_enable(env));
    }
}

#[test]
fn auto_dumb_terminal_disables() {
    assert!(!DisplayColor::Auto.should_enable(&env_with_term("dumb")));
    // The probe is irrelevant once the variable is set.
    let env = TerminalEnvironment {
        term: Some(String::from("dumb")),
        probe: ConsoleProbe::VersionReport(String::from("Microsoft Windows [Version 10.0.10586]")),
    };
    assert!(!DisplayColor::Auto.should_enable(&env));
}

#[test]
fn auto_other_terminal_enables() {
    assert!(DisplayColor::Auto.should_enable(&env_with_term("xterm-256color")));
    assert!(DisplayColor::Auto.should_enable(&env_with_term("screen")));
    // The match against "dumb" is case-sensitive.
    assert!(DisplayColor::Auto.should_enable(&env_with_term("DUMB")));
    assert!(DisplayColor::Auto.should_enable(&env_with_term("")));
}

#[test]
fn auto_unset_without_console_disables() {
    assert!(!DisplayColor::Auto.should_enable(&env_unset(ConsoleProbe::Unavailable)));
}

#[test]
fn auto_unset_consults_version_report() {
    let supported = env_unset(ConsoleProbe::VersionReport(String::from(
        "Microsoft Windows [Version 10.0.10586]",
    )));
    assert!(DisplayColor::Auto.should_enable(&supported));
    let unsupported = env_unset(ConsoleProbe::VersionReport(String::from(
        "Microsoft Windows [Version 6.1.7601]",
    )));
    assert!(!DisplayColor::Auto.should_enable(&unsupported));
}
