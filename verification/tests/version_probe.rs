//! Parsing of the console version report.

use benchkit::version_probe::cmd_ver_supports_ansi;

#[test]
fn threshold_version_is_supported() {
    assert!(cmd_ver_supports_ansi("Microsoft Windows [Version 10.0.10586]"));
}

#[test]
fn old_version_is_not_supported() {
    assert!(!cmd_ver_supports_ansi("Microsoft Windows [Version 6.1.7601]"));
}

#[test]
fn newer_patch_is_supported() {
    assert!(cmd_ver_supports_ansi("Microsoft Windows [Version 10.0.19045.3324]"));
}

#[test]
fn positive_minor_overrides_low_patch() {
    assert!(cmd_ver_supports_ansi("Microsoft Windows [Version 10.1.0]"));
}

#[test]
fn low_patch_with_zero_minor_is_not_supported() {
    assert!(!cmd_ver_supports_ansi("Microsoft Windows [Version 10.0.10585]"));
}

#[test]
fn trailing_newline_is_trimmed() {
    assert!(cmd_ver_supports_ansi("Microsoft Windows [Version 10.0.10586]\r\n"));
}

#[test]
fn missing_bracket_drops_last_digit() {
    // Without the bracket the pop removes the final digit: the token
    // parses as (10, 0, 1058), which is below the patch threshold.
    assert!(!cmd_ver_supports_ansi("Microsoft Windows Version 10.0.10586"));
}

#[test]
fn non_numeric_token_is_not_supported() {
    assert!(!cmd_ver_supports_ansi("Microsoft Windows [Version ten.zero.many]"));
    assert!(!cmd_ver_supports_ansi("Microsoft Windows [Version 10.a.10586]"));
}

#[test]
fn malformed_output_is_not_supported() {
    assert!(!cmd_ver_supports_ansi(""));
    assert!(!cmd_ver_supports_ansi("garbage"));
    assert!(!cmd_ver_supports_ansi("no dots here"));
    assert!(!cmd_ver_supports_ansi("one.dot]"));
    assert!(!cmd_ver_supports_ansi("   "));
}

#[test]
fn huge_component_is_not_supported() {
    // A component that overflows the machine word fails the parse.
    assert!(!cmd_ver_supports_ansi("v 999999999999999999999999999999.0.0]"));
}

#[test]
fn leading_plus_is_accepted() {
    assert!(cmd_ver_supports_ansi("Microsoft Windows [Version +10.0.10586]"));
}
