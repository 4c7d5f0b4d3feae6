//! Parsing of the console version report used as the negotiator's
//! platform fallback.
//!
//! On the one platform with a named console subsystem, the negotiator
//! shells out to a version-query command and judges ANSI support from
//! the command's textual output: the version number is extracted from
//! the last space-delimited token (trimmed, with its trailing bracket
//! character removed), split on `.` into three numeric components, and
//! support holds when `major >= 10 && (patch >= 10586 || minor > 0)`.
//! Any parse failure yields "not supported" rather than an error.

use vstd::prelude::*;

verus! {

/// Whether `c` carries the Unicode white-space property, the class a
/// text trim removes from both ends.
pub open spec fn is_whitespace_char(c: char) -> bool {
    ||| c == ' '
    ||| c == '\u{9}'
    ||| c == '\u{A}'
    ||| c == '\u{B}'
    ||| c == '\u{C}'
    ||| c == '\u{D}'
    ||| c == '\u{85}'
    ||| c == '\u{A0}'
    ||| c == '\u{1680}'
    ||| c == '\u{2000}'
    ||| c == '\u{2001}'
    ||| c == '\u{2002}'
    ||| c == '\u{2003}'
    ||| c == '\u{2004}'
    ||| c == '\u{2005}'
    ||| c == '\u{2006}'
    ||| c == '\u{2007}'
    ||| c == '\u{2008}'
    ||| c == '\u{2009}'
    ||| c == '\u{200A}'
    ||| c == '\u{2028}'
    ||| c == '\u{2029}'
    ||| c == '\u{202F}'
    ||| c == '\u{205F}'
    ||| c == '\u{3000}'
}

/// The index just after the last space in `s`; 0 when `s` has none.
pub open spec fn after_last_space(s: Seq<char>) -> int
    decreases s.len(),
{
    if s.len() == 0 {
        0
    } else if s[s.len() - 1] == ' ' {
        s.len() as int
    } else {
        after_last_space(s.drop_last())
    }
}

/// The last space-delimited token of `s`: its longest suffix that
/// contains no space. Empty when `s` ends with a space.
pub open spec fn last_space_token(s: Seq<char>) -> Seq<char> {
    s.subrange(after_last_space(s), s.len() as int)
}

/// The number of white-space characters at the start of `s`.
pub open spec fn leading_ws(s: Seq<char>) -> int
    decreases s.len(),
{
    if s.len() == 0 {
        0
    } else if !is_whitespace_char(s[0]) {
        0
    } else {
        1 + leading_ws(s.subrange(1, s.len() as int))
    }
}

/// The index just after the last non-white-space character of `s`;
/// 0 when `s` is white space throughout.
pub open spec fn end_without_trailing_ws(s: Seq<char>) -> int
    decreases s.len(),
{
    if s.len() == 0 {
        0
    } else if !is_whitespace_char(s[s.len() - 1]) {
        s.len() as int
    } else {
        end_without_trailing_ws(s.drop_last())
    }
}

/// `s` with white space removed from both ends.
pub open spec fn trimmed(s: Seq<char>) -> Seq<char> {
    let a = leading_ws(s);
    let b = end_without_trailing_ws(s);
    if a < b {
        s.subrange(a, b)
    } else {
        Seq::empty()
    }
}

/// `s` with its final character removed; unchanged when empty.
pub open spec fn without_last(s: Seq<char>) -> Seq<char> {
    if s.len() == 0 {
        s
    } else {
        s.drop_last()
    }
}

/// The first index `>= i` at which `c` occurs in `s`.
pub open spec fn find_from(s: Seq<char>, c: char, i: int) -> Option<int>
    decreases s.len() - i,
{
    if i < 0 || i >= s.len() {
        None
    } else if s[i] == c {
        Some(i)
    } else {
        find_from(s, c, i + 1)
    }
}

/// Whether `c` is an ASCII decimal digit.
pub open spec fn is_ascii_digit_char(c: char) -> bool {
    '0' <= c && c <= '9'
}

/// The numeric value of an ASCII decimal digit.
pub open spec fn digit_value(c: char) -> int {
    c as int - 48
}

/// Whether every character of `s` is an ASCII decimal digit.
pub open spec fn all_ascii_digits(s: Seq<char>) -> bool {
    forall|i: int| 0 <= i < s.len() ==> is_ascii_digit_char(s[i])
}

/// The value of `s` read as a base-10 numeral.
pub open spec fn decimal_value(s: Seq<char>) -> int
    decreases s.len(),
{
    if s.len() == 0 {
        0
    } else {
        10 * decimal_value(s.drop_last()) + digit_value(s.last())
    }
}

/// The value `s` parses to as an unsigned machine integer: an optional
/// leading `+`, then one or more ASCII digits whose value fits; `None`
/// otherwise.
pub open spec fn parsed_usize(s: Seq<char>) -> Option<int> {
    let body = if s.len() > 0 && s[0] == '+' {
        s.subrange(1, s.len() as int)
    } else {
        s
    };
    if body.len() > 0 && all_ascii_digits(body) && decimal_value(body) <= usize::MAX as int {
        Some(decimal_value(body))
    } else {
        None
    }
}

/// The three numeric components of a dotted version token: the spans
/// before the first dot, between the first two dots, and from the
/// second dot to the third dot or the end. `None` when the token has
/// fewer than two dots.
pub open spec fn version_triple(s: Seq<char>) -> Option<(Seq<char>, Seq<char>, Seq<char>)> {
    match find_from(s, '.', 0) {
        None => None,
        Some(d1) => match find_from(s, '.', d1 + 1) {
            None => None,
            Some(d2) => {
                let end2 = match find_from(s, '.', d2 + 1) {
                    None => s.len() as int,
                    Some(d3) => d3,
                };
                Some((s.subrange(0, d1), s.subrange(d1 + 1, d2), s.subrange(d2 + 1, end2)))
            },
        },
    }
}

/// The version threshold at which the console interprets ANSI escapes.
pub open spec fn version_supports_ansi(major: int, minor: int, patch: int) -> bool {
    major >= 10 && (patch >= 10586 || minor > 0)
}

/// The negotiator's judgment over a raw version report: extract the
/// last space-delimited token, trim it, drop its trailing bracket
/// character, read three dotted numeric components, and compare against
/// the support threshold. Every malformed shape yields `false`.
pub open spec fn ver_report_supports_ansi(s: Seq<char>) -> bool {
    let token = without_last(trimmed(last_space_token(s)));
    match version_triple(token) {
        None => false,
        Some(parts) => match (parsed_usize(parts.0), parsed_usize(parts.1), parsed_usize(
            parts.2,
        )) {
            (Some(major), Some(minor), Some(patch)) => version_supports_ansi(major, minor, patch),
            _ => false,
        },
    }
}

/// The characters of `s`, in order, as a vector.
fn chars_of(s: &str) -> (v: Vec<char>)
    ensures
        v@ == s@,
{
    let n: usize = s.unicode_len();
    let mut v: Vec<char> = Vec::new();
    let mut i: usize = 0;
    while i < n
        invariant
            i <= n,
            n == s@.len(),
            v@ == s@.subrange(0, i as int),
        decreases n - i,
    {
        let c = s.get_char(i);
        v.push(c);
        i = i + 1;
        assert(v@ =~= s@.subrange(0, i as int));
    }
    assert(v@ =~= s@);
    v
}

/// The characters of `v` from `lo` (inclusive) to `hi` (exclusive).
fn copy_range(v: &Vec<char>, lo: usize, hi: usize) -> (r: Vec<char>)
    requires
        lo <= hi <= v.len(),
    ensures
        r@ == v@.subrange(lo as int, hi as int),
{
    let mut r: Vec<char> = Vec::new();
    let mut i: usize = lo;
    while i < hi
        invariant
            lo <= i <= hi <= v.len(),
            r@ == v@.subrange(lo as int, i as int),
        decreases hi - i,
    {
        let c = v[i];
        r.push(c);
        i = i + 1;
        assert(r@ =~= v@.subrange(lo as int, i as int));
    }
    r
}

/// Whether `c` carries the Unicode white-space property.
fn is_whitespace(c: char) -> (r: bool)
    ensures
        r == is_whitespace_char(c),
{
    match c {
        ' ' | '\u{9}' | '\u{A}' | '\u{B}' | '\u{C}' | '\u{D}' | '\u{85}' | '\u{A0}'
            | '\u{1680}' | '\u{2000}' | '\u{2001}' | '\u{2002}' | '\u{2003}' | '\u{2004}'
            | '\u{2005}' | '\u{2006}' | '\u{2007}' | '\u{2008}' | '\u{2009}' | '\u{200A}'
            | '\u{2028}' | '\u{2029}' | '\u{202F}' | '\u{205F}' | '\u{3000}' => true,
        _ => false,
    }
}

/// Scans for the index just after the last space of `v`.
fn scan_after_last_space(v: &Vec<char>) -> (i: usize)
    ensures
        i as int == after_last_space(v@),
        i <= v.len(),
{
    let mut i: usize = v.len();
    assert(v@ =~= v@.subrange(0, v.len() as int));
    while i > 0 && v[i - 1] != ' '
        invariant
            i <= v.len(),
            after_last_space(v@) == after_last_space(v@.subrange(0, i as int)),
        decreases i,
    {
        assert(v@.subrange(0, i as int).drop_last() =~= v@.subrange(0, i as int - 1));
        i = i - 1;
    }
    i
}

/// Scans for the number of white-space characters at the start of `v`.
fn scan_leading_ws(v: &Vec<char>) -> (i: usize)
    ensures
        i as int == leading_ws(v@),
        i <= v.len(),
{
    let mut i: usize = 0;
    assert(v@ =~= v@.subrange(0, v.len() as int));
    while i < v.len() && is_whitespace(v[i])
        invariant
            i <= v.len(),
            leading_ws(v@) == i + leading_ws(v@.subrange(i as int, v@.len() as int)),
        decreases v.len() - i,
    {
        assert(v@.subrange(i as int, v@.len() as int).subrange(1, v@.len() - i as int) =~= v@
            .subrange(i as int + 1, v@.len() as int));
        i = i + 1;
    }
    i
}

/// Scans for the index just after the last non-white-space character
/// of `v`.
fn scan_end_without_trailing_ws(v: &Vec<char>) -> (i: usize)
    ensures
        i as int == end_without_trailing_ws(v@),
        i <= v.len(),
{
    let mut i: usize = v.len();
    assert(v@ =~= v@.subrange(0, v.len() as int));
    while i > 0 && is_whitespace(v[i - 1])
        invariant
            i <= v.len(),
            end_without_trailing_ws(v@) == end_without_trailing_ws(v@.subrange(0, i as int)),
        decreases i,
    {
        assert(v@.subrange(0, i as int).drop_last() =~= v@.subrange(0, i as int - 1));
        i = i - 1;
    }
    i
}

/// An `Option<usize>` read at the specification level.
pub open spec fn opt_index(o: Option<usize>) -> Option<int> {
    match o {
        None => None,
        Some(u) => Some(u as int),
    }
}

/// Scans `v` from `from` for the first occurrence of `c`.
fn find_char_from(v: &Vec<char>, c: char, from: usize) -> (r: Option<usize>)
    requires
        from <= v.len(),
    ensures
        opt_index(r) == find_from(v@, c, from as int),
        r matches Some(i) ==> from <= i < v.len(),
{
    let mut i: usize = from;
    while i < v.len()
        invariant
            from <= i <= v.len(),
            find_from(v@, c, from as int) == find_from(v@, c, i as int),
        decreases v.len() - i,
    {
        if v[i] == c {
            return Some(i);
        }
        i = i + 1;
    }
    None
}

/// Parses `v[lo..hi]` as an unsigned machine integer, as `parsed_usize`
/// reads it: an optional leading `+`, then digits whose value fits.
fn parse_usize_range(v: &Vec<char>, lo: usize, hi: usize) -> (r: Option<usize>)
    requires
        lo <= hi <= v.len(),
    ensures
        opt_index(r) == parsed_usize(v@.subrange(lo as int, hi as int)),
{
    let ghost whole = v@.subrange(lo as int, hi as int);
    let mut start: usize = lo;
    if start < hi && v[start] == '+' {
        start = start + 1;
        assert(whole.subrange(1, whole.len() as int) =~= v@.subrange(start as int, hi as int));
    }
    let ghost body = v@.subrange(start as int, hi as int);
    proof {
        // `body` is what `parsed_usize` reads once the sign is stripped.
        if whole.len() > 0 && whole[0] == '+' {
            assert(whole[0] == v@[lo as int]);
            assert(body == whole.subrange(1, whole.len() as int));
        } else {
            assert(start == lo);
            assert(body == whole);
        }
    }
    if start == hi {
        assert(body.len() == 0);
        return None;
    }
    let mut acc: u128 = 0;
    let mut overflowed = false;
    let mut i: usize = start;
    while i < hi
        invariant
            lo <= start <= i <= hi <= v.len(),
            whole == v@.subrange(lo as int, hi as int),
            body == v@.subrange(start as int, hi as int),
            whole.len() > 0 && whole[0] == '+' ==> body == whole.subrange(1, whole.len() as int),
            !(whole.len() > 0 && whole[0] == '+') ==> body == whole,
            forall|j: int| start <= j < i ==> is_ascii_digit_char(#[trigger] v@[j]),
            !overflowed ==> acc as int == decimal_value(v@.subrange(start as int, i as int))
                && acc as int <= usize::MAX as int,
            overflowed ==> decimal_value(v@.subrange(start as int, i as int)) > usize::MAX as int,
        decreases hi - i,
    {
        let c = v[i];
        if !('0' <= c && c <= '9') {
            assert(body[i as int - start as int] == v@[i as int]);
            assert(!is_ascii_digit_char(body[i as int - start as int]));
            assert(!all_ascii_digits(body));
            return None;
        }
        assert(is_ascii_digit_char(c));
        let d: u128 = (c as u32 - 48) as u128;
        assert(d as int == digit_value(c));
        proof {
            let pre = v@.subrange(start as int, i as int);
            let ext = v@.subrange(start as int, i as int + 1);
            assert(ext.drop_last() =~= pre);
            assert(ext.last() == c);
            assert(decimal_value(ext) == 10 * decimal_value(pre) + digit_value(c));
        }
        if !overflowed {
            let next: u128 = acc * 10 + d;
            if next > usize::MAX as u128 {
                overflowed = true;
                assert(decimal_value(v@.subrange(start as int, i as int + 1)) == next as int);
                assert(decimal_value(v@.subrange(start as int, i as int + 1)) > usize::MAX as int);
            } else {
                acc = next;
            }
        } else {
            proof {
                let pre = v@.subrange(start as int, i as int);
                let ext = v@.subrange(start as int, i as int + 1);
                assert(decimal_value(pre) > usize::MAX as int);
                assert(digit_value(c) >= 0);
                assert(10 * decimal_value(pre) >= decimal_value(pre));
                assert(decimal_value(ext) > usize::MAX as int);
            }
        }
        i = i + 1;
    }
    assert(body =~= v@.subrange(start as int, i as int));
    assert(all_ascii_digits(body));
    if overflowed {
        assert(decimal_value(body) > usize::MAX as int);
        None
    } else {
        assert(decimal_value(body) == acc as int);
        Some(acc as usize)
    }
}

/// Judges ANSI support from the raw textual output of the console
/// version-query command: `true` exactly when the last space-delimited
/// token, trimmed and with its trailing bracket character dropped,
/// reads as a dotted version at or above the support threshold.
pub fn cmd_ver_supports_ansi(output: &str) -> (r: bool)
    ensures
        r == ver_report_supports_ansi(output@),
{
    let v = chars_of(output);
    let cut = scan_after_last_space(&v);
    let token = copy_range(&v, cut, v.len());
    assert(token@ == last_space_token(output@));
    let a = scan_leading_ws(&token);
    let b = scan_end_without_trailing_ws(&token);
    let trimmed_token: Vec<char> = if a < b {
        copy_range(&token, a, b)
    } else {
        Vec::new()
    };
    assert(trimmed_token@ =~= trimmed(token@));
    let mut version: Vec<char> = trimmed_token;
    if version.len() > 0 {
        let shorter = version.len() - 1;
        version.truncate(shorter);
    }
    assert(version@ == without_last(trimmed(token@)));
    let d1 = match find_char_from(&version, '.', 0) {
        None => {
            return false;
        },
        Some(d1) => d1,
    };
    let d2 = match find_char_from(&version, '.', d1 + 1) {
        None => {
            return false;
        },
        Some(d2) => d2,
    };
    let end2 = match find_char_from(&version, '.', d2 + 1) {
        None => version.len(),
        Some(d3) => d3,
    };
    let p0 = parse_usize_range(&version, 0, d1);
    let p1 = parse_usize_range(&version, d1 + 1, d2);
    let p2 = parse_usize_range(&version, d2 + 1, end2);
    match (p0, p1, p2) {
        (Some(major), Some(minor), Some(patch)) => major >= 10 && (patch >= 10586 || minor > 0),
        _ => false,
    }
}

} // verus!
