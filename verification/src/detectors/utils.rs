//! Shared detector utilities: context-aware filters that cut false
//! positives by recognizing comments, imports, attribute lines and
//! struct fields, plus the regular-expression calls the pattern
//! detectors lean on.

use vstd::prelude::*;

use crate::text::{contains_seq, contains_sub, ends_with_seq, ends_with_sub, split_lines,
    split_lines_spec, starts_with_seq, starts_with_sub, trim_spec, trim_str};

verus! {

/// Whether a regular expression matches anywhere in a text. An invalid
/// pattern matches nothing. The result is a function of the pattern and
/// the text alone.
pub uninterp spec fn regex_matches(pattern: Seq<char>, text: Seq<char>) -> bool;

/// Relies on regex::Regex::new and regex::Regex::is_match: whether
/// `pattern` matches anywhere in `text`; a pattern that does not
/// compile matches nothing.
#[verifier::external_body]
pub(crate) fn regex_is_match(pattern: &str, text: &str) -> (r: bool)
    ensures
        r == regex_matches(pattern@, text@),
{
    regex::Regex::new(pattern).map(|re| re.is_match(text)).unwrap_or(false)
}

/// The first capture group of the first match of a regular expression
/// in a text, if the pattern compiles, matches, and has a first group.
/// The result is a function of the pattern and the text alone.
pub uninterp spec fn regex_capture(pattern: Seq<char>, text: Seq<char>) -> Option<Seq<char>>;

/// Relies on regex::Regex::new and regex::Regex::captures: the first
/// capture group of the first match of `pattern` in `text`.
#[verifier::external_body]
pub(crate) fn regex_first_capture(pattern: &str, text: &str) -> (r: Option<String>)
    ensures
        match r {
            Some(s) => regex_capture(pattern@, text@) == Some(s@),
            None => regex_capture(pattern@, text@) is None,
        },
{
    regex::Regex::new(pattern).ok().and_then(|re| re.captures(text)).and_then(|c| c.get(1)).map(
        |m| m.as_str().to_string(),
    )
}

/// Whether a source line should be skipped as non-code: empty lines,
/// comments, imports, error-code attribute lines, attribute lines other
/// than account constraints, struct-field declarations, and type, impl
/// or trait headers.
pub open spec fn should_skip_line_spec(line: Seq<char>) -> bool {
    let t = trim_spec(line);
    t.len() == 0 || starts_with_seq(t, "//"@) || starts_with_seq(t, "/*"@) || starts_with_seq(
        t,
        "*"@,
    ) || starts_with_seq(t, "use "@) || starts_with_seq(t, "pub use "@) || starts_with_seq(
        t,
        "mod "@,
    ) || starts_with_seq(t, "pub mod "@) || contains_seq(t, "#[msg("@) || contains_seq(
        t,
        "#[error_code"@,
    ) || contains_seq(t, "#[error("@) || (starts_with_seq(t, "#["@) && !contains_seq(
        t,
        "account("@,
    )) || (ends_with_seq(t, ","@) && contains_seq(t, ":"@) && !contains_seq(t, "="@)
        && !contains_seq(t, "seeds"@)) || starts_with_seq(t, "pub struct "@) || starts_with_seq(
        t,
        "struct "@,
    ) || starts_with_seq(t, "pub enum "@) || starts_with_seq(t, "enum "@) || starts_with_seq(
        t,
        "pub type "@,
    ) || starts_with_seq(t, "type "@) || starts_with_seq(t, "impl "@) || starts_with_seq(
        t,
        "pub trait "@,
    )
}

/// Returns true if the line should be skipped as non-code rather than
/// analyzed.
pub fn should_skip_line(line: &str) -> (r: bool)
    ensures
        r == should_skip_line_spec(line@),
{
    let t = trim_str(line);
    if t.unicode_len() == 0 {
        return true;
    }
    if starts_with_sub(t, "//") || starts_with_sub(t, "/*") || starts_with_sub(t, "*") {
        return true;
    }
    if starts_with_sub(t, "use ") || starts_with_sub(t, "pub use ") || starts_with_sub(t, "mod ")
        || starts_with_sub(t, "pub mod ") {
        return true;
    }
    if contains_sub(t, "#[msg(") || contains_sub(t, "#[error_code") || contains_sub(
        t,
        "#[error(",
    ) {
        return true;
    }
    if starts_with_sub(t, "#[") && !contains_sub(t, "account(") {
        return true;
    }
    if ends_with_sub(t, ",") && contains_sub(t, ":") && !contains_sub(t, "=") && !contains_sub(
        t,
        "seeds",
    ) {
        return true;
    }
    if starts_with_sub(t, "pub struct ") || starts_with_sub(t, "struct ") || starts_with_sub(
        t,
        "pub enum ",
    ) || starts_with_sub(t, "enum ") || starts_with_sub(t, "pub type ") || starts_with_sub(
        t,
        "type ",
    ) {
        return true;
    }
    if starts_with_sub(t, "impl ") || starts_with_sub(t, "pub trait ") {
        return true;
    }
    false
}

/// The lower bound of a `k`-line window before line `n`.
pub open spec fn win_lo(n: int, k: int) -> int {
    if n >= k {
        n - k
    } else {
        0
    }
}

/// Whether a line looks like part of an error enum definition.
pub open spec fn line_flags_error_enum(l: Seq<char>) -> bool {
    contains_seq(l, "#[error_code]"@) || (contains_seq(l, "pub enum"@) && contains_seq(
        l,
        "Error"@,
    ))
}

/// The lower bound of the ten-line window checked before a line.
pub open spec fn error_window_lo(line_num: int) -> int {
    if line_num >= 10 {
        line_num - 10
    } else {
        0
    }
}

/// Whether a line sits inside an error enum definition: some line in
/// the ten lines before it opens an error-code enum.
pub open spec fn is_error_context_spec(src: Seq<char>, line_num: int) -> bool {
    exists|i: int|
        error_window_lo(line_num) <= i < line_num && 0 <= i
            < split_lines_spec(src).len() && line_flags_error_enum(split_lines_spec(src)[i])
}

/// Checks if a line is inside an error enum definition, to avoid
/// flagging error-message text that mentions sensitive keywords.
pub fn is_error_context(source: &str, line_num: usize) -> (r: bool)
    ensures
        r == is_error_context_spec(source@, line_num as int),
{
    let lines = split_lines(source);
    let ghost ls = split_lines_spec(source@);
    let start: usize = if line_num >= 10 {
        line_num - 10
    } else {
        0
    };
    let mut i: usize = start;
    while i < line_num
        invariant
            lines@.map_values(|l: String| l@) == ls,
            ls == split_lines_spec(source@),
            start == error_window_lo(line_num as int),
            start <= i <= line_num,
            forall|j: int|
                start <= j < i && j < ls.len() ==> !line_flags_error_enum(ls[j]),
        decreases line_num - i,
    {
        if i < lines.len() {
            let l = lines[i].as_str();
            proof {
                assert(l@ == ls[i as int]);
            }
            if contains_sub(l, "#[error_code]") || (contains_sub(l, "pub enum") && contains_sub(
                l,
                "Error",
            )) {
                return true;
            }
        }
        i = i + 1;
    }
    false
}

/// Whether a line carries an account constraint attribute.
pub open spec fn has_account_constraint_spec(line: Seq<char>) -> bool {
    contains_seq(line, "#[account("@)
}

/// Checks if a line appears to be part of an account constraint
/// attribute.
pub fn has_account_constraint(line: &str) -> (r: bool)
    ensures
        r == has_account_constraint_spec(line@),
{
    contains_sub(line, "#[account(")
}

/// Whether a line near an account suggests a derived address: a seeds
/// constraint, an explicitly unchecked marker, or a bump constraint.
pub open spec fn line_flags_pda(l: Seq<char>) -> bool {
    (contains_seq(l, "seeds"@) && contains_seq(l, "["@)) || contains_seq(l, "/// CHECK"@)
        || contains_seq(l, "// CHECK"@) || (contains_seq(l, "bump"@) && contains_seq(
        l,
        "#[account("@,
    ))
}

/// The lower bound of the five-line window checked around a line.
pub open spec fn pda_window_lo(line_num: int) -> int {
    if line_num >= 5 {
        line_num - 5
    } else {
        0
    }
}

/// Whether the surrounding context marks an account as a derived
/// address: the five lines before it or the line itself.
pub open spec fn is_pda_account_spec(src: Seq<char>, line_num: int) -> bool {
    exists|i: int|
        pda_window_lo(line_num) <= i <= line_num && 0 <= i < split_lines_spec(src).len()
            && line_flags_pda(split_lines_spec(src)[i])
}

/// Checks if an account appears to be a derived address based on the
/// surrounding context.
pub fn is_pda_account(source: &str, line_num: usize) -> (r: bool)
    ensures
        r == is_pda_account_spec(source@, line_num as int),
{
    let lines = split_lines(source);
    let ghost ls = split_lines_spec(source@);
    let start: usize = if line_num >= 5 {
        line_num - 5
    } else {
        0
    };
    let mut i: usize = start;
    let mut found = false;
    while i <= line_num && i < lines.len()
        invariant
            lines@.map_values(|l: String| l@) == ls,
            ls == split_lines_spec(source@),
            start == pda_window_lo(line_num as int),
            start <= i,
            i <= line_num + 1,
            found == exists|j: int|
                start <= j < i && j <= line_num && j < ls.len() && line_flags_pda(ls[j]),
        decreases line_num + 1 - i,
    {
        let l = lines[i].as_str();
        proof {
            assert(l@ == ls[i as int]);
        }
        if (contains_sub(l, "seeds") && contains_sub(l, "[")) || contains_sub(l, "/// CHECK")
            || contains_sub(l, "// CHECK") || (contains_sub(l, "bump") && contains_sub(
            l,
            "#[account(",
        )) {
            found = true;
        }
        i = i + 1;
    }
    found
}

/// Whether a line declares an intentionally unchecked account type.
pub open spec fn is_unchecked_account_type_spec(line: Seq<char>) -> bool {
    contains_seq(line, "UncheckedAccount"@) || contains_seq(line, "AccountInfo"@) || contains_seq(
        line,
        "/// CHECK"@,
    )
}

/// Checks if an account type is intentionally unchecked.
pub fn is_unchecked_account_type(line: &str) -> (r: bool)
    ensures
        r == is_unchecked_account_type_spec(line@),
{
    contains_sub(line, "UncheckedAccount") || contains_sub(line, "AccountInfo") || contains_sub(
        line,
        "/// CHECK",
    )
}

} // verus!
