//! Detects derived-address computations whose bump seed is never
//! verified, enabling seed grinding against the derivation.

use vstd::prelude::*;

use crate::detectors::utils::win_lo;
use crate::report::Severity;
use crate::text::{contains_lower, contains_lower_sub, contains_seq, contains_sub, split_lines,
    split_lines_spec};

verus! {

/// Whether one line verifies a bump seed.
pub open spec fn line_has_bump_verification(l: Seq<char>) -> bool {
    contains_lower(l, "assert_eq!(bump"@) || contains_lower(l, "assert!(bump"@) || contains_lower(l, "require!(bump"@) || contains_lower(l, "require_eq!(bump"@) || contains_lower(l, "bump =="@) || contains_lower(l, ".bump"@) || contains_lower(l, "bump:"@)
}

/// Whether the check appears in the window from 1 lines before to
/// 10 lines after line `pda_line`.
pub open spec fn has_bump_verification_spec(src: Seq<char>, pda_line: int) -> bool {
    exists|i: int|
        win_lo(pda_line, 1) <= i < pda_line + 10 && 0 <= i < split_lines_spec(src).len()
            && line_has_bump_verification(split_lines_spec(src)[i])
}

/// Detector for unverified derivation bumps.
pub struct PdaBumpDetector;

impl PdaBumpDetector {
    /// Creates a new detector instance.
    pub fn new() -> (r: PdaBumpDetector) {
        PdaBumpDetector
    }

    /// Scans the window around line `pda_line` for the protecting
    /// pattern.
    pub fn has_bump_verification(&self, source: &str, pda_line: usize) -> (r: bool)
        ensures
            r == has_bump_verification_spec(source@, pda_line as int),
    {
        let lines = split_lines(source);
        let ghost ls = split_lines_spec(source@);
        let start: usize = if pda_line >= 1 {
            pda_line - 1
        } else {
            0
        };
        let mut i: usize = start;
        while i < lines.len() && (i < pda_line || i - pda_line < 10)
            invariant
                lines@.map_values(|l: String| l@) == ls,
                ls == split_lines_spec(source@),
                start == win_lo(pda_line as int, 1),
                start <= i,
                i as int <= pda_line + 10,
                forall|j: int|
                    start <= j < i && j < ls.len() ==> !line_has_bump_verification(ls[j]),
            decreases pda_line + 10 - i,
        {
            let l = lines[i].as_str();
            proof {
                assert(l@ == ls[i as int]);
            }
            if contains_lower_sub(l, "assert_eq!(bump") || contains_lower_sub(l, "assert!(bump") || contains_lower_sub(l, "require!(bump") || contains_lower_sub(l, "require_eq!(bump") || contains_lower_sub(l, "bump ==") || contains_lower_sub(l, ".bump") || contains_lower_sub(l, "bump:") {
                return true;
            }
            i = i + 1;
        }
        false
    }

    /// The identifier of this detector.
    pub fn id(&self) -> (r: &'static str)
        ensures
            r@ == "V008"@,
    {
        "V008"
    }

    /// The human-readable name of the vulnerability.
    pub fn name(&self) -> (r: &'static str)
        ensures
            r@ == "Missing PDA Bump Check"@,
    {
        "Missing PDA Bump Check"
    }

    /// What this detector looks for.
    pub fn description(&self) -> (r: &'static str)
        ensures
            r@ == "Detects derived-address computations without bump verification."@,
    {
        "Detects derived-address computations without bump verification."
    }

    /// The default severity of findings from this detector.
    pub fn severity(&self) -> (r: Severity)
        ensures
            r == Severity::Critical,
    {
        Severity::Critical
    }

    /// The weakness classification, when one applies.
    pub fn cwe(&self) -> (r: Option<&'static str>)
        ensures
            match r {
                Some(c) => c@ == "CWE-330"@,
                None => false,
            },
    {
        Some("CWE-330")
    }

    /// Remediation advice.
    pub fn remediation(&self) -> (r: &'static str)
        ensures
            r@ == "Store the canonical bump and require equality with it on every derivation."@,
    {
        "Store the canonical bump and require equality with it on every derivation."
    }
}


/// Index of the first `&[` pair in `s`, or at least `s.len() - 1` when
/// there is none.
pub open spec fn first_amp_bracket(s: Seq<char>) -> nat
    decreases s.len(),
{
    if s.len() < 2 {
        s.len()
    } else if s[0] == '&' && s[1] == '[' {
        0
    } else {
        1 + first_amp_bracket(s.drop_first())
    }
}

proof fn lemma_amp_found(s: Seq<char>, i: int)
    requires
        0 <= i,
        i + 2 <= s.len(),
        s[i] == '&' && s[i + 1] == '[',
        forall|j: int| 0 <= j < i ==> !((#[trigger] s[j]) == '&' && s[j + 1] == '['),
    ensures
        first_amp_bracket(s) == i,
    decreases i,
{
    if i == 0 {
    } else {
        let t = s.drop_first();
        assert(t[i - 1] == s[i] && t[i] == s[i + 1]);
        assert forall|j: int| 0 <= j < i - 1 implies !((#[trigger] t[j]) == '&' && t[j + 1]
            == '[') by {
            assert(t[j] == s[j + 1] && t[j + 1] == s[j + 2]);
        }
        lemma_amp_found(t, i - 1);
    }
}

proof fn lemma_amp_none(s: Seq<char>)
    requires
        forall|j: int| 0 <= j && j + 2 <= s.len() ==> !((#[trigger] s[j]) == '&' && s[j + 1] == '['),
    ensures
        first_amp_bracket(s) >= s.len() - 1,
    decreases s.len(),
{
    if s.len() >= 2 {
        let t = s.drop_first();
        assert forall|j: int| 0 <= j && j + 2 <= t.len() implies !((#[trigger] t[j]) == '&' && t[
            j + 1
        ] == '[') by {
            assert(t[j] == s[j + 1] && t[j + 1] == s[j + 2]);
        }
        lemma_amp_none(t);
    }
}

/// The seeds slice of a derivation line: the text from the first `&[`
/// through the next closing bracket, or a placeholder when absent.
pub open spec fn extract_seeds_spec(l: Seq<char>) -> Seq<char> {
    let st = first_amp_bracket(l) as int;
    if st + 2 <= l.len() {
        let rest = l.subrange(st, l.len() as int);
        let e = crate::text::first_index_char(rest, ']') as int;
        if e < rest.len() {
            l.subrange(st, st + e + 1)
        } else {
            "unknown seeds"@
        }
    } else {
        "unknown seeds"@
    }
}

impl PdaBumpDetector {
    /// Extracts the seeds array from a derivation line, or a
    /// placeholder when none is found.
    pub fn extract_seeds(&self, line: &str) -> (r: String)
        ensures
            r@ == extract_seeds_spec(line@),
    {
        let len = line.unicode_len();
        let mut i: usize = 0;
        while len - i > 1 && !(line.get_char(i) == '&' && line.get_char(i + 1) == '[')
            invariant
                len == line@.len(),
                0 <= i,
                i as int <= len,
                forall|j: int| 0 <= j < i ==> !((#[trigger] line@[j]) == '&' && line@[j + 1] == '['),
            decreases len - i,
        {
            i = i + 1;
        }
        if len - i > 1 {
            proof {
                lemma_amp_found(line@, i as int);
            }
            let rest = line.substring_char(i, len);
            match crate::text::find_char(rest, ']') {
                Some(e) => {
                    let r = String::from_str(line.substring_char(i, i + e + 1));
                    proof {
                        assert(line@.subrange(i as int, i + e + 1) =~= extract_seeds_spec(
                            line@,
                        ));
                    }
                    r
                },
                None => String::from_str("unknown seeds"),
            }
        } else {
            proof {
                lemma_amp_none(line@);
            }
            String::from_str("unknown seeds")
        }
    }
}

impl Default for PdaBumpDetector {
    /// The default detector equals a freshly created one.
    fn default() -> (r: PdaBumpDetector)
        ensures
            r == PdaBumpDetector,
    {
        PdaBumpDetector
    }
}

} // verus!
