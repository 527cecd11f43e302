//! Detects division performed before multiplication: integer division
//! truncates first, and the following multiplication amplifies the
//! loss. Reordering to multiply first keeps the precision.

use vstd::prelude::*;

use crate::detectors::utils::{regex_is_match, regex_matches};
use crate::report::Severity;
use crate::text::{contains_seq, contains_sub, split_lines, split_lines_spec, starts_with_seq,
    starts_with_sub, trim_spec, trim_str};

verus! {

/// Detector for precision loss through division before multiplication.
pub struct PrecisionLossDetector;

/// Whether one line shows division followed by multiplication, outside
/// comments and imports, and not already using checked division.
pub open spec fn precision_loss_line(l: Seq<char>) -> bool {
    !starts_with_seq(trim_spec(l), "//"@) && !starts_with_seq(trim_spec(l), "use "@)
        && regex_matches("\\)?\\s*/\\s*\\w+\\s*\\)\\s*\\*|\\w+\\s*/\\s*\\w+\\s*\\*"@, l)
        && !contains_seq(l, "checked_div"@)
}

/// The flagged line indices, in order.
pub open spec fn precision_loss_flags(lines: Seq<Seq<char>>) -> Seq<int>
    decreases lines.len(),
{
    if lines.len() == 0 {
        Seq::empty()
    } else {
        let rest = precision_loss_flags(lines.drop_last());
        if precision_loss_line(lines.last()) {
            rest.push(lines.len() - 1)
        } else {
            rest
        }
    }
}

impl PrecisionLossDetector {
    /// Creates a new detector instance.
    pub fn new() -> (r: PrecisionLossDetector) {
        PrecisionLossDetector
    }

    /// The lines showing division before multiplication, in order of
    /// appearance.
    pub fn scan(&self, source: &str) -> (r: Vec<usize>)
        ensures
            r@.map_values(|u: usize| u as int) == precision_loss_flags(split_lines_spec(source@)),
    {
        let lines = split_lines(source);
        let ghost ls = split_lines_spec(source@);
        let mut out: Vec<usize> = Vec::new();
        let mut i: usize = 0;
        proof {
            assert(ls.subrange(0, 0) =~= Seq::<Seq<char>>::empty());
            assert(out@.map_values(|u: usize| u as int) =~= precision_loss_flags(
                ls.subrange(0, 0),
            ));
        }
        while i < lines.len()
            invariant
                lines@.map_values(|l: String| l@) == ls,
                ls == split_lines_spec(source@),
                0 <= i <= ls.len(),
                out@.map_values(|u: usize| u as int) == precision_loss_flags(
                    ls.subrange(0, i as int),
                ),
            decreases ls.len() - i,
        {
            proof {
                assert(ls.subrange(0, i + 1).drop_last() =~= ls.subrange(0, i as int));
                assert(ls.subrange(0, i + 1).last() == ls[i as int]);
            }
            let l = lines[i].as_str();
            proof {
                assert(l@ == ls[i as int]);
            }
            let t = trim_str(l);
            if !starts_with_sub(t, "//") && !starts_with_sub(t, "use ") && regex_is_match(
                "\\)?\\s*/\\s*\\w+\\s*\\)\\s*\\*|\\w+\\s*/\\s*\\w+\\s*\\*",
                l,
            ) && !contains_sub(l, "checked_div") {
                let ghost prev = out@;
                out.push(i);
                proof {
                    assert(out@.drop_last() =~= prev);
                    assert(out@.map_values(|u: usize| u as int) =~= precision_loss_flags(
                        ls.subrange(0, i + 1),
                    ));
                }
            } else {
                proof {
                    assert(out@.map_values(|u: usize| u as int) =~= precision_loss_flags(
                        ls.subrange(0, i + 1),
                    ));
                }
            }
            i = i + 1;
        }
        proof {
            assert(ls.subrange(0, ls.len() as int) =~= ls);
        }
        out
    }

    /// The identifier of this detector.
    pub fn id(&self) -> (r: &'static str)
        ensures
            r@ == "V026"@,
    {
        "V026"
    }

    /// The human-readable name of the vulnerability.
    pub fn name(&self) -> (r: &'static str)
        ensures
            r@ == "Precision Loss"@,
    {
        "Precision Loss"
    }

    /// What this detector looks for.
    pub fn description(&self) -> (r: &'static str)
        ensures
            r@ == "Detects division before multiplication patterns that cause precision loss."@,
    {
        "Detects division before multiplication patterns that cause precision loss."
    }

    /// The default severity of findings from this detector.
    pub fn severity(&self) -> (r: Severity)
        ensures
            r == Severity::Medium,
    {
        Severity::Medium
    }

    /// The weakness classification, when one applies.
    pub fn cwe(&self) -> (r: Option<&'static str>)
        ensures
            match r {
                Some(c) => c@ == "CWE-682"@,
                None => false,
            },
    {
        Some("CWE-682")
    }

    /// Remediation advice.
    pub fn remediation(&self) -> (r: &'static str)
        ensures
            r@ == "Reorder the computation to multiply before dividing."@,
    {
        "Reorder the computation to multiply before dividing."
    }
}

impl Default for PrecisionLossDetector {
    /// The default detector equals a freshly created one.
    fn default() -> (r: PrecisionLossDetector)
        ensures
            r == PrecisionLossDetector,
    {
        PrecisionLossDetector
    }
}

} // verus!
