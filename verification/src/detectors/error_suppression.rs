//! Detects invocation results whose errors are propagated without
//! context or mapping: failures become indistinguishable upstream.

use vstd::prelude::*;

use crate::detectors::utils::{regex_is_match, regex_matches};
use crate::report::Severity;
use crate::text::{contains_seq, contains_sub, split_lines, split_lines_spec};

verus! {

/// Detector for suppressed invocation errors.
pub struct ErrorSuppressionDetector;

/// Whether one line propagates an invocation error without mapping it.
pub open spec fn suppression_line(l: Seq<char>) -> bool {
    regex_matches("invoke(_signed)?\\s*\\([^)]+\\)\\s*\\?"@, l) && !contains_seq(
        l,
        "map_err"@,
    )
}

/// The flagged line indices, in order.
pub open spec fn suppression_flags(lines: Seq<Seq<char>>) -> Seq<int>
    decreases lines.len(),
{
    if lines.len() == 0 {
        Seq::empty()
    } else {
        let rest = suppression_flags(lines.drop_last());
        if suppression_line(lines.last()) {
            rest.push(lines.len() - 1)
        } else {
            rest
        }
    }
}

impl ErrorSuppressionDetector {
    /// Creates a new detector instance.
    pub fn new() -> (r: ErrorSuppressionDetector) {
        ErrorSuppressionDetector
    }

    /// The lines whose invocation errors are propagated unmapped, in
    /// order of appearance.
    pub fn scan(&self, source: &str) -> (r: Vec<usize>)
        ensures
            r@.map_values(|u: usize| u as int) == suppression_flags(split_lines_spec(source@)),
    {
        let lines = split_lines(source);
        let ghost ls = split_lines_spec(source@);
        let mut out: Vec<usize> = Vec::new();
        let mut i: usize = 0;
        proof {
            assert(ls.subrange(0, 0) =~= Seq::<Seq<char>>::empty());
            assert(out@.map_values(|u: usize| u as int) =~= suppression_flags(
                ls.subrange(0, 0),
            ));
        }
        while i < lines.len()
            invariant
                lines@.map_values(|l: String| l@) == ls,
                ls == split_lines_spec(source@),
                0 <= i <= ls.len(),
                out@.map_values(|u: usize| u as int) == suppression_flags(
                    ls.subrange(0, i as int),
                ),
            decreases ls.len() - i,
        {
            proof {
                assert(ls.subrange(0, i + 1).drop_last() =~= ls.subrange(0, i as int));
                assert(ls.subrange(0, i + 1).last() == ls[i as int]);
            }
            let l = lines[i].as_str();
            proof {
                assert(l@ == ls[i as int]);
            }
            if regex_is_match("invoke(_signed)?\\s*\\([^)]+\\)\\s*\\?", l) && !contains_sub(
                l,
                "map_err",
            ) {
                let ghost prev = out@;
                out.push(i);
                proof {
                    assert(out@.drop_last() =~= prev);
                    assert(out@.map_values(|u: usize| u as int) =~= suppression_flags(
                        ls.subrange(0, i + 1),
                    ));
                }
            } else {
                proof {
                    assert(out@.map_values(|u: usize| u as int) =~= suppression_flags(
                        ls.subrange(0, i + 1),
                    ));
                }
            }
            i = i + 1;
        }
        proof {
            assert(ls.subrange(0, ls.len() as int) =~= ls);
        }
        out
    }

    /// The identifier of this detector.
    pub fn id(&self) -> (r: &'static str)
        ensures
            r@ == "V018"@,
    {
        "V018"
    }

    /// The human-readable name of the vulnerability.
    pub fn name(&self) -> (r: &'static str)
        ensures
            r@ == "Error Handling Suppression"@,
    {
        "Error Handling Suppression"
    }

    /// What this detector looks for.
    pub fn description(&self) -> (r: &'static str)
        ensures
            r@ == "Detects invocation errors propagated without mapping or context."@,
    {
        "Detects invocation errors propagated without mapping or context."
    }

    /// The default severity of findings from this detector.
    pub fn severity(&self) -> (r: Severity)
        ensures
            r == Severity::Low,
    {
        Severity::Low
    }

    /// The weakness classification, when one applies.
    pub fn cwe(&self) -> (r: Option<&'static str>)
        ensures
            match r {
                Some(c) => c@ == "CWE-755"@,
                None => false,
            },
    {
        Some("CWE-755")
    }

    /// Remediation advice.
    pub fn remediation(&self) -> (r: &'static str)
        ensures
            r@ == "Map invocation errors to program errors with context before propagating them."@,
    {
        "Map invocation errors to program errors with context before propagating them."
    }
}

impl Default for ErrorSuppressionDetector {
    /// The default detector equals a freshly created one.
    fn default() -> (r: ErrorSuppressionDetector)
        ensures
            r == ErrorSuppressionDetector,
    {
        ErrorSuppressionDetector
    }
}

} // verus!
