//! Detects signed invocations without replay protection: an observed
//! transaction can be resubmitted unless a nonce or sequence number
//! pins it.

use vstd::prelude::*;

use crate::detectors::utils::win_lo;
use crate::report::Severity;
use crate::text::{contains_lower, contains_lower_sub, contains_seq, contains_sub, split_lines,
    split_lines_spec};

verus! {

/// Whether one line shows replay protection.
pub open spec fn line_has_replay_protection(l: Seq<char>) -> bool {
    contains_lower(l, "nonce"@) || contains_lower(l, "recent_blockhash"@) || contains_lower(l, "sequence"@) || contains_lower(l, "tx_id"@) || contains_lower(l, "used_nonces"@)
}

/// Whether the check appears in the 20 lines before line `invoke_line`.
pub open spec fn has_replay_protection_spec(src: Seq<char>, invoke_line: int) -> bool {
    exists|i: int|
        win_lo(invoke_line, 20) <= i < invoke_line && 0 <= i < split_lines_spec(src).len()
            && line_has_replay_protection(split_lines_spec(src)[i])
}

/// Detector for replayable signed invocations.
pub struct ReplayAttackDetector;

impl ReplayAttackDetector {
    /// Creates a new detector instance.
    pub fn new() -> (r: ReplayAttackDetector) {
        ReplayAttackDetector
    }

    /// Scans the 20 lines before line `invoke_line` for the protecting
    /// pattern.
    pub fn has_replay_protection(&self, source: &str, invoke_line: usize) -> (r: bool)
        ensures
            r == has_replay_protection_spec(source@, invoke_line as int),
    {
        let lines = split_lines(source);
        let ghost ls = split_lines_spec(source@);
        let start: usize = if invoke_line >= 20 {
            invoke_line - 20
        } else {
            0
        };
        let mut i: usize = start;
        while i < invoke_line
            invariant
                lines@.map_values(|l: String| l@) == ls,
                ls == split_lines_spec(source@),
                start == win_lo(invoke_line as int, 20),
                start <= i <= invoke_line,
                forall|j: int|
                    start <= j < i && j < ls.len() ==> !line_has_replay_protection(ls[j]),
            decreases invoke_line - i,
        {
            if i < lines.len() {
                let l = lines[i].as_str();
                proof {
                    assert(l@ == ls[i as int]);
                }
                if contains_lower_sub(l, "nonce") || contains_lower_sub(l, "recent_blockhash") || contains_lower_sub(l, "sequence") || contains_lower_sub(l, "tx_id") || contains_lower_sub(l, "used_nonces") {
                    return true;
                }
            }
            i = i + 1;
        }
        false
    }

    /// The identifier of this detector.
    pub fn id(&self) -> (r: &'static str)
        ensures
            r@ == "V015"@,
    {
        "V015"
    }

    /// The human-readable name of the vulnerability.
    pub fn name(&self) -> (r: &'static str)
        ensures
            r@ == "Sequence Number Mismatch"@,
    {
        "Sequence Number Mismatch"
    }

    /// What this detector looks for.
    pub fn description(&self) -> (r: &'static str)
        ensures
            r@ == "Detects signed invocations without nonce or sequence replay protection."@,
    {
        "Detects signed invocations without nonce or sequence replay protection."
    }

    /// The default severity of findings from this detector.
    pub fn severity(&self) -> (r: Severity)
        ensures
            r == Severity::Critical,
    {
        Severity::Critical
    }

    /// The weakness classification, when one applies.
    pub fn cwe(&self) -> (r: Option<&'static str>)
        ensures
            match r {
                Some(c) => c@ == "CWE-294"@,
                None => false,
            },
    {
        Some("CWE-294")
    }

    /// Remediation advice.
    pub fn remediation(&self) -> (r: &'static str)
        ensures
            r@ == "Track a nonce or sequence number per actor and require it to advance on every invocation."@,
    {
        "Track a nonce or sequence number per actor and require it to advance on every invocation."
    }
}

impl Default for ReplayAttackDetector {
    /// The default detector equals a freshly created one.
    fn default() -> (r: ReplayAttackDetector)
        ensures
            r == ReplayAttackDetector,
    {
        ReplayAttackDetector
    }
}

} // verus!
