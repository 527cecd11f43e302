//! Detects oracle price feeds consumed without staleness or validity
//! checks: stale or zero prices enable price-manipulation exploits.

use vstd::prelude::*;

use crate::detectors::utils::{is_error_context, is_error_context_spec, should_skip_line,
    should_skip_line_spec, win_lo};
use crate::report::Severity;
use crate::text::{contains_lower, contains_lower_sub, split_lines, split_lines_spec};

verus! {

/// Detector for unvalidated oracle reads.
pub struct OracleRisksDetector;

/// Whether one case-folded line shows a staleness or validity check.
pub open spec fn line_has_staleness_check(l: Seq<char>) -> bool {
    contains_lower(l, "timestamp"@) || contains_lower(l, "staleness"@) || contains_lower(
        l,
        "stale"@,
    ) || contains_lower(l, "price > 0"@) || contains_lower(l, "price != 0"@) || contains_lower(
        l,
        "price.is_positive"@,
    ) || contains_lower(l, "updated_at"@) || contains_lower(l, "publish_time"@) || contains_lower(
        l,
        "publish_slot"@,
    ) || contains_lower(l, "clock.slot"@) || contains_lower(l, "clock.unix_timestamp"@)
        || contains_lower(l, "no_older_than"@) || contains_lower(l, "max_age"@) || (contains_lower(
        l,
        "require!("@,
    ) && (contains_lower(l, "price"@) || contains_lower(l, "slot"@)))
}

/// Whether a staleness check appears within fifteen lines after the
/// oracle read.
pub open spec fn has_staleness_check_spec(src: Seq<char>, oracle_line: int) -> bool {
    exists|i: int|
        oracle_line <= i < oracle_line + 15 && 0 <= i < split_lines_spec(src).len()
            && line_has_staleness_check(split_lines_spec(src)[i])
}

/// Whether one case-folded line actually consumes an oracle, rather
/// than merely mentioning one.
pub open spec fn is_actual_oracle_call_spec(l: Seq<char>) -> bool {
    contains_lower(l, "get_price("@) || contains_lower(l, "get_current_price("@)
        || contains_lower(l, "get_asset_price("@) || contains_lower(l, ".price("@)
        || contains_lower(l, "oracle.load("@) || contains_lower(l, "price_feed.load("@)
        || contains_lower(l, "get_price_no_older_than("@) || contains_lower(l, "get_ema_price("@)
        || contains_lower(l, "price_account.get_price_unchecked("@) || contains_lower(
        l,
        "price_update.get_price_"@,
    ) || contains_lower(l, "aggregator.get_result("@) || contains_lower(l, "feed.get_result("@)
}

/// Whether one line of the source is flagged: an actual oracle call,
/// outside skipped and error-enum contexts, with no staleness check in
/// the following window.
pub open spec fn oracle_flagged(src: Seq<char>, i: int) -> bool {
    &&& 0 <= i < split_lines_spec(src).len()
    &&& !should_skip_line_spec(split_lines_spec(src)[i])
    &&& !is_error_context_spec(src, i)
    &&& is_actual_oracle_call_spec(split_lines_spec(src)[i])
    &&& !has_staleness_check_spec(src, i)
}

/// The flagged line indices, in order.
pub open spec fn oracle_flags(src: Seq<char>, upto: int) -> Seq<int>
    decreases upto,
{
    if upto <= 0 {
        Seq::empty()
    } else {
        let rest = oracle_flags(src, upto - 1);
        if oracle_flagged(src, upto - 1) {
            rest.push(upto - 1)
        } else {
            rest
        }
    }
}

impl OracleRisksDetector {
    /// Creates a new oracle risks detector instance.
    pub fn new() -> (r: OracleRisksDetector) {
        OracleRisksDetector
    }

    /// Whether staleness or validity checks exist within fifteen lines
    /// after the oracle read.
    pub fn has_staleness_check(&self, source: &str, oracle_line: usize) -> (r: bool)
        ensures
            r == has_staleness_check_spec(source@, oracle_line as int),
    {
        let lines = split_lines(source);
        let ghost ls = split_lines_spec(source@);
        let mut i: usize = oracle_line;
        while i < lines.len() && i - oracle_line < 15
            invariant
                lines@.map_values(|l: String| l@) == ls,
                ls == split_lines_spec(source@),
                oracle_line <= i,
                i as int <= oracle_line + 15,
                forall|j: int|
                    oracle_line <= j < i && j < ls.len() ==> !line_has_staleness_check(ls[j]),
            decreases oracle_line + 15 - i,
        {
            let l = lines[i].as_str();
            proof {
                assert(l@ == ls[i as int]);
            }
            if contains_lower_sub(l, "timestamp") || contains_lower_sub(l, "staleness")
                || contains_lower_sub(l, "stale") || contains_lower_sub(l, "price > 0")
                || contains_lower_sub(l, "price != 0") || contains_lower_sub(
                l,
                "price.is_positive",
            ) || contains_lower_sub(l, "updated_at") || contains_lower_sub(l, "publish_time")
                || contains_lower_sub(l, "publish_slot") || contains_lower_sub(l, "clock.slot")
                || contains_lower_sub(l, "clock.unix_timestamp") || contains_lower_sub(
                l,
                "no_older_than",
            ) || contains_lower_sub(l, "max_age") || (contains_lower_sub(l, "require!(") && (
            contains_lower_sub(l, "price") || contains_lower_sub(l, "slot"))) {
                return true;
            }
            i = i + 1;
        }
        false
    }

    /// Whether the line actually consumes an oracle method, rather than
    /// merely mentioning an oracle keyword.
    pub fn is_actual_oracle_call(&self, line: &str) -> (r: bool)
        ensures
            r == is_actual_oracle_call_spec(line@),
    {
        contains_lower_sub(line, "get_price(") || contains_lower_sub(line, "get_current_price(")
            || contains_lower_sub(line, "get_asset_price(") || contains_lower_sub(line, ".price(")
            || contains_lower_sub(line, "oracle.load(") || contains_lower_sub(
            line,
            "price_feed.load(",
        ) || contains_lower_sub(line, "get_price_no_older_than(") || contains_lower_sub(
            line,
            "get_ema_price(",
        ) || contains_lower_sub(line, "price_account.get_price_unchecked(") || contains_lower_sub(
            line,
            "price_update.get_price_",
        ) || contains_lower_sub(line, "aggregator.get_result(") || contains_lower_sub(
            line,
            "feed.get_result(",
        )
    }

    /// The lines where an oracle is consumed without validation, in
    /// order of appearance.
    pub fn scan(&self, source: &str) -> (r: Vec<usize>)
        ensures
            r@.map_values(|u: usize| u as int) == oracle_flags(
                source@,
                split_lines_spec(source@).len() as int,
            ),
    {
        let lines = split_lines(source);
        let ghost ls = split_lines_spec(source@);
        let mut out: Vec<usize> = Vec::new();
        let mut i: usize = 0;
        proof {
            assert(out@.map_values(|u: usize| u as int) =~= oracle_flags(source@, 0));
        }
        while i < lines.len()
            invariant
                lines@.map_values(|l: String| l@) == ls,
                ls == split_lines_spec(source@),
                0 <= i <= ls.len(),
                out@.map_values(|u: usize| u as int) == oracle_flags(source@, i as int),
            decreases ls.len() - i,
        {
            let l = lines[i].as_str();
            proof {
                assert(l@ == ls[i as int]);
            }
            let flagged = !should_skip_line(l) && !is_error_context(source, i)
                && self.is_actual_oracle_call(l) && !self.has_staleness_check(source, i);
            if flagged {
                let ghost prev = out@;
                out.push(i);
                proof {
                    assert(out@.drop_last() =~= prev);
                    assert(out@.map_values(|u: usize| u as int) =~= oracle_flags(
                        source@,
                        i + 1,
                    ));
                }
            } else {
                proof {
                    assert(out@.map_values(|u: usize| u as int) =~= oracle_flags(
                        source@,
                        i + 1,
                    ));
                }
            }
            i = i + 1;
        }
        out
    }

    /// The identifier of this detector.
    pub fn id(&self) -> (r: &'static str)
        ensures
            r@ == "V014"@,
    {
        "V014"
    }

    /// The human-readable name of the vulnerability.
    pub fn name(&self) -> (r: &'static str)
        ensures
            r@ == "Oracle Dependency Risks"@,
    {
        "Oracle Dependency Risks"
    }

    /// What this detector looks for.
    pub fn description(&self) -> (r: &'static str)
        ensures
            r@ == "Detects oracle price feeds without staleness or validity checks."@,
    {
        "Detects oracle price feeds without staleness or validity checks."
    }

    /// The default severity of findings from this detector.
    pub fn severity(&self) -> (r: Severity)
        ensures
            r == Severity::High,
    {
        Severity::High
    }

    /// The weakness classification, when one applies.
    pub fn cwe(&self) -> (r: Option<&'static str>)
        ensures
            match r {
                Some(c) => c@ == "CWE-829"@,
                None => false,
            },
    {
        Some("CWE-829")
    }

    /// Remediation advice.
    pub fn remediation(&self) -> (r: &'static str)
        ensures
            r@ == "Require a positive price and a fresh publish slot before using oracle data."@,
    {
        "Require a positive price and a fresh publish slot before using oracle data."
    }
}

impl Default for OracleRisksDetector {
    /// The default detector equals a freshly created one.
    fn default() -> (r: OracleRisksDetector)
        ensures
            r == OracleRisksDetector,
    {
        OracleRisksDetector
    }
}

} // verus!
