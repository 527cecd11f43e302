//! Detects cross-program invocations whose program identifier comes
//! from an untrusted account instead of a hardcoded known identifier:
//! an attacker can substitute a malicious program.

use vstd::prelude::*;

use crate::detectors::utils::win_lo;
use crate::report::Severity;
use crate::text::{contains_lower, contains_lower_sub, contains_seq, contains_sub, lower_seq,
    split_lines, split_lines_spec, to_lower};

verus! {

/// Detector for arbitrary cross-program invocation targets.
pub struct ArbitraryCpiDetector;

/// Whether a rendered identifier names one of the well-known safe
/// programs.
pub open spec fn is_safe_program_id_spec(id: Seq<char>) -> bool {
    contains_seq(id, "spl_token::ID"@) || contains_seq(id, "TOKEN_PROGRAM_ID"@) || contains_seq(
        id,
        "token_program::ID"@,
    ) || contains_seq(id, "system_program::ID"@) || contains_seq(id, "SYSTEM_PROGRAM_ID"@)
        || contains_seq(id, "associated_token::ID"@) || contains_seq(
        id,
        "ASSOCIATED_TOKEN_PROGRAM_ID"@,
    ) || contains_seq(id, "anchor_spl::token::ID"@) || contains_seq(
        id,
        "anchor_lang::system_program::ID"@,
    ) || contains_seq(id, "token_2022::ID"@) || contains_seq(id, "mpl_token_metadata::ID"@)
}

/// Whether one case-folded line validates the named program variable:
/// a requirement or constraint mentioning the variable and a key or
/// identifier.
pub open spec fn line_validates_program(l: Seq<char>, var_lower: Seq<char>) -> bool {
    (contains_lower(l, "require!"@) || contains_lower(l, "constraint"@)) && contains_seq(
        lower_seq(l),
        var_lower,
    ) && (contains_lower(l, "key"@) || contains_lower(l, "id"@))
}

/// Whether the program variable is validated in the fifteen lines
/// before the invocation.
pub open spec fn is_program_validated_spec(
    src: Seq<char>,
    program_var: Seq<char>,
    invoke_line: int,
) -> bool {
    exists|i: int|
        win_lo(invoke_line, 15) <= i < invoke_line && 0 <= i < split_lines_spec(src).len()
            && line_validates_program(split_lines_spec(src)[i], lower_seq(program_var))
}

impl ArbitraryCpiDetector {
    /// Creates a new detector instance.
    pub fn new() -> (r: ArbitraryCpiDetector) {
        ArbitraryCpiDetector
    }

    /// Whether an identifier names a well-known safe program that is
    /// acceptable as an invocation target.
    pub fn is_safe_program_id(&self, id: &str) -> (r: bool)
        ensures
            r == is_safe_program_id_spec(id@),
    {
        contains_sub(id, "spl_token::ID") || contains_sub(id, "TOKEN_PROGRAM_ID") || contains_sub(
            id,
            "token_program::ID",
        ) || contains_sub(id, "system_program::ID") || contains_sub(id, "SYSTEM_PROGRAM_ID")
            || contains_sub(id, "associated_token::ID") || contains_sub(
            id,
            "ASSOCIATED_TOKEN_PROGRAM_ID",
        ) || contains_sub(id, "anchor_spl::token::ID") || contains_sub(
            id,
            "anchor_lang::system_program::ID",
        ) || contains_sub(id, "token_2022::ID") || contains_sub(id, "mpl_token_metadata::ID")
    }

    /// Whether the program variable is validated before its use as an
    /// invocation target.
    pub fn is_program_validated(&self, source: &str, program_var: &str, invoke_line: usize) -> (r:
        bool)
        ensures
            r == is_program_validated_spec(source@, program_var@, invoke_line as int),
    {
        let lines = split_lines(source);
        let ghost ls = split_lines_spec(source@);
        let var_lower = to_lower(program_var);
        let start: usize = if invoke_line >= 15 {
            invoke_line - 15
        } else {
            0
        };
        let mut i: usize = start;
        while i < invoke_line
            invariant
                lines@.map_values(|l: String| l@) == ls,
                ls == split_lines_spec(source@),
                var_lower@ == lower_seq(program_var@),
                start == win_lo(invoke_line as int, 15),
                start <= i <= invoke_line,
                forall|j: int|
                    start <= j < i && j < ls.len() ==> !line_validates_program(
                        ls[j],
                        lower_seq(program_var@),
                    ),
            decreases invoke_line - i,
        {
            if i < lines.len() {
                let l = lines[i].as_str();
                proof {
                    assert(l@ == ls[i as int]);
                }
                if (contains_lower_sub(l, "require!") || contains_lower_sub(l, "constraint"))
                    && contains_lower_sub(l, var_lower.as_str()) && (contains_lower_sub(l, "key")
                    || contains_lower_sub(l, "id")) {
                    return true;
                }
            }
            i = i + 1;
        }
        false
    }

    /// The identifier of this detector.
    pub fn id(&self) -> (r: &'static str)
        ensures
            r@ == "V025"@,
    {
        "V025"
    }

    /// The human-readable name of the vulnerability.
    pub fn name(&self) -> (r: &'static str)
        ensures
            r@ == "Arbitrary CPI Program ID"@,
    {
        "Arbitrary CPI Program ID"
    }

    /// What this detector looks for.
    pub fn description(&self) -> (r: &'static str)
        ensures
            r@ == "Detects invocations whose program identifier comes from an untrusted source without validation."@,
    {
        "Detects invocations whose program identifier comes from an untrusted source without validation."
    }

    /// The default severity of findings from this detector.
    pub fn severity(&self) -> (r: Severity)
        ensures
            r == Severity::Critical,
    {
        Severity::Critical
    }

    /// The weakness classification, when one applies.
    pub fn cwe(&self) -> (r: Option<&'static str>)
        ensures
            match r {
                Some(c) => c@ == "CWE-284"@,
                None => false,
            },
    {
        Some("CWE-284")
    }

    /// Remediation advice.
    pub fn remediation(&self) -> (r: &'static str)
        ensures
            r@ == "Use a hardcoded program identifier, or require equality with the expected one before invoking."@,
    {
        "Use a hardcoded program identifier, or require equality with the expected one before invoking."
    }
}

impl Default for ArbitraryCpiDetector {
    /// The default detector equals a freshly created one.
    fn default() -> (r: ArbitraryCpiDetector)
        ensures
            r == ArbitraryCpiDetector,
    {
        ArbitraryCpiDetector
    }
}

} // verus!
