//! Detects raw cross-program invocations that bypass typed contexts:
//! the callee program and accounts arrive unchecked.

use vstd::prelude::*;

use crate::report::Severity;

verus! {

/// Detector for raw, untyped cross-program invocations.
pub struct UnsafeCpiDetector;

impl UnsafeCpiDetector {
    /// Creates a new detector instance.
    pub fn new() -> (r: UnsafeCpiDetector) {
        UnsafeCpiDetector
    }

    /// The identifier of this detector.
    pub fn id(&self) -> (r: &'static str)
        ensures
            r@ == "V006"@,
    {
        "V006"
    }

    /// The human-readable name of the vulnerability.
    pub fn name(&self) -> (r: &'static str)
        ensures
            r@ == "Unsafe CPI"@,
    {
        "Unsafe CPI"
    }

    /// What this detector looks for.
    pub fn description(&self) -> (r: &'static str)
        ensures
            r@ == "Detects raw invocations bypassing typed program accounts and contexts."@,
    {
        "Detects raw invocations bypassing typed program accounts and contexts."
    }

    /// The default severity of findings from this detector.
    pub fn severity(&self) -> (r: Severity)
        ensures
            r == Severity::Critical,
    {
        Severity::Critical
    }

    /// The weakness classification, when one applies.
    pub fn cwe(&self) -> (r: Option<&'static str>)
        ensures
            match r {
                Some(c) => c@ == "CWE-749"@,
                None => false,
            },
    {
        Some("CWE-749")
    }

    /// Remediation advice.
    pub fn remediation(&self) -> (r: &'static str)
        ensures
            r@ == "Invoke through a typed context with a typed program account."@,
    {
        "Invoke through a typed context with a typed program account."
    }

    /// An example contrasting the vulnerable raw-invocation pattern
    /// with the typed, safe one.
    pub fn generate_code_context(&self) -> (r: String) {
        String::from_str(
            "// Vulnerable: raw invoke with a caller-supplied program\ninvoke(&instruction, &[account1, account2, program.to_account_info()])?;\n\n// Safe: typed program account with a checked context\nlet cpi_ctx = CpiContext::new(ctx.accounts.token_program.to_account_info(), Transfer { });\ntoken::transfer(cpi_ctx, amount)?;",
        )
    }
}

} // verus!
