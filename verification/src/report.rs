//! Severity classification for findings. Rendering of full reports —
//! colored terminal output, serialized documents — lives outside the
//! library; the classification logic itself is here.

use vstd::prelude::*;

use crate::text::{lower_seq, to_lower, str_eq};

verus! {

/// Severity level of a finding, from lowest to highest.
#[derive(Clone, Copy, PartialEq, Eq, Structural, Debug, PartialOrd, Ord, Hash)]
pub enum Severity {
    /// Informational finding, no direct security impact.
    Info,
    /// Low severity, minimal security impact.
    Low,
    /// Medium severity, moderate security impact.
    Medium,
    /// High severity, significant security impact.
    High,
    /// Critical severity, severe security impact.
    Critical,
}

/// The numeric rank of a severity level, for ordering: higher is worse.
pub open spec fn severity_rank_spec(s: Severity) -> u32 {
    match s {
        Severity::Info => 0u32,
        Severity::Low => 1u32,
        Severity::Medium => 2u32,
        Severity::High => 3u32,
        Severity::Critical => 4u32,
    }
}

/// The severity a case-folded label names; unknown labels are
/// informational.
pub open spec fn severity_from_str_spec(s: Seq<char>) -> Severity {
    if lower_seq(s) == "critical"@ {
        Severity::Critical
    } else if lower_seq(s) == "high"@ {
        Severity::High
    } else if lower_seq(s) == "medium"@ {
        Severity::Medium
    } else if lower_seq(s) == "low"@ {
        Severity::Low
    } else {
        Severity::Info
    }
}

impl Severity {
    /// Parses a severity from a label, ignoring case; unknown labels
    /// parse as informational, never as an error.
    pub fn from_str(s: &str) -> (r: Severity)
        ensures
            r == severity_from_str_spec(s@),
    {
        let lower = to_lower(s);
        let l = lower.as_str();
        if str_eq(l, "critical") {
            Severity::Critical
        } else if str_eq(l, "high") {
            Severity::High
        } else if str_eq(l, "medium") {
            Severity::Medium
        } else if str_eq(l, "low") {
            Severity::Low
        } else {
            Severity::Info
        }
    }

    /// The rank of this severity: higher is worse.
    pub fn rank(&self) -> (r: u32)
        ensures
            r == severity_rank_spec(*self),
    {
        match self {
            Severity::Info => 0,
            Severity::Low => 1,
            Severity::Medium => 2,
            Severity::High => 3,
            Severity::Critical => 4,
        }
    }

    /// The plain-text label of this severity.
    pub fn label(&self) -> (r: &'static str)
        ensures
            *self == Severity::Critical ==> r@ == "CRITICAL"@,
            *self == Severity::High ==> r@ == "HIGH"@,
            *self == Severity::Medium ==> r@ == "MEDIUM"@,
            *self == Severity::Low ==> r@ == "LOW"@,
            *self == Severity::Info ==> r@ == "INFO"@,
    {
        match self {
            Severity::Critical => "CRITICAL",
            Severity::High => "HIGH",
            Severity::Medium => "MEDIUM",
            Severity::Low => "LOW",
            Severity::Info => "INFO",
        }
    }

    /// The badge used in rendered documents.
    pub fn markdown_badge(&self) -> (r: &'static str) {
        match self {
            Severity::Critical => "![critical](https://img.shields.io/badge/severity-critical-red)",
            Severity::High => "![high](https://img.shields.io/badge/severity-high-orange)",
            Severity::Medium => "![medium](https://img.shields.io/badge/severity-medium-yellow)",
            Severity::Low => "![low](https://img.shields.io/badge/severity-low-blue)",
            Severity::Info => "![info](https://img.shields.io/badge/severity-info-lightgrey)",
        }
    }

    /// A short text indicator for terminal-style listings.
    pub fn indicator(&self) -> (r: &'static str) {
        match self {
            Severity::Critical => "[!!!]",
            Severity::High => "[!! ]",
            Severity::Medium => "[!  ]",
            Severity::Low => "[~  ]",
            Severity::Info => "[i  ]",
        }
    }
}

/// Ranks distinguish severities exactly: two levels share a rank if
/// and only if they are the same level.
pub proof fn lemma_severity_rank_injective(a: Severity, b: Severity)
    ensures
        severity_rank_spec(a) == severity_rank_spec(b) <==> a == b,
{
}

} // verus!
