//! Semantic-analysis core of a static-analysis security scanner for
//! account-oriented smart-contract programs.
//!
//! The library is organised around three engines:
//!
//! - a cross-file program index ([`context`]) resolving struct, account,
//!   constant and instruction metadata;
//! - a taint-propagation engine ([`taint`]) tracking whether a runtime value
//!   is attacker-controlled as it flows through a function body;
//! - a scope-sensitive control-flow approximation ([`cfg`]) tracking the
//!   nesting depth at which a value was validated versus used.
//!
//! The engines walk a tagged-union program tree ([`ast`]); producing that
//! tree from concrete syntax is the job of an external parser front end.
//! Pattern-based detectors ([`detectors`]) consume the engines or raw
//! source text; the typed records their account-level rules read are in
//! [`anchor`], findings are classified by [`report`], and the verified
//! text utilities everything rests on are in [`text`].

pub mod anchor;
pub mod ast;
pub mod cfg;
pub mod context;
pub mod detectors;
pub mod report;
pub mod taint;
pub mod text;

pub use cfg::ScopeTracker;
pub use context::ProgramContext;
pub use report::Severity;
pub use taint::TaintTracker;
pub use text::str_eq;
