//! Detects risky account initialization: reinitializable accounts,
//! missing space allocations and missing payers.

use vstd::prelude::*;

use crate::anchor::{AccountField, ConstraintType, ConstraintTypeModel};
use crate::report::Severity;

verus! {

/// Detector for unchecked account initialization.
pub struct UncheckedInitDetector;

/// The space expression carried by one constraint, when it is a space
/// constraint.
pub open spec fn constraint_space(c: crate::anchor::Constraint) -> Option<Seq<char>> {
    match c.constraint_type {
        ConstraintType::Space(e) => Some(e@),
        _ => None,
    }
}

impl UncheckedInitDetector {
    /// Whether the field may be initialized repeatedly.
    pub fn has_init_if_needed(&self, field: &AccountField) -> (r: bool)
        ensures
            r == exists|i: int|
                0 <= i < field.constraints@.len() && field.constraints@[i].constraint_type@
                    is InitIfNeeded,
    {
        let mut i: usize = 0;
        while i < field.constraints.len()
            invariant
                0 <= i <= field.constraints@.len(),
                forall|j: int|
                    0 <= j < i ==> !(field.constraints@[j].constraint_type@ is InitIfNeeded),
            decreases field.constraints@.len() - i,
        {
            match &field.constraints[i].constraint_type {
                ConstraintType::InitIfNeeded => {
                    return true;
                },
                _ => {},
            }
            i = i + 1;
        }
        false
    }

    /// Whether the field allocates space explicitly.
    pub fn has_space_constraint(&self, field: &AccountField) -> (r: bool)
        ensures
            r == exists|i: int|
                0 <= i < field.constraints@.len() && field.constraints@[i].constraint_type@
                    is Space,
    {
        let mut i: usize = 0;
        while i < field.constraints.len()
            invariant
                0 <= i <= field.constraints@.len(),
                forall|j: int| 0 <= j < i ==> !(field.constraints@[j].constraint_type@ is Space),
            decreases field.constraints@.len() - i,
        {
            match &field.constraints[i].constraint_type {
                ConstraintType::Space(_) => {
                    return true;
                },
                _ => {},
            }
            i = i + 1;
        }
        false
    }

    /// Whether the field names a paying account.
    pub fn has_payer_constraint(&self, field: &AccountField) -> (r: bool)
        ensures
            r == exists|i: int|
                0 <= i < field.constraints@.len() && field.constraints@[i].constraint_type@
                    is Payer,
    {
        let mut i: usize = 0;
        while i < field.constraints.len()
            invariant
                0 <= i <= field.constraints@.len(),
                forall|j: int| 0 <= j < i ==> !(field.constraints@[j].constraint_type@ is Payer),
            decreases field.constraints@.len() - i,
        {
            match &field.constraints[i].constraint_type {
                ConstraintType::Payer(_) => {
                    return true;
                },
                _ => {},
            }
            i = i + 1;
        }
        false
    }

    /// The space expression of the first space constraint, if any.
    pub fn get_space_expression(&self, field: &AccountField) -> (r: Option<String>)
        ensures
            match r {
                Some(e) => exists|i: int|
                    0 <= i < field.constraints@.len() && constraint_space(
                        #[trigger] field.constraints@[i],
                    ) == Some(e@),
                None => forall|i: int|
                    0 <= i < field.constraints@.len() ==> constraint_space(
                        #[trigger] field.constraints@[i],
                    ) is None,
            },
    {
        let mut i: usize = 0;
        while i < field.constraints.len()
            invariant
                0 <= i <= field.constraints@.len(),
                forall|j: int|
                    0 <= j < i ==> constraint_space(#[trigger] field.constraints@[j]) is None,
            decreases field.constraints@.len() - i,
        {
            match &field.constraints[i].constraint_type {
                ConstraintType::Space(expr) => {
                    return Some(expr.clone());
                },
                _ => {},
            }
            i = i + 1;
        }
        None
    }

    /// An example contrasting the reinitializable pattern with the safe
    /// separate-initializer pattern, for the given field.
    pub fn generate_init_if_needed_example(&self, field: &AccountField) -> (r: String)
        ensures
            r@ == "// Vulnerable pattern:\n#[account(init_if_needed, ...)]\npub "@ + field.name@
                + ": Account<'info, T>,\n\n// Safer alternative - use a separate initialize instruction.\n// In the initializer:\n#[account(init, payer = user, space = 8 + T::INIT_SPACE)]\npub "@
                + field.name@
                + ": Account<'info, T>,\n\n// In other instructions:\n#[account(mut, has_one = authority)]\npub "@
                + field.name@ + ": Account<'info, T>,"@,
    {
        let mut out = String::from_str("// Vulnerable pattern:\n#[account(init_if_needed, ...)]\npub ");
        out.append(field.name.as_str());
        out.append(
            ": Account<'info, T>,\n\n// Safer alternative - use a separate initialize instruction.\n// In the initializer:\n#[account(init, payer = user, space = 8 + T::INIT_SPACE)]\npub ",
        );
        out.append(field.name.as_str());
        out.append(
            ": Account<'info, T>,\n\n// In other instructions:\n#[account(mut, has_one = authority)]\npub ",
        );
        out.append(field.name.as_str());
        out.append(": Account<'info, T>,");
        proof {
            assert(out@ =~= "// Vulnerable pattern:\n#[account(init_if_needed, ...)]\npub "@
                + field.name@
                + ": Account<'info, T>,\n\n// Safer alternative - use a separate initialize instruction.\n// In the initializer:\n#[account(init, payer = user, space = 8 + T::INIT_SPACE)]\npub "@
                + field.name@
                + ": Account<'info, T>,\n\n// In other instructions:\n#[account(mut, has_one = authority)]\npub "@
                + field.name@ + ": Account<'info, T>,"@);
        }
        out
    }

    /// The identifier of this detector.
    pub fn id(&self) -> (r: &'static str)
        ensures
            r@ == "V005"@,
    {
        "V005"
    }

    /// The human-readable name of the vulnerability.
    pub fn name(&self) -> (r: &'static str)
        ensures
            r@ == "Unchecked Initialization"@,
    {
        "Unchecked Initialization"
    }

    /// What this detector looks for.
    pub fn description(&self) -> (r: &'static str)
        ensures
            r@ == "Detects reinitializable accounts and initialization without space or payer."@,
    {
        "Detects reinitializable accounts and initialization without space or payer."
    }

    /// The default severity of findings from this detector.
    pub fn severity(&self) -> (r: Severity)
        ensures
            r == Severity::High,
    {
        Severity::High
    }

    /// The weakness classification, when one applies.
    pub fn cwe(&self) -> (r: Option<&'static str>)
        ensures
            match r {
                Some(c) => c@ == "CWE-665"@,
                None => false,
            },
    {
        Some("CWE-665")
    }

    /// Remediation advice.
    pub fn remediation(&self) -> (r: &'static str)
        ensures
            r@ == "Initialize once through a dedicated instruction, with explicit space and payer."@,
    {
        "Initialize once through a dedicated instruction, with explicit space and payer."
    }
}

} // verus!
