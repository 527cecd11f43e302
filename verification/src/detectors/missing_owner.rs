//! Detects account fields whose owner is never validated: raw account
//! wrappers skip the automatic owner check, and without a constraint
//! any account of the right shape is accepted.

use vstd::prelude::*;

use crate::anchor::{AccountField, AccountType, Constraint, ConstraintType};
use crate::report::Severity;
use crate::text::{contains_lower, contains_lower_sub, contains_seq, contains_sub};

verus! {

/// Detector for missing owner validation.
pub struct MissingOwnerDetector;

/// Whether an account type skips the automatic owner check.
pub open spec fn needs_owner_check_spec(ty: AccountType) -> bool {
    ty is AccountInfo || ty is UncheckedAccount
}

/// Whether one constraint validates the owner: an owner or address
/// constraint, or a custom expression mentioning the owner or the
/// program identifier.
pub open spec fn constraint_checks_owner(c: Constraint) -> bool {
    match c.constraint_type {
        ConstraintType::Owner(_) => true,
        ConstraintType::Address(_) => true,
        ConstraintType::Constraint(expr) => contains_seq(expr@, "owner"@) || contains_seq(
            expr@,
            "program_id"@,
        ),
        _ => false,
    }
}

/// Whether a field name marks a well-known system account that needs
/// no owner check.
pub open spec fn is_known_system_name(name: Seq<char>) -> bool {
    contains_lower(name, "system_program"@) || contains_lower(name, "rent"@) || contains_lower(
        name,
        "clock"@,
    ) || contains_lower(name, "token_program"@)
}

/// Whether a field carries owner validation: some constraint checks
/// the owner, or the field is a well-known system account.
pub open spec fn has_owner_check_spec(field: AccountField) -> bool {
    (exists|i: int|
        0 <= i < field.constraints@.len() && constraint_checks_owner(field.constraints@[i]))
        || is_known_system_name(field.name@)
}

impl MissingOwnerDetector {
    /// Whether the field's type requires a manual owner check.
    pub fn needs_owner_check(&self, field: &AccountField) -> (r: bool)
        ensures
            r == needs_owner_check_spec(field.ty),
    {
        match &field.ty {
            AccountType::AccountInfo => true,
            AccountType::UncheckedAccount => true,
            _ => false,
        }
    }

    /// Whether the field carries owner validation.
    pub fn has_owner_check(&self, field: &AccountField) -> (r: bool)
        ensures
            r == has_owner_check_spec(*field),
    {
        let mut i: usize = 0;
        while i < field.constraints.len()
            invariant
                0 <= i <= field.constraints@.len(),
                forall|j: int| 0 <= j < i ==> !constraint_checks_owner(field.constraints@[j]),
            decreases field.constraints@.len() - i,
        {
            let c = &field.constraints[i];
            match &c.constraint_type {
                ConstraintType::Owner(_) => {
                    return true;
                },
                ConstraintType::Address(_) => {
                    return true;
                },
                ConstraintType::Constraint(expr) => {
                    if contains_sub(expr.as_str(), "owner") || contains_sub(
                        expr.as_str(),
                        "program_id",
                    ) {
                        return true;
                    }
                },
                _ => {},
            }
            i = i + 1;
        }
        let n = field.name.as_str();
        if contains_lower_sub(n, "system_program") || contains_lower_sub(n, "rent")
            || contains_lower_sub(n, "clock") || contains_lower_sub(n, "token_program") {
            return true;
        }
        false
    }

    /// The display name of an account type, for findings.
    pub fn type_label(&self, ty: &AccountType) -> (r: &'static str)
        ensures
            *ty is AccountInfo ==> r@ == "AccountInfo"@,
            *ty is UncheckedAccount ==> r@ == "UncheckedAccount"@,
    {
        match ty {
            AccountType::AccountInfo => "AccountInfo",
            AccountType::UncheckedAccount => "UncheckedAccount",
            _ => "Unknown",
        }
    }

    /// A code snippet showing the vulnerable declaration.
    pub fn generate_code_context(&self, field: &AccountField) -> (r: String)
        ensures
            r@ == "/// CHECK: Missing owner validation\npub "@ + field.name@
                + ": AccountInfo<'info>,"@,
    {
        let mut out = String::from_str("/// CHECK: Missing owner validation\npub ");
        out.append(field.name.as_str());
        out.append(": AccountInfo<'info>,");
        proof {
            assert(out@ =~= "/// CHECK: Missing owner validation\npub "@ + field.name@
                + ": AccountInfo<'info>,"@);
        }
        out
    }

    /// The identifier of this detector.
    pub fn id(&self) -> (r: &'static str)
        ensures
            r@ == "V002"@,
    {
        "V002"
    }

    /// The human-readable name of the vulnerability.
    pub fn name(&self) -> (r: &'static str)
        ensures
            r@ == "Missing Owner Check"@,
    {
        "Missing Owner Check"
    }

    /// What this detector looks for.
    pub fn description(&self) -> (r: &'static str)
        ensures
            r@ == "Detects raw account wrappers used without owner validation."@,
    {
        "Detects raw account wrappers used without owner validation."
    }

    /// The default severity of findings from this detector.
    pub fn severity(&self) -> (r: Severity)
        ensures
            r == Severity::High,
    {
        Severity::High
    }

    /// The weakness classification, when one applies.
    pub fn cwe(&self) -> (r: Option<&'static str>)
        ensures
            match r {
                Some(c) => c@ == "CWE-284"@,
                None => false,
            },
    {
        Some("CWE-284")
    }

    /// Remediation advice.
    pub fn remediation(&self) -> (r: &'static str)
        ensures
            r@ == "Use a typed account wrapper, or add an owner constraint to the declaration."@,
    {
        "Use a typed account wrapper, or add an owner constraint to the declaration."
    }
}

} // verus!
