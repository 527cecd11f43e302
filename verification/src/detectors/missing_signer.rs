//! Detects authority-like accounts that are not required to sign: a
//! caller can pass any account in an authority position unless the
//! declaration demands a signature.

use vstd::prelude::*;

use crate::anchor::{AccountField, AccountStruct, AccountType, Constraint, ConstraintType};
use crate::report::Severity;
use crate::text::{contains_lower, contains_lower_sub};

verus! {

/// Detector for missing signer requirements.
pub struct MissingSignerDetector;

/// Whether a case-folded field name sounds like an authority.
pub open spec fn has_authority_name(name: Seq<char>) -> bool {
    contains_lower(name, "authority"@) || contains_lower(name, "owner"@) || contains_lower(
        name,
        "admin"@,
    ) || contains_lower(name, "manager"@) || contains_lower(name, "operator"@) || contains_lower(
        name,
        "signer"@,
    ) || contains_lower(name, "payer"@) || contains_lower(name, "creator"@) || contains_lower(
        name,
        "initializer"@,
    ) || contains_lower(name, "controller"@) || contains_lower(name, "governor"@)
}

/// Whether a field looks like an authority that should sign: its name
/// sounds like one, or it is a mutable raw account.
pub open spec fn is_potential_authority_spec(field: AccountField) -> bool {
    has_authority_name(field.name@) || (field.is_mutable && field.ty is AccountInfo)
}

impl MissingSignerDetector {
    /// Whether the field appears to be an authority that should sign.
    pub fn is_potential_authority(&self, field: &AccountField) -> (r: bool)
        ensures
            r == is_potential_authority_spec(*field),
    {
        let n = field.name.as_str();
        let named = contains_lower_sub(n, "authority") || contains_lower_sub(n, "owner")
            || contains_lower_sub(n, "admin") || contains_lower_sub(n, "manager")
            || contains_lower_sub(n, "operator") || contains_lower_sub(n, "signer")
            || contains_lower_sub(n, "payer") || contains_lower_sub(n, "creator")
            || contains_lower_sub(n, "initializer") || contains_lower_sub(n, "controller")
            || contains_lower_sub(n, "governor");
        let raw = match &field.ty {
            AccountType::AccountInfo => true,
            _ => false,
        };
        named || (field.is_mutable && raw)
    }

    /// A code snippet showing the vulnerable declaration of the field.
    pub fn generate_code_context(&self, field: &AccountField) -> (r: String) {
        let ty_str: String = match &field.ty {
            AccountType::Account(inner) => {
                let mut t = String::from_str("Account<'info, ");
                t.append(inner.as_str());
                t.append(">");
                t
            },
            AccountType::AccountInfo => String::from_str("AccountInfo<'info>"),
            AccountType::Signer => String::from_str("Signer<'info>"),
            AccountType::UncheckedAccount => String::from_str("UncheckedAccount<'info>"),
            _ => String::from_str("Unknown"),
        };
        let mut raws: Vec<String> = Vec::new();
        let mut i: usize = 0;
        while i < field.constraints.len()
            decreases field.constraints@.len() - i,
        {
            raws.push(field.constraints[i].raw.clone());
            i = i + 1;
        }
        let constraint_str: String = if raws.len() == 0 {
            String::from_str("// No constraints")
        } else {
            let mut c = String::from_str("#[account(");
            let joined = crate::text::join_with(&raws, ", ");
            c.append(joined.as_str());
            c.append(")]");
            c
        };
        let mut out = String::from_str("");
        out.append(crate::text::trim_str(constraint_str.as_str()));
        out.append("\npub ");
        out.append(field.name.as_str());
        out.append(": ");
        out.append(ty_str.as_str());
        out.append(",");
        out
    }

    /// The identifier of this detector.
    pub fn id(&self) -> (r: &'static str)
        ensures
            r@ == "V001"@,
    {
        "V001"
    }

    /// The human-readable name of the vulnerability.
    pub fn name(&self) -> (r: &'static str)
        ensures
            r@ == "Missing Signer Check"@,
    {
        "Missing Signer Check"
    }

    /// What this detector looks for.
    pub fn description(&self) -> (r: &'static str)
        ensures
            r@ == "Detects authority accounts that are not required to sign."@,
    {
        "Detects authority accounts that are not required to sign."
    }

    /// The default severity of findings from this detector.
    pub fn severity(&self) -> (r: Severity)
        ensures
            r == Severity::Critical,
    {
        Severity::Critical
    }

    /// The weakness classification, when one applies.
    pub fn cwe(&self) -> (r: Option<&'static str>)
        ensures
            match r {
                Some(c) => c@ == "CWE-862"@,
                None => false,
            },
    {
        Some("CWE-862")
    }

    /// Remediation advice.
    pub fn remediation(&self) -> (r: &'static str)
        ensures
            r@ == "Declare the authority as a signer, or add a signer constraint to its declaration."@,
    {
        "Declare the authority as a signer, or add a signer constraint to its declaration."
    }
}


/// Whether one constraint vouches for the named field from outside: a
/// relationship constraint targeting it, or a custom expression that
/// mentions both the field and a key.
pub open spec fn constraint_vouches_for(c: Constraint, field_name: Seq<char>) -> bool {
    match c.constraint_type {
        ConstraintType::HasOne(target) => target@ == field_name,
        ConstraintType::Constraint(expr) => crate::text::contains_seq(expr@, field_name)
            && crate::text::contains_seq(expr@, "key"@),
        _ => false,
    }
}

/// Whether any field of any account struct vouches for the named field.
pub open spec fn externally_checked(structs: Seq<AccountStruct>, field_name: Seq<char>) -> bool {
    exists|i: int, j: int, k: int|
        0 <= i < structs.len() && 0 <= j < structs[i].fields@.len() && 0 <= k < structs[
            i
        ].fields@[j].constraints@.len() && constraint_vouches_for(
            #[trigger] structs[i].fields@[j].constraints@[k],
            field_name,
        )
}

impl MissingSignerDetector {
    /// Whether an external signer verification exists for the field: a
    /// relationship constraint or custom expression elsewhere vouches
    /// for it.
    pub fn has_external_signer_check(&self, structs: &Vec<AccountStruct>, field_name: &str) -> (r:
        bool)
        ensures
            r == externally_checked(structs@, field_name@),
    {
        let mut i: usize = 0;
        while i < structs.len()
            invariant
                0 <= i <= structs@.len(),
                forall|a: int, b: int, c: int|
                    0 <= a < i && 0 <= b < structs@[a].fields@.len() && 0 <= c < structs@[
                        a
                    ].fields@[b].constraints@.len() ==> !constraint_vouches_for(
                        #[trigger] structs@[a].fields@[b].constraints@[c],
                        field_name@,
                    ),
            decreases structs@.len() - i,
        {
            let st = &structs[i];
            let mut j: usize = 0;
            while j < st.fields.len()
                invariant
                    0 <= i < structs@.len(),
                    0 <= j <= st.fields@.len(),
                    st == structs@[i as int],
                    forall|b: int, c: int|
                        0 <= b < j && 0 <= c < st.fields@[b].constraints@.len()
                            ==> !constraint_vouches_for(
                            #[trigger] st.fields@[b].constraints@[c],
                            field_name@,
                        ),
                decreases st.fields@.len() - j,
            {
                let f = &st.fields[j];
                let mut k: usize = 0;
                while k < f.constraints.len()
                    invariant
                        0 <= i < structs@.len(),
                        0 <= j < st.fields@.len(),
                        0 <= k <= f.constraints@.len(),
                        f == st.fields@[j as int],
                        st == structs@[i as int],
                        forall|c: int|
                            0 <= c < k ==> !constraint_vouches_for(
                                #[trigger] f.constraints@[c],
                                field_name@,
                            ),
                    decreases f.constraints@.len() - k,
                {
                    match &f.constraints[k].constraint_type {
                        ConstraintType::HasOne(target) => {
                            if crate::text::str_eq(target.as_str(), field_name) {
                                return true;
                            }
                        },
                        ConstraintType::Constraint(expr) => {
                            if crate::text::contains_sub(expr.as_str(), field_name)
                                && crate::text::contains_sub(expr.as_str(), "key") {
                                return true;
                            }
                        },
                        _ => {},
                    }
                    k = k + 1;
                }
                j = j + 1;
            }
            i = i + 1;
        }
        false
    }
}

} // verus!
