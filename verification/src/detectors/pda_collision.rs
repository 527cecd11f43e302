//! Detects derived accounts whose seed patterns can collide: two
//! accounts derived from equivalent seeds resolve to the same address.

use vstd::prelude::*;

use crate::anchor::{strip_lead_x, strip_trail_x, AccountField, Constraint, ConstraintType,
    strip_lead_char, strip_trail_char};
use crate::report::Severity;
use crate::text::{contains_seq, contains_sub, join_spec, join_with, lower_seq, to_lower, str_eq,
    trim_spec, trim_str};

verus! {

/// Detector for colliding derived-address seeds.
pub struct PdaCollisionDetector;

/// `s` with every `b"` pair removed, scanning left to right.
pub open spec fn remove_bq(s: Seq<char>) -> Seq<char>
    decreases s.len(),
{
    if s.len() >= 2 && s[0] == 'b' && s[1] == '"' {
        remove_bq(s.subrange(2, s.len() as int))
    } else if s.len() > 0 {
        seq![s[0]] + remove_bq(s.drop_first())
    } else {
        Seq::empty()
    }
}

/// `s` with every double quote removed.
pub open spec fn remove_q(s: Seq<char>) -> Seq<char>
    decreases s.len(),
{
    if s.len() == 0 {
        Seq::empty()
    } else if s[0] == '"' {
        remove_q(s.drop_first())
    } else {
        seq![s[0]] + remove_q(s.drop_first())
    }
}

/// The canonical form of one seed expression: trimmed, quotes and
/// byte-string markers removed, case folded.
pub open spec fn normalize_seed_spec(s: Seq<char>) -> Seq<char> {
    lower_seq(remove_q(remove_bq(strip_trail_char(strip_lead_char(trim_spec(s), '"'), '"'))))
}

/// `s` with every `b"` pair removed.
fn remove_bq_x(s: &str) -> (r: String)
    ensures
        r@ == remove_bq(s@),
{
    let len = s.unicode_len();
    let mut out = String::new();
    let mut i: usize = 0;
    proof {
        assert(s@.subrange(0, len as int) =~= s@);
        assert(out@ + remove_bq(s@.subrange(0, len as int)) =~= remove_bq(s@));
    }
    while i < len
        invariant
            len == s@.len(),
            0 <= i <= len,
            out@ + remove_bq(s@.subrange(i as int, len as int)) == remove_bq(s@),
        decreases len - i,
    {
        let ghost rest = s@.subrange(i as int, len as int);
        if s.get_char(i) == 'b' && i + 1 < len && s.get_char(i + 1) == '"' {
            proof {
                assert(rest[0] == 'b' && rest[1] == '"');
                assert(rest.subrange(2, rest.len() as int) =~= s@.subrange(i + 2, len as int));
            }
            i = i + 2;
        } else {
            out.append(s.substring_char(i, i + 1));
            proof {
                if rest.len() >= 2 && rest[0] == 'b' && rest[1] == '"' {
                    assert(false);
                }
                assert(s@.subrange(i as int, i + 1) =~= seq![rest[0]]);
                assert(rest.drop_first() =~= s@.subrange(i + 1, len as int));
                assert(out@ + remove_bq(s@.subrange(i + 1, len as int)) =~= remove_bq(s@));
            }
            i = i + 1;
        }
    }
    proof {
        assert(s@.subrange(len as int, len as int).len() == 0);
        assert(out@ =~= remove_bq(s@));
    }
    out
}

/// `s` with every double quote removed.
fn remove_q_x(s: &str) -> (r: String)
    ensures
        r@ == remove_q(s@),
{
    let len = s.unicode_len();
    let mut out = String::new();
    let mut i: usize = 0;
    proof {
        assert(s@.subrange(0, len as int) =~= s@);
        assert(out@ + remove_q(s@.subrange(0, len as int)) =~= remove_q(s@));
    }
    while i < len
        invariant
            len == s@.len(),
            0 <= i <= len,
            out@ + remove_q(s@.subrange(i as int, len as int)) == remove_q(s@),
        decreases len - i,
    {
        let ghost rest = s@.subrange(i as int, len as int);
        proof {
            assert(rest[0] == s@[i as int]);
            assert(rest.drop_first() =~= s@.subrange(i + 1, len as int));
        }
        if s.get_char(i) != '"' {
            out.append(s.substring_char(i, i + 1));
            proof {
                assert(s@.subrange(i as int, i + 1) =~= seq![rest[0]]);
                assert(out@ + remove_q(s@.subrange(i + 1, len as int)) =~= remove_q(s@));
            }
        }
        i = i + 1;
    }
    proof {
        assert(s@.subrange(len as int, len as int).len() == 0);
        assert(out@ =~= remove_q(s@));
    }
    out
}

/// Canonicalizes one seed expression.
fn normalize_seed(s: &str) -> (r: String)
    ensures
        r@ == normalize_seed_spec(s@),
{
    let t = trim_str(s);
    let unquoted = strip_trail_x(strip_lead_x(t, '"'), '"');
    let no_bq = remove_bq_x(unquoted);
    let no_q = remove_q_x(no_bq.as_str());
    to_lower(no_q.as_str())
}

/// The canonical forms of each seed of a list, in order.
pub open spec fn normalized_seeds(seeds: Seq<Seq<char>>) -> Seq<Seq<char>> {
    seeds.map_values(|s: Seq<char>| normalize_seed_spec(s))
}

/// The seed list carried by one constraint, when it is a seeds
/// constraint.
pub open spec fn constraint_seeds(c: Constraint) -> Option<Seq<Seq<char>>> {
    match c.constraint_type {
        ConstraintType::Seeds(v) => Some(v@.map_values(|x: String| x@)),
        _ => None,
    }
}

impl PdaCollisionDetector {
    /// The seeds of the first seeds constraint of a field, if any.
    pub fn extract_seeds(&self, field: &AccountField) -> (r: Option<Vec<String>>)
        ensures
            match r {
                Some(v) => exists|i: int|
                    0 <= i < field.constraints@.len() && constraint_seeds(
                        #[trigger] field.constraints@[i],
                    ) == Some(v@.map_values(|x: String| x@)),
                None => forall|i: int|
                    0 <= i < field.constraints@.len() ==> constraint_seeds(
                        #[trigger] field.constraints@[i],
                    ) is None,
            },
    {
        let mut i: usize = 0;
        while i < field.constraints.len()
            invariant
                0 <= i <= field.constraints@.len(),
                forall|j: int|
                    0 <= j < i ==> constraint_seeds(#[trigger] field.constraints@[j]) is None,
            decreases field.constraints@.len() - i,
        {
            match &field.constraints[i].constraint_type {
                ConstraintType::Seeds(seeds) => {
                    let mut out: Vec<String> = Vec::new();
                    let mut k: usize = 0;
                    while k < seeds.len()
                        invariant
                            0 <= k <= seeds@.len(),
                            out@.map_values(|x: String| x@) =~= seeds@.subrange(
                                0,
                                k as int,
                            ).map_values(|x: String| x@),
                        decreases seeds@.len() - k,
                    {
                        let ghost pre = out@;
                        out.push(seeds[k].clone());
                        proof {
                            assert(out@.drop_last() =~= pre);
                            assert(pre.map_values(|x: String| x@).len() == pre.len());
                            assert(seeds@.subrange(0, k as int).len() == k);
                            assert(seeds@.subrange(0, k as int).map_values(
                                |x: String| x@,
                            ).len() == k);
                            assert(pre.len() == k);
                            let lhs = out@.map_values(|x: String| x@);
                            let rhs = seeds@.subrange(0, k + 1).map_values(|x: String| x@);
                            assert forall|j: int| 0 <= j < lhs.len() implies lhs[j] == rhs[j] by {
                                assert(lhs[j] == out@[j]@);
                                assert(rhs[j] == seeds@.subrange(0, k + 1)[j]@);
                                if j < k {
                                    assert(out@[j] == pre[j]);
                                    assert(pre.map_values(|x: String| x@)[j] == pre[j]@);
                                    assert(seeds@.subrange(0, k as int).map_values(
                                        |x: String| x@,
                                    )[j] == seeds@.subrange(0, k as int)[j]@);
                                    assert(seeds@.subrange(0, k as int)[j] == seeds@.subrange(
                                        0,
                                        k + 1,
                                    )[j]);
                                } else {
                                    assert(out@[j] == out@.last());
                                    assert(seeds@.subrange(0, k + 1)[j] == seeds@[k as int]);
                                }
                            }
                            assert(lhs =~= rhs);
                        }
                        k = k + 1;
                    }
                    proof {
                        assert(seeds@.subrange(0, seeds@.len() as int) =~= seeds@);
                    }
                    return Some(out);
                },
                _ => {},
            }
            i = i + 1;
        }
        None
    }

    /// The canonical pattern of a seed list, for collision comparison:
    /// each seed canonicalized, joined with commas.
    pub fn normalize_seed_pattern(&self, seeds: &Vec<String>) -> (r: String)
        ensures
            r@ == join_spec(normalized_seeds(seeds@.map_values(|s: String| s@)), ", "@),
    {
        let mut parts: Vec<String> = Vec::new();
        let ghost ss = seeds@.map_values(|s: String| s@);
        let mut i: usize = 0;
        while i < seeds.len()
            invariant
                0 <= i <= seeds@.len(),
                ss == seeds@.map_values(|s: String| s@),
                parts@.map_values(|p: String| p@) =~= normalized_seeds(
                    ss.subrange(0, i as int),
                ),
            decreases seeds@.len() - i,
        {
            let ghost pre = parts@;
            let normalized = normalize_seed(seeds[i].as_str());
            parts.push(normalized);
            proof {
                assert(parts@.drop_last() =~= pre);
                assert(pre.map_values(|p: String| p@).len() == pre.len());
                assert(ss.len() == seeds@.len());
                assert(ss.subrange(0, i as int).len() == i);
                assert(normalized_seeds(ss.subrange(0, i as int)).len() == i);
                assert(pre.len() == i);
                let lhs = parts@.map_values(|p: String| p@);
                let rhs = normalized_seeds(ss.subrange(0, i + 1));
                assert forall|j: int| 0 <= j < lhs.len() implies lhs[j] == rhs[j] by {
                    assert(lhs[j] == parts@[j]@);
                    assert(rhs[j] == normalize_seed_spec(ss.subrange(0, i + 1)[j]));
                    if j < i {
                        assert(parts@[j] == pre[j]);
                        assert(pre.map_values(|p: String| p@)[j] == pre[j]@);
                        assert(normalized_seeds(ss.subrange(0, i as int))[j]
                            == normalize_seed_spec(ss.subrange(0, i as int)[j]));
                        assert(ss.subrange(0, i as int)[j] == ss.subrange(0, i + 1)[j]);
                    } else {
                        assert(parts@[j] == parts@.last());
                        assert(ss.subrange(0, i + 1)[j] == ss[i as int]);
                        assert(ss[i as int] == seeds@[i as int]@);
                        assert(rhs[j] == normalize_seed_spec(ss[i as int]));
                    }
                }
                assert(lhs =~= rhs);
            }
            i = i + 1;
        }
        proof {
            assert(ss.subrange(0, ss.len() as int) =~= ss);
            assert(parts@.map_values(|p: String| p@) =~= normalized_seeds(ss));
        }
        join_with(&parts, ", ")
    }

    /// Whether two seed lists collide: equal length and pairwise equal
    /// canonical forms.
    pub fn seeds_match(&self, seeds1: &Vec<String>, seeds2: &Vec<String>) -> (r: bool)
        ensures
            r == (seeds1@.len() == seeds2@.len() && forall|i: int|
                0 <= i < seeds1@.len() ==> normalize_seed_spec(seeds1@[i]@)
                    == normalize_seed_spec(seeds2@[i]@)),
    {
        if seeds1.len() != seeds2.len() {
            return false;
        }
        let mut i: usize = 0;
        while i < seeds1.len()
            invariant
                seeds1@.len() == seeds2@.len(),
                0 <= i <= seeds1@.len(),
                forall|j: int|
                    0 <= j < i ==> normalize_seed_spec(seeds1@[j]@) == normalize_seed_spec(
                        seeds2@[j]@,
                    ),
            decreases seeds1@.len() - i,
        {
            let a = normalize_seed(seeds1[i].as_str());
            let b = normalize_seed(seeds2[i].as_str());
            if !str_eq(a.as_str(), b.as_str()) {
                return false;
            }
            i = i + 1;
        }
        true
    }

    /// The identifier of this detector.
    pub fn id(&self) -> (r: &'static str)
        ensures
            r@ == "V004"@,
    {
        "V004"
    }

    /// The human-readable name of the vulnerability.
    pub fn name(&self) -> (r: &'static str)
        ensures
            r@ == "PDA Seed Collision"@,
    {
        "PDA Seed Collision"
    }

    /// What this detector looks for.
    pub fn description(&self) -> (r: &'static str)
        ensures
            r@ == "Detects derived accounts whose seed patterns can resolve to the same address."@,
    {
        "Detects derived accounts whose seed patterns can resolve to the same address."
    }

    /// The default severity of findings from this detector.
    pub fn severity(&self) -> (r: Severity)
        ensures
            r == Severity::High,
    {
        Severity::High
    }

    /// The weakness classification, when one applies.
    pub fn cwe(&self) -> (r: Option<&'static str>)
        ensures
            match r {
                Some(c) => c@ == "CWE-330"@,
                None => false,
            },
    {
        Some("CWE-330")
    }

    /// Remediation advice.
    pub fn remediation(&self) -> (r: &'static str)
        ensures
            r@ == "Include a distinguishing component, such as the user key, in every seed pattern."@,
    {
        "Include a distinguishing component, such as the user key, in every seed pattern."
    }
}


/// Whether one seed expression carries user- or transaction-specific
/// data rather than a fixed constant.
pub open spec fn seed_is_dynamic(s: Seq<char>) -> bool {
    contains_seq(s, ".key()"@) || contains_seq(s, ".as_ref()"@) || contains_seq(
        s,
        "to_le_bytes"@,
    ) || contains_seq(s, "&"@) || contains_seq(s, "ctx."@)
}

/// Whether any seed of a list is dynamic.
pub open spec fn seeds_have_dynamic(ss: Seq<Seq<char>>) -> bool {
    exists|i: int| 0 <= i < ss.len() && seed_is_dynamic(#[trigger] ss[i])
}

/// Whether one case-folded seed is a generic name shared by many
/// programs.
pub open spec fn seed_is_generic(s: Seq<char>) -> bool {
    crate::text::contains_lower(s, "\"admin\""@) || crate::text::contains_lower(
        s,
        "\"config\""@,
    ) || crate::text::contains_lower(s, "\"state\""@)
}

/// Whether any seed of a list is generic.
pub open spec fn seeds_have_generic(ss: Seq<Seq<char>>) -> bool {
    exists|i: int| 0 <= i < ss.len() && seed_is_generic(#[trigger] ss[i])
}

/// Whether one constraint is the bump constraint.
pub open spec fn constraint_is_bump(c: Constraint) -> bool {
    c.constraint_type is Bump
}

/// Whether a field verifies its derivation bump.
pub open spec fn field_has_bump(f: AccountField) -> bool {
    exists|i: int| 0 <= i < f.constraints@.len() && constraint_is_bump(#[trigger] f.constraints@[i])
}

/// The weaknesses of one seed list, in reporting order: static-only
/// seeds, a single seed, a missing bump constraint, and a generic seed
/// without a distinguishing component.
pub open spec fn weak_seed_issues_spec(f: AccountField, ss: Seq<Seq<char>>) -> Seq<Seq<char>> {
    let dynamic = seeds_have_dynamic(ss);
    let base = Seq::<Seq<char>>::empty();
    let a = if !dynamic {
        base.push("Only static seeds - no user or transaction specific data"@)
    } else {
        base
    };
    let b = if ss.len() == 1 {
        a.push("Single seed - consider adding more specificity"@)
    } else {
        a
    };
    let c = if !field_has_bump(f) {
        b.push("Missing bump constraint - should verify the canonical bump"@)
    } else {
        b
    };
    if seeds_have_generic(ss) && (ss.len() == 1 || !dynamic) {
        c.push("Generic seed without a unique identifier"@)
    } else {
        c
    }
}

impl PdaCollisionDetector {
    /// The weaknesses of a field's seed list, in reporting order; an
    /// empty result means the seeds look specific enough.
    pub fn weak_seed_issues(&self, field: &AccountField, seeds: &Vec<String>) -> (r: Vec<
        &'static str,
    >)
        ensures
            r@.map_values(|m: &'static str| m@) == weak_seed_issues_spec(
                *field,
                seeds@.map_values(|s: String| s@),
            ),
    {
        let ghost ss = seeds@.map_values(|s: String| s@);
        let mut dynamic = false;
        let mut generic = false;
        let mut i: usize = 0;
        while i < seeds.len()
            invariant
                0 <= i <= seeds@.len(),
                ss == seeds@.map_values(|s: String| s@),
                dynamic == exists|j: int| 0 <= j < i && seed_is_dynamic(#[trigger] ss[j]),
                generic == exists|j: int| 0 <= j < i && seed_is_generic(#[trigger] ss[j]),
            decreases seeds@.len() - i,
        {
            let sd = seeds[i].as_str();
            proof {
                assert(sd@ == ss[i as int]);
            }
            if contains_sub(sd, ".key()") || contains_sub(sd, ".as_ref()") || contains_sub(
                sd,
                "to_le_bytes",
            ) || contains_sub(sd, "&") || contains_sub(sd, "ctx.") {
                dynamic = true;
            }
            if crate::text::contains_lower_sub(sd, "\"admin\"") || crate::text::contains_lower_sub(
                sd,
                "\"config\"",
            ) || crate::text::contains_lower_sub(sd, "\"state\"") {
                generic = true;
            }
            i = i + 1;
        }
        let mut has_bump = false;
        let mut k: usize = 0;
        while k < field.constraints.len()
            invariant
                0 <= k <= field.constraints@.len(),
                has_bump == exists|j: int|
                    0 <= j < k && constraint_is_bump(#[trigger] field.constraints@[j]),
            decreases field.constraints@.len() - k,
        {
            match &field.constraints[k].constraint_type {
                ConstraintType::Bump => {
                    has_bump = true;
                },
                _ => {},
            }
            k = k + 1;
        }
        let mut issues: Vec<&'static str> = Vec::new();
        if !dynamic {
            issues.push("Only static seeds - no user or transaction specific data");
        }
        if seeds.len() == 1 {
            issues.push("Single seed - consider adding more specificity");
        }
        if !has_bump {
            issues.push("Missing bump constraint - should verify the canonical bump");
        }
        if generic && (seeds.len() == 1 || !dynamic) {
            issues.push("Generic seed without a unique identifier");
        }
        proof {
            assert(issues@.map_values(|m: &'static str| m@) =~= weak_seed_issues_spec(
                *field,
                ss,
            ));
        }
        issues
    }
}

} // verus!
