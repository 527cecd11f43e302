//! The scope-sensitive control-flow approximation: walks one function
//! body tracking the lexical nesting depth at which each name was
//! validated and the depth at which it is used in a sensitive operation.
//!
//! A validation confined to a conditional branch does not protect a use
//! outside that branch: there is a control-flow path, the one skipping
//! the branch, on which the operation runs unchecked. The comparison is
//! on depths, not true reachability — a documented approximation.

use vstd::prelude::*;

use crate::ast::{Expr, FnDecl, Stmt};

use crate::text::{contains_seq, contains_sub, dec_digits, ident_tokens, is_alpha_char,
    is_alpha_char_x, str_eq, tokens_spec, u64_to_string};

verus! {

/// One recorded use of a name in a sensitive operation.
pub ghost struct UsageModel {
    pub variable: Seq<char>,
    pub line: nat,
    pub depth: nat,
}

/// The full state of one scope-tracking run.
pub ghost struct ScopeModel {
    /// The current nesting depth; the function body starts at zero.
    pub depth: nat,
    /// For each name, the smallest depth a validation was seen at:
    /// lower is broader, hence safer.
    pub validated: Map<Seq<char>, nat>,
    /// Every sensitive use, in visit order, without deduplication.
    pub usages: Seq<UsageModel>,
}

/// One nesting level deeper; the depth sticks at the largest
/// representable value rather than wrapping.
pub open spec fn bump_depth(d: nat) -> nat {
    if d < usize::MAX {
        d + 1
    } else {
        d
    }
}

/// One nesting level back out.
pub open spec fn drop_depth(d: nat) -> nat {
    if d > 0 {
        (d - 1) as nat
    } else {
        0
    }
}

/// Records a validation of `name` at the current depth; the broadest
/// (smallest) validation depth wins.
pub open spec fn record_validation_spec(m: ScopeModel, name: Seq<char>) -> ScopeModel {
    let d: nat = if m.validated.contains_key(name) && m.validated[name] <= m.depth {
        m.validated[name]
    } else {
        m.depth
    };
    ScopeModel { validated: m.validated.insert(name, d), ..m }
}

/// Records validations for each name, in order.
pub open spec fn record_validations(m: ScopeModel, vars: Seq<Seq<char>>) -> ScopeModel
    decreases vars.len(),
{
    if vars.len() == 0 {
        m
    } else {
        record_validation_spec(record_validations(m, vars.drop_last()), vars.last())
    }
}

/// Records a sensitive use of `name` at the current depth.
pub open spec fn record_usage_spec(m: ScopeModel, name: Seq<char>, line: nat) -> ScopeModel {
    ScopeModel {
        usages: m.usages.push(UsageModel { variable: name, line, depth: m.depth }),
        ..m
    }
}

/// Records sensitive uses for each name, in order.
pub open spec fn record_usages(m: ScopeModel, vars: Seq<Seq<char>>, line: nat) -> ScopeModel
    decreases vars.len(),
{
    if vars.len() == 0 {
        m
    } else {
        record_usage_spec(record_usages(m, vars.drop_last(), line), vars.last(), line)
    }
}

/// Names the scope tracker does not treat as variables: bookkeeping
/// identifiers and literals.
pub open spec fn is_scope_stopword(t: Seq<char>) -> bool {
    t == "ctx"@ || t == "accounts"@ || t == "key"@ || t == "unwrap"@ || t == "require"@ || t
        == "true"@ || t == "false"@
}

/// Whether a token counts as a variable name for the scope tracker.
pub open spec fn is_scope_var(t: Seq<char>) -> bool {
    t.len() > 0 && is_alpha_char(t[0]) && !is_scope_stopword(t)
}

/// Keeps the tokens that count as variable names.
pub open spec fn scope_var_filter(ts: Seq<Seq<char>>) -> Seq<Seq<char>>
    decreases ts.len(),
{
    if ts.len() == 0 {
        Seq::empty()
    } else {
        let rest = scope_var_filter(ts.drop_last());
        if is_scope_var(ts.last()) {
            rest.push(ts.last())
        } else {
            rest
        }
    }
}

/// The views of a list of path segments.
pub open spec fn seg_views(ss: Seq<String>) -> Seq<Seq<char>> {
    ss.map_values(|s: String| s@)
}

/// The identifier tokens an expression mentions, as the scope tracker
/// reads them: every path segment, field name and method name, and the
/// tokens of a rendered callee — the names a rendered argument would
/// show.
pub open spec fn scope_tokens_of_expr(e: Expr) -> Seq<Seq<char>>
    decreases e,
{
    match e {
        Expr::Path(segments) => seg_views(segments@),
        Expr::Field(base, name) => scope_tokens_of_expr(*base) + seq![name@],
        Expr::Binary(l, r) => scope_tokens_of_expr(*l) + scope_tokens_of_expr(*r),
        Expr::Call(callee, args) => tokens_spec(callee@) + scope_tokens_of_exprs(args@),
        Expr::MethodCall(recv, method, args) => scope_tokens_of_expr(*recv) + seq![method@]
            + scope_tokens_of_exprs(args@),
        Expr::Paren(inner) => scope_tokens_of_expr(*inner),
        Expr::Unary(inner) => scope_tokens_of_expr(*inner),
        _ => Seq::empty(),
    }
}

/// The scope tokens of a list of expressions, in order.
pub open spec fn scope_tokens_of_exprs(es: Seq<Expr>) -> Seq<Seq<char>>
    decreases es,
{
    if es.len() == 0 {
        Seq::empty()
    } else {
        scope_tokens_of_exprs(es.drop_last()) + scope_tokens_of_expr(es.last())
    }
}

/// Whether a rendered callee names a sensitive operation.
pub open spec fn is_sensitive_callee(callee: Seq<char>) -> bool {
    contains_seq(callee, "transfer"@) || contains_seq(callee, "invoke"@) || contains_seq(
        callee,
        "burn"@,
    )
}

/// Whether a macro name is a validating construct.
pub open spec fn is_validation_macro(name: Seq<char>) -> bool {
    contains_seq(name, "require"@) || contains_seq(name, "assert"@)
}

/// Whether a method takes a mutable borrow of an account, counting as a
/// sensitive use of its receiver.
pub open spec fn is_mut_borrow_method(name: Seq<char>) -> bool {
    name == "borrow_mut"@ || name == "try_borrow_mut"@
}

/// One scope-tracking step over a statement list, front to back.
pub open spec fn scope_stmts(m: ScopeModel, ss: Seq<Stmt>) -> ScopeModel
    decreases ss, 1int,
{
    if ss.len() == 0 {
        m
    } else {
        scope_stmt(scope_stmts(m, ss.drop_last()), ss.last())
    }
}

/// One scope-tracking step over a statement.
pub open spec fn scope_stmt(m: ScopeModel, s: Stmt) -> ScopeModel
    decreases s, 1int,
{
    match s {
        Stmt::Let(_, init) => match init {
            Some(e) => scope_expr(m, e),
            None => m,
        },
        Stmt::Expr(e) => scope_expr(m, e),
    }
}

/// One scope-tracking step over an expression list, front to back.
pub open spec fn scope_exprs(m: ScopeModel, es: Seq<Expr>) -> ScopeModel
    decreases es, 1int,
{
    if es.len() == 0 {
        m
    } else {
        scope_expr(scope_exprs(m, es.drop_last()), es.last())
    }
}

/// One scope-tracking step over an expression: validating macros record
/// validations at the current depth, sensitive calls record uses of
/// their argument names, and branch bodies, loop bodies and nested
/// blocks run one level deeper.
pub open spec fn scope_expr(m: ScopeModel, e: Expr) -> ScopeModel
    decreases e, 2int,
{
    match e {
        Expr::Field(base, _) => scope_expr(m, *base),
        Expr::Binary(l, r) => scope_expr(scope_expr(m, *l), *r),
        Expr::Paren(inner) => scope_expr(m, *inner),
        Expr::Unary(inner) => scope_expr(m, *inner),
        Expr::Assign(_, val) => scope_expr(m, *val),
        Expr::Call(callee, args) => {
            let m1 = if is_sensitive_callee(callee@) {
                record_usages(m, scope_var_filter(scope_tokens_of_exprs(args@)), 0)
            } else {
                m
            };
            scope_exprs(m1, args@)
        },
        Expr::MethodCall(recv, method, args) => {
            let m1 = if is_mut_borrow_method(method@) {
                record_usages(m, scope_var_filter(scope_tokens_of_expr(*recv)), 0)
            } else {
                m
            };
            scope_exprs(scope_expr(m1, *recv), args@)
        },
        Expr::Macro(name, tokens) => if is_validation_macro(name@) {
            record_validations(m, scope_var_filter(tokens_spec(tokens@)))
        } else {
            m
        },
        Expr::If(cond, then_body, else_body) => {
            let m1 = scope_expr(m, *cond);
            let m2 = ScopeModel { depth: bump_depth(m1.depth), ..m1 };
            let m3 = scope_stmts(m2, then_body@);
            let m4 = ScopeModel { depth: drop_depth(m3.depth), ..m3 };
            match else_body {
                Some(ss) => {
                    let m5 = ScopeModel { depth: bump_depth(m4.depth), ..m4 };
                    let m6 = scope_stmts(m5, ss@);
                    ScopeModel { depth: drop_depth(m6.depth), ..m6 }
                },
                None => m4,
            }
        },
        Expr::Loop(header, body) => {
            let m1 = match header {
                Some(h) => scope_expr(m, *h),
                None => m,
            };
            let m2 = ScopeModel { depth: bump_depth(m1.depth), ..m1 };
            let m3 = scope_stmts(m2, body@);
            ScopeModel { depth: drop_depth(m3.depth), ..m3 }
        },
        Expr::Block(ss) => {
            let m1 = ScopeModel { depth: bump_depth(m.depth), ..m };
            let m2 = scope_stmts(m1, ss@);
            ScopeModel { depth: drop_depth(m2.depth), ..m2 }
        },
        _ => m,
    }
}

/// Whether a recorded use is unprotected: its name was validated, but
/// only strictly deeper than the use. Equal depths are the shared-scope
/// guard, the common correct pattern, and are not flagged; a name with
/// no recorded validation is the taint tracker's responsibility.
pub open spec fn is_scope_violation(validated: Map<Seq<char>, nat>, u: UsageModel) -> bool {
    validated.contains_key(u.variable) && validated[u.variable] > u.depth
}

/// The explanation attached to one violation.
pub open spec fn explanation_spec(variable: Seq<char>, vd: nat, ud: nat) -> Seq<char> {
    "Variable '"@ + variable + "' checked inside a block (depth "@ + dec_digits(vd)
        + ") but used outside (depth "@ + dec_digits(ud)
        + "). The check does not protect this usage."@
}

/// The violation record for one unprotected use.
pub open spec fn violation_model_of(validated: Map<Seq<char>, nat>, u: UsageModel)
    -> ViolationModel {
    ViolationModel {
        variable: u.variable,
        line: u.line,
        validation_depth: validated[u.variable],
        usage_depth: u.depth,
        explanation: explanation_spec(u.variable, validated[u.variable], u.depth),
    }
}

/// Ghost mirror of [`ScopeViolation`].
pub ghost struct ViolationModel {
    pub variable: Seq<char>,
    pub line: nat,
    pub validation_depth: nat,
    pub usage_depth: nat,
    pub explanation: Seq<char>,
}

/// The violations among a list of usages, in usage order.
pub open spec fn violations_of(validated: Map<Seq<char>, nat>, usages: Seq<UsageModel>) -> Seq<
    ViolationModel,
>
    decreases usages.len(),
{
    if usages.len() == 0 {
        Seq::empty()
    } else {
        let rest = violations_of(validated, usages.drop_last());
        if is_scope_violation(validated, usages.last()) {
            rest.push(violation_model_of(validated, usages.last()))
        } else {
            rest
        }
    }
}

/// A use whose validation is at the same depth or broader is never
/// flagged: validation at or above the usage scope protects it.
pub proof fn lemma_shared_scope_guard(validated: Map<Seq<char>, nat>, u: UsageModel)
    requires
        validated.contains_key(u.variable),
        validated[u.variable] <= u.depth,
    ensures
        !is_scope_violation(validated, u),
{
}

/// A name with no recorded validation is never flagged by the scope
/// tracker: catching never-validated names is deliberately left to the
/// taint tracker.
pub proof fn lemma_unvalidated_never_flagged(validated: Map<Seq<char>, nat>, u: UsageModel)
    requires
        !validated.contains_key(u.variable),
    ensures
        !is_scope_violation(validated, u),
{
}

/// There are no violations exactly when no recorded use is unprotected.
pub proof fn lemma_no_violations_iff_all_covered(
    validated: Map<Seq<char>, nat>,
    usages: Seq<UsageModel>,
)
    ensures
        (violations_of(validated, usages).len() == 0) <==> (forall|i: int|
            0 <= i < usages.len() ==> !is_scope_violation(validated, usages[i])),
    decreases usages.len(),
{
    if usages.len() > 0 {
        lemma_no_violations_iff_all_covered(validated, usages.drop_last());
        assert(usages.last() == usages[usages.len() - 1]);
        assert forall|i: int| 0 <= i < usages.drop_last().len() implies usages.drop_last()[i]
            == usages[i] by {}
    }
}

/// One scope violation: a control-flow path exists, the one skipping
/// the validating branch, on which the operation runs unchecked.
pub struct ScopeViolation {
    /// The variable whose check does not protect the use.
    pub variable: String,
    /// Line of the use, when known.
    pub line: usize,
    /// The depth the validation was confined to.
    pub validation_depth: usize,
    /// The shallower depth of the unprotected use.
    pub usage_depth: usize,
    /// A rendered explanation of the finding.
    pub explanation: String,
}

impl View for ScopeViolation {
    type V = ViolationModel;

    open spec fn view(&self) -> ViolationModel {
        ViolationModel {
            variable: self.variable@,
            line: self.line as nat,
            validation_depth: self.validation_depth as nat,
            usage_depth: self.usage_depth as nat,
            explanation: self.explanation@,
        }
    }
}

/// The minimum-validation-depth map built by an entry list: later
/// entries override earlier ones.
pub open spec fn depth_map(entries: Seq<(String, usize)>) -> Map<Seq<char>, nat>
    decreases entries.len(),
{
    if entries.len() == 0 {
        Map::empty()
    } else {
        depth_map(entries.drop_last()).insert(entries.last().0@, entries.last().1 as nat)
    }
}

/// Tracks scope depth and per-name validation and use records for one
/// function run.
pub struct ScopeTracker {
    /// The current nesting depth.
    current_depth: usize,
    /// Validation entries; the last entry for a name wins and always
    /// holds the smallest depth seen.
    validated_at: Vec<(String, usize)>,
    /// Sensitive uses as (name, line, depth), in visit order.
    usages: Vec<(String, usize, usize)>,
}

impl View for ScopeTracker {
    type V = ScopeModel;

    closed spec fn view(&self) -> ScopeModel {
        ScopeModel {
            depth: self.current_depth as nat,
            validated: depth_map(self.validated_at@),
            usages: self.usages@.map_values(
                |u: (String, usize, usize)|
                    UsageModel { variable: u.0@, line: u.1 as nat, depth: u.2 as nat },
            ),
        }
    }
}

/// Renders the explanation for one violation.
fn build_explanation(var: &str, vd: usize, ud: usize) -> (r: String)
    ensures
        r@ == explanation_spec(var@, vd as nat, ud as nat),
{
    let mut r = String::from_str("Variable '");
    r.append(var);
    r.append("' checked inside a block (depth ");
    let vds = u64_to_string(vd as u64);
    r.append(vds.as_str());
    r.append(") but used outside (depth ");
    let uds = u64_to_string(ud as u64);
    r.append(uds.as_str());
    r.append("). The check does not protect this usage.");
    proof {
        assert(r@ =~= explanation_spec(var@, vd as nat, ud as nat));
    }
    r
}

/// Keeps the tokens that count as scope variables.
fn filter_scope_vars(toks: &Vec<String>) -> (r: Vec<String>)
    ensures
        r@.map_values(|v: String| v@) == scope_var_filter(toks@.map_values(|v: String| v@)),
{
    let ghost ts = toks@.map_values(|v: String| v@);
    let mut out: Vec<String> = Vec::new();
    let mut i: usize = 0;
    proof {
        assert(ts.subrange(0, 0) =~= Seq::<Seq<char>>::empty());
        assert(out@.map_values(|v: String| v@) =~= scope_var_filter(ts.subrange(0, 0)));
    }
    while i < toks.len()
        invariant
            0 <= i <= toks@.len(),
            ts == toks@.map_values(|v: String| v@),
            out@.map_values(|v: String| v@) == scope_var_filter(ts.subrange(0, i as int)),
        decreases toks@.len() - i,
    {
        let t = &toks[i];
        proof {
            assert(ts.subrange(0, i + 1).drop_last() =~= ts.subrange(0, i as int));
            assert(ts.subrange(0, i + 1).last() == ts[i as int]);
        }
        let keep = t.as_str().unicode_len() > 0 && is_alpha_char_x(t.as_str().get_char(0))
            && !str_eq(t.as_str(), "ctx") && !str_eq(t.as_str(), "accounts") && !str_eq(
            t.as_str(),
            "key",
        ) && !str_eq(t.as_str(), "unwrap") && !str_eq(t.as_str(), "require") && !str_eq(
            t.as_str(),
            "true",
        ) && !str_eq(t.as_str(), "false");
        if keep {
            let ghost pre = out@;
            out.push(t.clone());
            proof {
                assert(out@.drop_last() =~= pre);
                assert(out@.map_values(|v: String| v@) =~= scope_var_filter(
                    ts.subrange(0, i + 1),
                ));
            }
        } else {
            proof {
                assert(out@.map_values(|v: String| v@) =~= scope_var_filter(
                    ts.subrange(0, i + 1),
                ));
            }
        }
        i = i + 1;
    }
    proof {
        assert(ts.subrange(0, ts.len() as int) =~= ts);
    }
    out
}

/// Appends the scope tokens of `e` to `out`.
fn collect_scope_tokens(e: &Expr, out: &mut Vec<String>)
    ensures
        final(out)@.map_values(|v: String| v@) == old(out)@.map_values(|v: String| v@)
            + scope_tokens_of_expr(*e),
    decreases *e,
{
    let ghost base = out@.map_values(|v: String| v@);
    match e {
        Expr::Path(segments) => {
            let mut i: usize = 0;
            proof {
                assert(seg_views(segments@).subrange(0, 0) =~= Seq::<Seq<char>>::empty());
                assert(out@.map_values(|v: String| v@) =~= base + seg_views(
                    segments@,
                ).subrange(0, 0));
            }
            while i < segments.len()
                invariant
                    0 <= i <= segments@.len(),
                    base == old(out)@.map_values(|v: String| v@),
                    out@.map_values(|v: String| v@) == base + seg_views(segments@).subrange(
                        0,
                        i as int,
                    ),
                decreases segments@.len() - i,
            {
                let ghost pre = out@;
                out.push(segments[i].clone());
                proof {
                    assert(out@.drop_last() =~= pre);
                    assert(seg_views(segments@)[i as int] == segments@[i as int]@);
                    let lhs = out@.map_values(|v: String| v@);
                    let rhs = base + seg_views(segments@).subrange(0, i + 1);
                    assert(pre.map_values(|v: String| v@).len() == pre.len());
                    assert(seg_views(segments@).subrange(0, i as int).len() == i);
                    assert forall|j: int| 0 <= j < lhs.len() implies lhs[j] == rhs[j] by {
                        assert(lhs[j] == out@[j]@);
                        if j < pre.len() {
                            assert(out@[j] == pre[j]);
                            assert(pre.map_values(|v: String| v@)[j] == pre[j]@);
                            if j >= base.len() {
                                assert(seg_views(segments@).subrange(0, i as int)[j - base.len()]
                                    == seg_views(segments@).subrange(0, i + 1)[j - base.len()]);
                            }
                        } else {
                            assert(out@[j] == out@.last());
                            assert(rhs[j] == seg_views(segments@).subrange(0, i + 1)[i as int]);
                        }
                    }
                    assert(lhs =~= rhs);
                }
                i = i + 1;
            }
            proof {
                assert(seg_views(segments@).subrange(0, seg_views(segments@).len() as int)
                    =~= seg_views(segments@));
            }
        },
        Expr::Field(b, name) => {
            collect_scope_tokens(b, out);
            let ghost pre = out@;
            out.push(name.clone());
            proof {
                assert(out@.drop_last() =~= pre);
                let lhs = out@.map_values(|v: String| v@);
                let rhs = base + scope_tokens_of_expr(*e);
                assert(pre.map_values(|v: String| v@).len() == pre.len());
                assert forall|j: int| 0 <= j < lhs.len() implies lhs[j] == rhs[j] by {
                    assert(lhs[j] == out@[j]@);
                    if j < pre.len() {
                        assert(out@[j] == pre[j]);
                        assert(pre.map_values(|v: String| v@)[j] == pre[j]@);
                    } else {
                        assert(out@[j] == out@.last());
                    }
                }
                assert(lhs =~= rhs);
            }
        },
        Expr::Binary(l, r) => {
            collect_scope_tokens(l, out);
            collect_scope_tokens(r, out);
            assert(out@.map_values(|v: String| v@) =~= base + scope_tokens_of_expr(*e));
        },
        Expr::Call(callee, args) => {
            let toks = ident_tokens(callee.as_str());
            let mut k: usize = 0;
            proof {
                assert(tokens_spec(callee@).subrange(0, 0) =~= Seq::<Seq<char>>::empty());
                assert(out@.map_values(|v: String| v@) =~= base + tokens_spec(
                    callee@,
                ).subrange(0, 0));
            }
            while k < toks.len()
                invariant
                    0 <= k <= toks@.len(),
                    toks@.map_values(|t: String| t@) == tokens_spec(callee@),
                    base == old(out)@.map_values(|v: String| v@),
                    out@.map_values(|v: String| v@) == base + tokens_spec(callee@).subrange(
                        0,
                        k as int,
                    ),
                decreases toks@.len() - k,
            {
                let ghost pre = out@;
                out.push(toks[k].clone());
                proof {
                    assert(out@.drop_last() =~= pre);
                    assert(toks@.map_values(|t: String| t@)[k as int] == toks@[k as int]@);
                    let lhs = out@.map_values(|v: String| v@);
                    let rhs = base + tokens_spec(callee@).subrange(0, k + 1);
                    assert(pre.map_values(|v: String| v@).len() == pre.len());
                    assert(tokens_spec(callee@).subrange(0, k as int).len() == k);
                    assert forall|j: int| 0 <= j < lhs.len() implies lhs[j] == rhs[j] by {
                        assert(lhs[j] == out@[j]@);
                        if j < pre.len() {
                            assert(out@[j] == pre[j]);
                            assert(pre.map_values(|v: String| v@)[j] == pre[j]@);
                            if j >= base.len() {
                                assert(tokens_spec(callee@).subrange(0, k as int)[j - base.len()]
                                    == tokens_spec(callee@).subrange(0, k + 1)[j - base.len()]);
                            }
                        } else {
                            assert(out@[j] == out@.last());
                            assert(rhs[j] == tokens_spec(callee@).subrange(0, k + 1)[k as int]);
                        }
                    }
                    assert(lhs =~= rhs);
                }
                k = k + 1;
            }
            proof {
                assert(tokens_spec(callee@).subrange(0, tokens_spec(callee@).len() as int)
                    =~= tokens_spec(callee@));
            }
            collect_scope_tokens_list(args, out);
            assert(out@.map_values(|v: String| v@) =~= base + scope_tokens_of_expr(*e));
        },
        Expr::MethodCall(recv, method, args) => {
            collect_scope_tokens(recv, out);
            let ghost pre = out@;
            out.push(method.clone());
            proof {
                assert(out@.drop_last() =~= pre);
                let lhs = out@.map_values(|v: String| v@);
                let rhs = base + scope_tokens_of_expr(**recv) + seq![method@];
                assert(pre.map_values(|v: String| v@).len() == pre.len());
                assert forall|j: int| 0 <= j < lhs.len() implies lhs[j] == rhs[j] by {
                    assert(lhs[j] == out@[j]@);
                    if j < pre.len() {
                        assert(out@[j] == pre[j]);
                        assert(pre.map_values(|v: String| v@)[j] == pre[j]@);
                    } else {
                        assert(out@[j] == out@.last());
                    }
                }
                assert(lhs =~= rhs);
            }
            collect_scope_tokens_list(args, out);
            assert(out@.map_values(|v: String| v@) =~= base + scope_tokens_of_expr(*e));
        },
        Expr::Paren(inner) => {
            collect_scope_tokens(inner, out);
        },
        Expr::Unary(inner) => {
            collect_scope_tokens(inner, out);
        },
        _ => {
            assert(out@.map_values(|v: String| v@) =~= base + scope_tokens_of_expr(*e));
        },
    }
}

/// Appends the scope tokens of each expression of `es` to `out`.
fn collect_scope_tokens_list(es: &Vec<Expr>, out: &mut Vec<String>)
    ensures
        final(out)@.map_values(|v: String| v@) == old(out)@.map_values(|v: String| v@)
            + scope_tokens_of_exprs(es@),
    decreases es@,
{
    let ghost base = out@.map_values(|v: String| v@);
    let mut i: usize = 0;
    proof {
        assert(es@.subrange(0, 0) =~= Seq::<Expr>::empty());
        assert(base + scope_tokens_of_exprs(es@.subrange(0, 0)) =~= base);
    }
    while i < es.len()
        invariant
            0 <= i <= es@.len(),
            base == old(out)@.map_values(|v: String| v@),
            out@.map_values(|v: String| v@) == base + scope_tokens_of_exprs(
                es@.subrange(0, i as int),
            ),
        decreases es@.len() - i,
    {
        proof {
            assert(decreases_to!(es@ => es@[i as int]));
        }
        collect_scope_tokens(&es[i], out);
        proof {
            assert(es@.subrange(0, i + 1).drop_last() =~= es@.subrange(0, i as int));
            assert(es@.subrange(0, i + 1).last() == es@[i as int]);
            assert(out@.map_values(|v: String| v@) =~= base + scope_tokens_of_exprs(
                es@.subrange(0, i + 1),
            ));
        }
        i = i + 1;
    }
    proof {
        assert(es@.subrange(0, es@.len() as int) =~= es@);
    }
}

impl ScopeTracker {
    /// A fresh tracker: depth zero, nothing validated, nothing used.
    pub fn new() -> (r: ScopeTracker)
        ensures
            r@.depth == 0,
            r@.validated == Map::<Seq<char>, nat>::empty(),
            r@.usages == Seq::<UsageModel>::empty(),
    {
        let r = ScopeTracker { current_depth: 0, validated_at: Vec::new(), usages: Vec::new() };
        proof {
            assert(r@.usages =~= Seq::<UsageModel>::empty());
        }
        r
    }

    /// The smallest depth `var` was validated at, if any.
    fn lookup_validated(&self, var: &str) -> (r: Option<usize>)
        ensures
            match r {
                Some(d) => self@.validated.contains_key(var@) && self@.validated[var@]
                    == d as nat,
                None => !self@.validated.contains_key(var@),
            },
    {
        let ghost m = self.validated_at@;
        let mut i: usize = self.validated_at.len();
        proof {
            assert(m.subrange(0, i as int) =~= m);
        }
        while i > 0
            invariant
                0 <= i <= self.validated_at@.len(),
                m == self.validated_at@,
                depth_map(m).contains_key(var@) == depth_map(m.subrange(0, i as int)).contains_key(
                    var@,
                ),
                depth_map(m).contains_key(var@) ==> depth_map(m)[var@] == depth_map(
                    m.subrange(0, i as int),
                )[var@],
            decreases i,
        {
            i = i - 1;
            let ghost sub = m.subrange(0, i + 1);
            proof {
                assert(sub.last() == m[i as int]);
                assert(sub.drop_last() =~= m.subrange(0, i as int));
            }
            if str_eq(self.validated_at[i].0.as_str(), var) {
                return Some(self.validated_at[i].1);
            }
        }
        proof {
            assert(m.subrange(0, 0) =~= Seq::<(String, usize)>::empty());
        }
        None
    }

    /// Records a validation of `var` at the current depth; the broadest
    /// validation wins.
    fn record_validation(&mut self, var: &str)
        ensures
            final(self)@ == record_validation_spec(old(self)@, var@),
    {
        let nd: usize = match self.lookup_validated(var) {
            Some(d) => if d <= self.current_depth {
                d
            } else {
                self.current_depth
            },
            None => self.current_depth,
        };
        let ghost pre = self.validated_at@;
        self.validated_at.push((String::from_str(var), nd));
        proof {
            assert(self.validated_at@.drop_last() =~= pre);
        }
    }

    /// Records a sensitive use of `var` at the current depth.
    fn record_usage(&mut self, var: &str, line: usize)
        ensures
            final(self)@ == record_usage_spec(old(self)@, var@, line as nat),
    {
        let ghost pre = self.usages@;
        self.usages.push((String::from_str(var), line, self.current_depth));
        proof {
            assert(self.usages@.drop_last() =~= pre);
            let f = |u: (String, usize, usize)|
                UsageModel { variable: u.0@, line: u.1 as nat, depth: u.2 as nat };
            assert(self.usages@.map_values(f) =~= pre.map_values(f).push(
                f(self.usages@.last()),
            ));
        }
    }

    /// Records validations for each name of `vars`, in order.
    fn record_validation_list(&mut self, vars: &Vec<String>)
        ensures
            final(self)@ == record_validations(old(self)@, vars@.map_values(|v: String| v@)),
    {
        let ghost vs = vars@.map_values(|v: String| v@);
        let mut i: usize = 0;
        proof {
            assert(vs.subrange(0, 0) =~= Seq::<Seq<char>>::empty());
        }
        while i < vars.len()
            invariant
                0 <= i <= vars@.len(),
                vs == vars@.map_values(|v: String| v@),
                self@ == record_validations(old(self)@, vs.subrange(0, i as int)),
            decreases vars@.len() - i,
        {
            proof {
                assert(vs.subrange(0, i + 1).drop_last() =~= vs.subrange(0, i as int));
                assert(vs.subrange(0, i + 1).last() == vs[i as int]);
            }
            self.record_validation(vars[i].as_str());
            i = i + 1;
        }
        proof {
            assert(vs.subrange(0, vs.len() as int) =~= vs);
        }
    }

    /// Records sensitive uses for each name of `vars`, in order.
    fn record_usage_list(&mut self, vars: &Vec<String>, line: usize)
        ensures
            final(self)@ == record_usages(
                old(self)@,
                vars@.map_values(|v: String| v@),
                line as nat,
            ),
    {
        let ghost vs = vars@.map_values(|v: String| v@);
        let mut i: usize = 0;
        proof {
            assert(vs.subrange(0, 0) =~= Seq::<Seq<char>>::empty());
        }
        while i < vars.len()
            invariant
                0 <= i <= vars@.len(),
                vs == vars@.map_values(|v: String| v@),
                self@ == record_usages(old(self)@, vs.subrange(0, i as int), line as nat),
            decreases vars@.len() - i,
        {
            proof {
                assert(vs.subrange(0, i + 1).drop_last() =~= vs.subrange(0, i as int));
                assert(vs.subrange(0, i + 1).last() == vs[i as int]);
            }
            self.record_usage(vars[i].as_str(), line);
            i = i + 1;
        }
        proof {
            assert(vs.subrange(0, vs.len() as int) =~= vs);
        }
    }

    /// Walks a statement list in order.
    fn walk_stmts(&mut self, ss: &Vec<Stmt>)
        ensures
            final(self)@ == scope_stmts(old(self)@, ss@),
        decreases ss@, 1int,
    {
        let mut i: usize = 0;
        proof {
            assert(ss@.subrange(0, 0) =~= Seq::<Stmt>::empty());
        }
        while i < ss.len()
            invariant
                0 <= i <= ss@.len(),
                self@ == scope_stmts(old(self)@, ss@.subrange(0, i as int)),
            decreases ss@.len() - i,
        {
            proof {
                assert(decreases_to!(ss@ => ss@[i as int]));
                assert(ss@.subrange(0, i + 1).drop_last() =~= ss@.subrange(0, i as int));
                assert(ss@.subrange(0, i + 1).last() == ss@[i as int]);
            }
            self.walk_stmt(&ss[i]);
            i = i + 1;
        }
        proof {
            assert(ss@.subrange(0, ss@.len() as int) =~= ss@);
        }
    }

    /// Walks one statement.
    fn walk_stmt(&mut self, s: &Stmt)
        ensures
            final(self)@ == scope_stmt(old(self)@, *s),
        decreases *s, 1int,
    {
        match s {
            Stmt::Let(_, init) => match init {
                Some(e) => {
                    self.walk_expr(e);
                },
                None => {},
            },
            Stmt::Expr(e) => {
                self.walk_expr(e);
            },
        }
    }

    /// Walks an expression list in order.
    fn walk_expr_list(&mut self, es: &Vec<Expr>)
        ensures
            final(self)@ == scope_exprs(old(self)@, es@),
        decreases es@, 1int,
    {
        let mut i: usize = 0;
        proof {
            assert(es@.subrange(0, 0) =~= Seq::<Expr>::empty());
        }
        while i < es.len()
            invariant
                0 <= i <= es@.len(),
                self@ == scope_exprs(old(self)@, es@.subrange(0, i as int)),
            decreases es@.len() - i,
        {
            proof {
                assert(decreases_to!(es@ => es@[i as int]));
                assert(es@.subrange(0, i + 1).drop_last() =~= es@.subrange(0, i as int));
                assert(es@.subrange(0, i + 1).last() == es@[i as int]);
            }
            self.walk_expr(&es[i]);
            i = i + 1;
        }
        proof {
            assert(es@.subrange(0, es@.len() as int) =~= es@);
        }
    }

    /// One nesting level deeper.
    fn push_depth(&mut self)
        ensures
            final(self)@ == (ScopeModel { depth: bump_depth(old(self)@.depth), ..old(self)@ }),
    {
        if self.current_depth < usize::MAX {
            self.current_depth = self.current_depth + 1;
        }
    }

    /// One nesting level back out.
    fn pop_depth(&mut self)
        ensures
            final(self)@ == (ScopeModel { depth: drop_depth(old(self)@.depth), ..old(self)@ }),
    {
        if self.current_depth > 0 {
            self.current_depth = self.current_depth - 1;
        }
    }

    /// Walks one expression, maintaining depth and records.
    fn walk_expr(&mut self, e: &Expr)
        ensures
            final(self)@ == scope_expr(old(self)@, *e),
        decreases *e, 2int,
    {
        match e {
            Expr::Field(base, _) => {
                self.walk_expr(base);
            },
            Expr::Binary(l, r) => {
                self.walk_expr(l);
                self.walk_expr(r);
            },
            Expr::Paren(inner) => {
                self.walk_expr(inner);
            },
            Expr::Unary(inner) => {
                self.walk_expr(inner);
            },
            Expr::Assign(_, val) => {
                self.walk_expr(val);
            },
            Expr::Call(callee, args) => {
                if contains_sub(callee.as_str(), "transfer") || contains_sub(
                    callee.as_str(),
                    "invoke",
                ) || contains_sub(callee.as_str(), "burn") {
                    let mut avars: Vec<String> = Vec::new();
                    collect_scope_tokens_list(args, &mut avars);
                    proof {
                        assert(avars@.map_values(|v: String| v@) =~= scope_tokens_of_exprs(
                            args@,
                        ));
                    }
                    let filtered = filter_scope_vars(&avars);
                    self.record_usage_list(&filtered, 0);
                }
                self.walk_expr_list(args);
            },
            Expr::MethodCall(recv, method, args) => {
                if str_eq(method.as_str(), "borrow_mut") || str_eq(
                    method.as_str(),
                    "try_borrow_mut",
                ) {
                    let mut rvars: Vec<String> = Vec::new();
                    collect_scope_tokens(recv, &mut rvars);
                    proof {
                        assert(rvars@.map_values(|v: String| v@) =~= scope_tokens_of_expr(
                            **recv,
                        ));
                    }
                    let filtered = filter_scope_vars(&rvars);
                    self.record_usage_list(&filtered, 0);
                }
                self.walk_expr(recv);
                self.walk_expr_list(args);
            },
            Expr::Macro(name, tokens) => {
                if contains_sub(name.as_str(), "require") || contains_sub(
                    name.as_str(),
                    "assert",
                ) {
                    let toks = ident_tokens(tokens.as_str());
                    let filtered = filter_scope_vars(&toks);
                    self.record_validation_list(&filtered);
                }
            },
            Expr::If(cond, then_body, else_body) => {
                self.walk_expr(cond);
                self.push_depth();
                self.walk_stmts(then_body);
                self.pop_depth();
                match else_body {
                    Some(ss) => {
                        self.push_depth();
                        self.walk_stmts(ss);
                        self.pop_depth();
                    },
                    None => {},
                }
            },
            Expr::Loop(header, body) => {
                match header {
                    Some(h) => {
                        self.walk_expr(h);
                    },
                    None => {},
                }
                self.push_depth();
                self.walk_stmts(body);
                self.pop_depth();
            },
            Expr::Block(ss) => {
                self.push_depth();
                self.walk_stmts(ss);
                self.pop_depth();
            },
            _ => {},
        }
    }

    /// Analyzes one function body, starting at depth zero relative to
    /// whatever depth the tracker is at.
    pub fn analyze(&mut self, f: &FnDecl)
        ensures
            final(self)@ == scope_stmts(old(self)@, f.body@),
    {
        self.walk_stmts(&f.body);
    }

    /// Every scope violation among the recorded uses, in usage order: a
    /// use is reported if and only if its name's validation is confined
    /// strictly deeper than the use.
    pub fn find_scope_violations(&self) -> (r: Vec<ScopeViolation>)
        ensures
            r@.map_values(|v: ScopeViolation| v@) == violations_of(self@.validated, self@.usages),
    {
        let mut out: Vec<ScopeViolation> = Vec::new();
        let ghost us = self@.usages;
        let mut i: usize = 0;
        proof {
            assert(us.subrange(0, 0) =~= Seq::<UsageModel>::empty());
            assert(out@.map_values(|v: ScopeViolation| v@) =~= violations_of(
                self@.validated,
                us.subrange(0, 0),
            ));
        }
        while i < self.usages.len()
            invariant
                0 <= i <= self.usages@.len(),
                us == self@.usages,
                out@.map_values(|v: ScopeViolation| v@) == violations_of(
                    self@.validated,
                    us.subrange(0, i as int),
                ),
            decreases self.usages@.len() - i,
        {
            proof {
                assert(us.subrange(0, i + 1).drop_last() =~= us.subrange(0, i as int));
                assert(us.subrange(0, i + 1).last() == us[i as int]);
            }
            let var = &self.usages[i].0;
            let uline = self.usages[i].1;
            let udepth = self.usages[i].2;
            match self.lookup_validated(var.as_str()) {
                Some(vd) => {
                    if vd > udepth {
                        let ghost pre = out@;
                        let explanation = build_explanation(var.as_str(), vd, udepth);
                        out.push(
                            ScopeViolation {
                                variable: var.clone(),
                                line: uline,
                                validation_depth: vd,
                                usage_depth: udepth,
                                explanation,
                            },
                        );
                        proof {
                            assert(out@.drop_last() =~= pre);
                            assert(out@.map_values(|v: ScopeViolation| v@) =~= violations_of(
                                self@.validated,
                                us.subrange(0, i + 1),
                            ));
                        }
                    } else {
                        proof {
                            assert(out@.map_values(|v: ScopeViolation| v@) =~= violations_of(
                                self@.validated,
                                us.subrange(0, i + 1),
                            ));
                        }
                    }
                },
                None => {
                    proof {
                        assert(out@.map_values(|v: ScopeViolation| v@) =~= violations_of(
                            self@.validated,
                            us.subrange(0, i + 1),
                        ));
                    }
                },
            }
            i = i + 1;
        }
        proof {
            assert(us.subrange(0, us.len() as int) =~= us);
        }
        out
    }
}

} // verus!
