//! The taint-propagation engine: tracks whether a runtime value is
//! attacker-controlled ("tainted"), provably safe ("clean"), or defused by
//! a validating check ("sanitized") as it flows through one function body
//! into dangerous operations.
//!
//! A tracker is single-use: one instance analyzes one function. Statuses
//! are per-name, latest-wins, and never persist across functions.

use vstd::prelude::*;

use crate::ast::{Expr, FnDecl, Stmt};
use crate::text::{tokens_spec, trim_spec, is_alpha_char, ident_tokens, is_alpha_char_x, str_eq,
    trim_str, split_lines, split_lines_spec, contains_lower, contains_lower_sub, contains_seq,
    contains_sub, starts_with_sub, starts_with_seq};

verus! {

/// The taint status of one variable name.
#[derive(Clone, Copy, PartialEq, Eq, Structural, Debug)]
pub enum TaintStatus {
    /// Safe: hardcoded constants, trusted values.
    Clean,
    /// Unsafe: user input, account data.
    Tainted,
    /// Safe: defused by a validating check.
    Sanitized,
    /// Nothing is known about the value.
    Unknown,
}

/// The provenance of a tainted value.
#[derive(Clone, PartialEq, Eq, Debug)]
pub enum TaintSourceType {
    /// A formal parameter of the analyzed function.
    FunctionArg(String),
    /// A field of the execution-context receiver.
    AccountField(String),
    /// Data deserialized from an untrusted buffer.
    DeserializedData(String),
    /// Data read out of an account.
    AccountData(String),
}

/// Ghost mirror of [`TaintSourceType`].
pub ghost enum SourceModel {
    FunctionArg(Seq<char>),
    AccountField(Seq<char>),
    DeserializedData(Seq<char>),
    AccountData(Seq<char>),
}

impl View for TaintSourceType {
    type V = SourceModel;

    open spec fn view(&self) -> SourceModel {
        match self {
            TaintSourceType::FunctionArg(n) => SourceModel::FunctionArg(n@),
            TaintSourceType::AccountField(n) => SourceModel::AccountField(n@),
            TaintSourceType::DeserializedData(n) => SourceModel::DeserializedData(n@),
            TaintSourceType::AccountData(n) => SourceModel::AccountData(n@),
        }
    }
}

/// A dangerous operation tainted data must not reach unvalidated.
#[derive(Clone, Copy, PartialEq, Eq, Structural, Debug)]
pub enum TaintSinkType {
    /// A token or lamports transfer.
    Transfer,
    /// A cross-program invocation.
    Invoke,
    /// Indexing into an array.
    ArrayIndex,
    /// A write to program state.
    StateModification,
    /// Unchecked arithmetic.
    UncheckedMath,
}

/// One tainted data flow from a source to a sink. Created only when
/// tainted, non-sanitized data reaches a sink; never retracted.
pub struct TaintedFlow {
    /// The variable that carried the tainted value.
    pub variable: String,
    /// Where the value came from.
    pub source: TaintSourceType,
    /// The dangerous operation it reached.
    pub sink: TaintSinkType,
    /// Line of the sink call, as counted by the traversal.
    pub line: usize,
    /// The trimmed source line, for excerpting.
    pub code: String,
}

/// Ghost mirror of [`TaintedFlow`].
pub ghost struct FlowModel {
    pub variable: Seq<char>,
    pub source: SourceModel,
    pub sink: TaintSinkType,
    pub line: nat,
    pub code: Seq<char>,
}

impl View for TaintedFlow {
    type V = FlowModel;

    open spec fn view(&self) -> FlowModel {
        FlowModel {
            variable: self.variable@,
            source: self.source@,
            sink: self.sink,
            line: self.line as nat,
            code: self.code@,
        }
    }
}

/// The per-name status map built by a status-entry list: later entries
/// override earlier ones.
pub open spec fn status_map(entries: Seq<(String, TaintStatus)>) -> Map<Seq<char>, TaintStatus>
    decreases entries.len(),
{
    if entries.len() == 0 {
        Map::empty()
    } else {
        status_map(entries.drop_last()).insert(entries.last().0@, entries.last().1)
    }
}

/// The status of `name` under `env`: unmapped names are `Unknown`.
pub open spec fn status_of(env: Map<Seq<char>, TaintStatus>, name: Seq<char>) -> TaintStatus {
    if env.contains_key(name) {
        env[name]
    } else {
        TaintStatus::Unknown
    }
}

/// The provenance map built by a source-entry list.
pub open spec fn source_map(entries: Seq<(String, TaintSourceType)>) -> Map<Seq<char>, SourceModel>
    decreases entries.len(),
{
    if entries.len() == 0 {
        Map::empty()
    } else {
        source_map(entries.drop_last()).insert(entries.last().0@, entries.last().1@)
    }
}

/// The provenance recorded for `name`; a name tainted by propagation
/// alone defaults to counting as a function argument.
pub open spec fn source_of(sources: Map<Seq<char>, SourceModel>, name: Seq<char>) -> SourceModel {
    if sources.contains_key(name) {
        sources[name]
    } else {
        SourceModel::FunctionArg(name)
    }
}

/// Combines the statuses of two sub-expressions: `Tainted` beats
/// `Unknown` beats everything else, and everything else counts as clean.
pub open spec fn combine_status(a: TaintStatus, b: TaintStatus) -> TaintStatus {
    if a == TaintStatus::Tainted || b == TaintStatus::Tainted {
        TaintStatus::Tainted
    } else if a == TaintStatus::Unknown || b == TaintStatus::Unknown {
        TaintStatus::Unknown
    } else {
        TaintStatus::Clean
    }
}

/// Tracks variable names and their taint statuses for one function run.
pub struct TaintContext {
    /// Status entries in assignment order; the last entry for a name wins.
    pub entries: Vec<(String, TaintStatus)>,
    /// Provenance entries for explicitly tainted names.
    pub sources: Vec<(String, TaintSourceType)>,
}

impl TaintContext {
    /// An empty context: every name is `Unknown`.
    pub fn new() -> (r: TaintContext)
        ensures
            status_map(r.entries@) == Map::<Seq<char>, TaintStatus>::empty(),
            source_map(r.sources@) == Map::<Seq<char>, SourceModel>::empty(),
    {
        TaintContext { entries: Vec::new(), sources: Vec::new() }
    }

    /// Sets the status of `var`, overwriting any earlier status.
    pub fn set_status(&mut self, var: String, status: TaintStatus)
        ensures
            status_map(final(self).entries@) == status_map(old(self).entries@).insert(
                var@,
                status,
            ),
            final(self).entries@ == old(self).entries@.push((var, status)),
            final(self).sources@ == old(self).sources@,
    {
        let ghost pre = self.entries@;
        self.entries.push((var, status));
        proof {
            assert(self.entries@.drop_last() =~= pre);
        }
    }

    /// The current status of `var`; names never assigned are `Unknown`.
    pub fn get_status(&self, var: &str) -> (r: TaintStatus)
        ensures
            r == status_of(status_map(self.entries@), var@),
    {
        let ghost m = self.entries@;
        let mut i: usize = self.entries.len();
        proof {
            assert(m.subrange(0, i as int) =~= m);
        }
        while i > 0
            invariant
                0 <= i <= self.entries@.len(),
                m == self.entries@,
                status_of(status_map(m), var@) == status_of(
                    status_map(m.subrange(0, i as int)),
                    var@,
                ),
            decreases i,
        {
            i = i - 1;
            let ghost sub = m.subrange(0, i + 1);
            proof {
                assert(sub.last() == m[i as int]);
                assert(sub.drop_last() =~= m.subrange(0, i as int));
            }
            if str_eq(self.entries[i].0.as_str(), var) {
                return self.entries[i].1;
            }
        }
        proof {
            assert(m.subrange(0, 0) =~= Seq::<(String, TaintStatus)>::empty());
        }
        TaintStatus::Unknown
    }
}

/// The variable names an expression mentions, in visit order: the head
/// segment of a path, the base of a field access, both operands of a
/// binary operation, call arguments, a method receiver and its arguments.
pub open spec fn vars_of_expr(e: Expr) -> Seq<Seq<char>>
    decreases e,
{
    match e {
        Expr::Path(segments) => if segments@.len() > 0 {
            seq![segments@[0]@]
        } else {
            Seq::empty()
        },
        Expr::Field(base, _) => vars_of_expr(*base),
        Expr::Binary(l, r) => vars_of_expr(*l) + vars_of_expr(*r),
        Expr::Call(_, args) => vars_of_exprs(args@),
        Expr::MethodCall(recv, _, args) => vars_of_expr(*recv) + vars_of_exprs(args@),
        Expr::Paren(inner) => vars_of_expr(*inner),
        Expr::Unary(inner) => vars_of_expr(*inner),
        _ => Seq::empty(),
    }
}

/// The variable names of a list of expressions, in order.
pub open spec fn vars_of_exprs(es: Seq<Expr>) -> Seq<Seq<char>>
    decreases es,
{
    if es.len() == 0 {
        Seq::empty()
    } else {
        vars_of_exprs(es.drop_last()) + vars_of_expr(es.last())
    }
}

/// Appends the variable names of `e` to `out`.
pub fn collect_expr_vars(e: &Expr, out: &mut Vec<String>)
    ensures
        final(out)@.map_values(|v: String| v@) == old(out)@.map_values(|v: String| v@)
            + vars_of_expr(*e),
    decreases *e,
{
    let ghost base = out@.map_values(|v: String| v@);
    match e {
        Expr::Path(segments) => {
            if segments.len() > 0 {
                let ghost pre = out@;
                out.push(segments[0].clone());
                proof {
                    assert(out@.drop_last() =~= pre);
                    assert(out@.map_values(|v: String| v@) =~= base + vars_of_expr(*e));
                }
            } else {
                assert(out@.map_values(|v: String| v@) =~= base + vars_of_expr(*e));
            }
        },
        Expr::Field(b, _) => {
            collect_expr_vars(b, out);
        },
        Expr::Binary(l, r) => {
            collect_expr_vars(l, out);
            collect_expr_vars(r, out);
            assert(out@.map_values(|v: String| v@) =~= base + vars_of_expr(*e));
        },
        Expr::Call(_, args) => {
            collect_exprs_vars(args, out);
        },
        Expr::MethodCall(recv, _, args) => {
            collect_expr_vars(recv, out);
            collect_exprs_vars(args, out);
            assert(out@.map_values(|v: String| v@) =~= base + vars_of_expr(*e));
        },
        Expr::Paren(inner) => {
            collect_expr_vars(inner, out);
        },
        Expr::Unary(inner) => {
            collect_expr_vars(inner, out);
        },
        _ => {
            assert(out@.map_values(|v: String| v@) =~= base + vars_of_expr(*e));
        },
    }
}

/// Appends the variable names of each expression of `es` to `out`.
pub fn collect_exprs_vars(es: &Vec<Expr>, out: &mut Vec<String>)
    ensures
        final(out)@.map_values(|v: String| v@) == old(out)@.map_values(|v: String| v@)
            + vars_of_exprs(es@),
    decreases es@,
{
    let ghost base = out@.map_values(|v: String| v@);
    let mut i: usize = 0;
    proof {
        assert(es@.subrange(0, 0) =~= Seq::<Expr>::empty());
        assert(base + vars_of_exprs(es@.subrange(0, 0)) =~= base);
    }
    while i < es.len()
        invariant
            0 <= i <= es@.len(),
            base == old(out)@.map_values(|v: String| v@),
            out@.map_values(|v: String| v@) == base + vars_of_exprs(es@.subrange(0, i as int)),
        decreases es@.len() - i,
    {
        proof {
            assert(decreases_to!(es@ => es@[i as int]));
        }
        collect_expr_vars(&es[i], out);
        proof {
            assert(es@.subrange(0, i + 1).drop_last() =~= es@.subrange(0, i as int));
            assert(es@.subrange(0, i + 1).last() == es@[i as int]);
            assert(out@.map_values(|v: String| v@) =~= base + vars_of_exprs(
                es@.subrange(0, i + 1),
            ));
        }
        i = i + 1;
    }
    proof {
        assert(es@.subrange(0, es@.len() as int) =~= es@);
    }
}

/// Appends the checked-call receiver names of `e` to `out`.
pub fn collect_checked_recv_vars(e: &Expr, out: &mut Vec<String>)
    ensures
        final(out)@.map_values(|v: String| v@) == old(out)@.map_values(|v: String| v@)
            + checked_recv_vars(*e),
    decreases *e,
{
    let ghost base = out@.map_values(|v: String| v@);
    match e {
        Expr::Field(b, _) => {
            collect_checked_recv_vars(b, out);
        },
        Expr::Binary(l, r) => {
            collect_checked_recv_vars(l, out);
            collect_checked_recv_vars(r, out);
            assert(out@.map_values(|v: String| v@) =~= base + checked_recv_vars(*e));
        },
        Expr::Call(_, args) => {
            collect_checked_recv_list(args, out);
        },
        Expr::MethodCall(recv, method, args) => {
            if starts_with_sub(method.as_str(), "checked_") || starts_with_sub(
                method.as_str(),
                "saturating_",
            ) {
                collect_expr_vars(recv, out);
            }
            collect_checked_recv_vars(recv, out);
            collect_checked_recv_list(args, out);
            assert(out@.map_values(|v: String| v@) =~= base + checked_recv_vars(*e));
        },
        Expr::Paren(inner) => {
            collect_checked_recv_vars(inner, out);
        },
        Expr::Unary(inner) => {
            collect_checked_recv_vars(inner, out);
        },
        _ => {
            assert(out@.map_values(|v: String| v@) =~= base + checked_recv_vars(*e));
        },
    }
}

/// Appends the checked-call receiver names of each expression of `es`
/// to `out`.
pub fn collect_checked_recv_list(es: &Vec<Expr>, out: &mut Vec<String>)
    ensures
        final(out)@.map_values(|v: String| v@) == old(out)@.map_values(|v: String| v@)
            + checked_recv_vars_list(es@),
    decreases es@,
{
    let ghost base = out@.map_values(|v: String| v@);
    let mut i: usize = 0;
    proof {
        assert(es@.subrange(0, 0) =~= Seq::<Expr>::empty());
        assert(base + checked_recv_vars_list(es@.subrange(0, 0)) =~= base);
    }
    while i < es.len()
        invariant
            0 <= i <= es@.len(),
            base == old(out)@.map_values(|v: String| v@),
            out@.map_values(|v: String| v@) == base + checked_recv_vars_list(
                es@.subrange(0, i as int),
            ),
        decreases es@.len() - i,
    {
        proof {
            assert(decreases_to!(es@ => es@[i as int]));
        }
        collect_checked_recv_vars(&es[i], out);
        proof {
            assert(es@.subrange(0, i + 1).drop_last() =~= es@.subrange(0, i as int));
            assert(es@.subrange(0, i + 1).last() == es@[i as int]);
            assert(out@.map_values(|v: String| v@) =~= base + checked_recv_vars_list(
                es@.subrange(0, i + 1),
            ));
        }
        i = i + 1;
    }
    proof {
        assert(es@.subrange(0, es@.len() as int) =~= es@);
    }
}

/// The aggregate status of a list of names: any tainted name taints the
/// whole expression; otherwise any unknown name leaves it unknown;
/// otherwise it is clean.
pub open spec fn vars_status(env: Map<Seq<char>, TaintStatus>, vars: Seq<Seq<char>>) -> TaintStatus
    decreases vars.len(),
{
    if vars.len() == 0 {
        TaintStatus::Clean
    } else {
        combine_status(vars_status(env, vars.drop_last()), status_of(env, vars.last()))
    }
}

/// The aggregate taint status of an expression under `env`: paths of one
/// segment read their name's status, literals are clean, calls are
/// unknown, binary operations combine their operands, and any other
/// expression is tainted when it mentions a tainted name and unknown
/// otherwise.
pub open spec fn expr_status(env: Map<Seq<char>, TaintStatus>, e: Expr) -> TaintStatus
    decreases e,
{
    match e {
        Expr::Path(segments) => if segments@.len() == 1 {
            status_of(env, segments@[0]@)
        } else {
            vars_status(env, vars_of_expr(e))
        },
        Expr::Binary(l, r) => combine_status(expr_status(env, *l), expr_status(env, *r)),
        Expr::Lit => TaintStatus::Clean,
        Expr::Call(_, _) => TaintStatus::Unknown,
        Expr::Paren(inner) => expr_status(env, *inner),
        Expr::Unary(inner) => expr_status(env, *inner),
        _ => if vars_status(env, vars_of_expr(e)) == TaintStatus::Tainted {
            TaintStatus::Tainted
        } else {
            TaintStatus::Unknown
        },
    }
}

/// The full state of one taint-tracking run.
pub ghost struct TaintModel {
    /// Per-name statuses.
    pub env: Map<Seq<char>, TaintStatus>,
    /// Per-name provenance for explicitly tainted names.
    pub sources: Map<Seq<char>, SourceModel>,
    /// The flows recorded so far, in discovery order.
    pub flows: Seq<FlowModel>,
    /// The statement counter standing in for a line number.
    pub line: nat,
    /// The source lines, for excerpting; never changes during a run.
    pub lines: Seq<Seq<char>>,
}

/// Advances the statement counter; it sticks at the largest
/// representable value rather than wrapping.
pub open spec fn bump_line(line: nat) -> nat {
    if line < usize::MAX {
        line + 1
    } else {
        line
    }
}

/// The trimmed text of the line the counter points at, or nothing when
/// it points outside the text.
pub open spec fn excerpt(lines: Seq<Seq<char>>, line: nat) -> Seq<char> {
    let idx: nat = if line == 0 {
        0
    } else {
        (line - 1) as nat
    };
    if idx < lines.len() {
        trim_spec(lines[idx as int])
    } else {
        Seq::empty()
    }
}

/// Records one flow for `var` if and only if `var` is currently
/// `Tainted`; sanitized, clean and unknown names are never flagged.
pub open spec fn record_flow_at(
    m: TaintModel,
    var: Seq<char>,
    sink: TaintSinkType,
    line: nat,
) -> TaintModel {
    if status_of(m.env, var) == TaintStatus::Tainted {
        TaintModel {
            flows: m.flows.push(
                FlowModel {
                    variable: var,
                    source: source_of(m.sources, var),
                    sink,
                    line,
                    code: excerpt(m.lines, line),
                },
            ),
            ..m
        }
    } else {
        m
    }
}

/// Records one flow per name, in order.
pub open spec fn record_flows(
    m: TaintModel,
    vars: Seq<Seq<char>>,
    sink: TaintSinkType,
    line: nat,
) -> TaintModel
    decreases vars.len(),
{
    if vars.len() == 0 {
        m
    } else {
        record_flow_at(record_flows(m, vars.drop_last(), sink, line), vars.last(), sink, line)
    }
}

/// Marks every currently tainted name of `vars` as sanitized.
pub open spec fn sanitize_tainted(m: TaintModel, vars: Seq<Seq<char>>) -> TaintModel
    decreases vars.len(),
{
    if vars.len() == 0 {
        m
    } else {
        let m1 = sanitize_tainted(m, vars.drop_last());
        if status_of(m1.env, vars.last()) == TaintStatus::Tainted {
            TaintModel { env: m1.env.insert(vars.last(), TaintStatus::Sanitized), ..m1 }
        } else {
            m1
        }
    }
}

/// The status-entry list only grows during a walk: every earlier entry
/// is preserved. A snapshot of its length is therefore enough of an
/// undo log to roll a branch back.
pub open spec fn entries_extended(
    a: Seq<(String, TaintStatus)>,
    b: Seq<(String, TaintStatus)>,
) -> bool {
    a.len() <= b.len() && b.subrange(0, a.len() as int) == a
}

pub proof fn lemma_entries_extended_trans(
    a: Seq<(String, TaintStatus)>,
    b: Seq<(String, TaintStatus)>,
    c: Seq<(String, TaintStatus)>,
)
    requires
        entries_extended(a, b),
        entries_extended(b, c),
    ensures
        entries_extended(a, c),
{
    assert(c.subrange(0, a.len() as int) =~= c.subrange(0, b.len() as int).subrange(
        0,
        a.len() as int,
    ));
}

/// The identifier tokens of raw macro-argument text that look like
/// variable names: those starting with a letter.
pub open spec fn str_vars(s: Seq<char>) -> Seq<Seq<char>> {
    var_tokens(tokens_spec(s))
}

/// Keeps the tokens whose first character is a letter.
pub open spec fn var_tokens(ts: Seq<Seq<char>>) -> Seq<Seq<char>>
    decreases ts.len(),
{
    if ts.len() == 0 {
        Seq::empty()
    } else {
        let rest = var_tokens(ts.drop_last());
        if ts.last().len() > 0 && is_alpha_char(ts.last()[0]) {
            rest.push(ts.last())
        } else {
            rest
        }
    }
}

/// Whether a case-folded rendered callee names a transfer-like
/// operation; a checked transfer is not a sink.
pub open spec fn callee_is_transfer(callee: Seq<char>) -> bool {
    contains_lower(callee, "transfer"@) && !contains_lower(callee, "transfer_checked"@)
}

/// Whether a case-folded rendered callee names an invoke-like operation.
pub open spec fn callee_is_invoke(callee: Seq<char>) -> bool {
    contains_lower(callee, "invoke"@)
}

/// Whether a macro name is a sanitizing assertion.
pub open spec fn is_sanitizer_macro(name: Seq<char>) -> bool {
    name == "require"@ || name == "assert"@ || name == "require_eq"@
}

/// Whether a method call is a checked or saturating numeric operation.
/// Its receiver is treated as sanitized at the sink call site it stands
/// in, and only there; this is a known approximation — the result, not
/// the receiver, is what is actually safe.
pub open spec fn is_checked_method(name: Seq<char>) -> bool {
    starts_with_seq(name, "checked_"@) || starts_with_seq(name, "saturating_"@)
}

/// The names standing as receivers of checked or saturating numeric
/// calls anywhere inside an expression.
pub open spec fn checked_recv_vars(e: Expr) -> Seq<Seq<char>>
    decreases e,
{
    match e {
        Expr::Field(base, _) => checked_recv_vars(*base),
        Expr::Binary(l, r) => checked_recv_vars(*l) + checked_recv_vars(*r),
        Expr::Call(_, args) => checked_recv_vars_list(args@),
        Expr::MethodCall(recv, method, args) => (if is_checked_method(method@) {
            vars_of_expr(*recv)
        } else {
            Seq::empty()
        }) + checked_recv_vars(*recv) + checked_recv_vars_list(args@),
        Expr::Paren(inner) => checked_recv_vars(*inner),
        Expr::Unary(inner) => checked_recv_vars(*inner),
        _ => Seq::empty(),
    }
}

/// The checked-call receiver names of a list of expressions, in order.
pub open spec fn checked_recv_vars_list(es: Seq<Expr>) -> Seq<Seq<char>>
    decreases es,
{
    if es.len() == 0 {
        Seq::empty()
    } else {
        checked_recv_vars_list(es.drop_last()) + checked_recv_vars(es.last())
    }
}

/// One taint-tracking step over a statement list, front to back.
pub open spec fn step_stmts(m: TaintModel, ss: Seq<Stmt>) -> TaintModel
    decreases ss, 1int,
{
    if ss.len() == 0 {
        m
    } else {
        step_stmt(step_stmts(m, ss.drop_last()), ss.last())
    }
}

/// One taint-tracking step over a statement: the statement counter
/// advances, a binding assigns its right-hand side's aggregate status to
/// its name, and the statement's expressions are then visited.
pub open spec fn step_stmt(m: TaintModel, s: Stmt) -> TaintModel
    decreases s, 1int,
{
    let m1 = TaintModel { line: bump_line(m.line), ..m };
    match s {
        Stmt::Let(name, init) => match init {
            Some(e) => {
                let st = expr_status(m1.env, e);
                let m2 = TaintModel { env: m1.env.insert(name@, st), ..m1 };
                step_expr(m2, e)
            },
            None => m1,
        },
        Stmt::Expr(e) => step_expr(m1, e),
    }
}

/// One taint-tracking step over an expression list, front to back.
pub open spec fn step_exprs(m: TaintModel, es: Seq<Expr>) -> TaintModel
    decreases es, 1int,
{
    if es.len() == 0 {
        m
    } else {
        step_expr(step_exprs(m, es.drop_last()), es.last())
    }
}

/// One taint-tracking step over an expression: sinks record flows for
/// the tainted names in their arguments, sanitizing assertions defuse
/// names for the remainder of the run, and an assignment overwrites its
/// target's status. At a sink, a name standing as the receiver of a
/// checked or saturating numeric call inside the arguments is treated
/// as sanitized for that sink alone: the statuses are untouched once
/// the sink is recorded. A branch condition defuses its tainted names
/// for the `then` branch only, and every status change made inside the
/// `then` branch is rolled back when it ends: a branch-local
/// sanitization does not leak out. The `else` branch runs under the
/// statuses from before the conditional. Flows recorded inside either
/// branch are kept; flows are never retracted.
pub open spec fn step_expr(m: TaintModel, e: Expr) -> TaintModel
    decreases e, 2int,
{
    match e {
        Expr::Field(base, _) => step_expr(m, *base),
        Expr::Binary(l, r) => step_expr(step_expr(m, *l), *r),
        Expr::Paren(inner) => step_expr(m, *inner),
        Expr::Unary(inner) => step_expr(m, *inner),
        Expr::Assign(name, val) => {
            let st = expr_status(m.env, *val);
            let m2 = TaintModel { env: m.env.insert(name@, st), ..m };
            step_expr(m2, *val)
        },
        Expr::Call(callee, args) => {
            let m2 = if callee_is_transfer(callee@) || callee_is_invoke(callee@) {
                let site = sanitize_tainted(m, checked_recv_vars_list(args@));
                let a = if callee_is_transfer(callee@) {
                    record_flows(site, vars_of_exprs(args@), TaintSinkType::Transfer, site.line)
                } else {
                    site
                };
                let b = if callee_is_invoke(callee@) {
                    record_flows(a, vars_of_exprs(args@), TaintSinkType::Invoke, a.line)
                } else {
                    a
                };
                TaintModel { env: m.env, ..b }
            } else {
                m
            };
            step_exprs(m2, args@)
        },
        Expr::MethodCall(recv, method, args) => {
            let m2 = if method@ == "transfer"@ {
                let site = sanitize_tainted(m, checked_recv_vars_list(args@));
                let a = record_flows(site, vars_of_exprs(args@), TaintSinkType::Transfer, site.line);
                TaintModel { env: m.env, ..a }
            } else {
                m
            };
            step_exprs(step_expr(m2, *recv), args@)
        },
        Expr::Macro(name, tokens) => if is_sanitizer_macro(name@) {
            sanitize_tainted(m, str_vars(tokens@))
        } else {
            m
        },
        Expr::If(cond, then_body, else_body) => {
            let m1 = sanitize_tainted(m, vars_of_expr(*cond));
            let m2 = step_stmts(m1, then_body@);
            let m3 = TaintModel { env: m.env, ..m2 };
            match else_body {
                Some(ss) => step_stmts(m3, ss@),
                None => m3,
            }
        },
        Expr::Loop(header, body) => {
            let m1 = match header {
                Some(h) => step_expr(m, *h),
                None => m,
            };
            step_stmts(m1, body@)
        },
        Expr::Block(ss) => step_stmts(m, ss@),
        _ => m,
    }
}

/// Combines two statuses.
pub fn combine_status_x(a: TaintStatus, b: TaintStatus) -> (r: TaintStatus)
    ensures
        r == combine_status(a, b),
{
    if a == TaintStatus::Tainted || b == TaintStatus::Tainted {
        TaintStatus::Tainted
    } else if a == TaintStatus::Unknown || b == TaintStatus::Unknown {
        TaintStatus::Unknown
    } else {
        TaintStatus::Clean
    }
}

/// The aggregate status of a list of names under `ctx`.
fn eval_vars_status(ctx: &TaintContext, vars: &Vec<String>) -> (r: TaintStatus)
    ensures
        r == vars_status(status_map(ctx.entries@), vars@.map_values(|v: String| v@)),
{
    let ghost vs = vars@.map_values(|v: String| v@);
    let mut r = TaintStatus::Clean;
    let mut i: usize = 0;
    proof {
        assert(vs.subrange(0, 0) =~= Seq::<Seq<char>>::empty());
    }
    while i < vars.len()
        invariant
            0 <= i <= vars@.len(),
            vs == vars@.map_values(|v: String| v@),
            r == vars_status(status_map(ctx.entries@), vs.subrange(0, i as int)),
        decreases vars@.len() - i,
    {
        let st = ctx.get_status(vars[i].as_str());
        r = combine_status_x(r, st);
        proof {
            assert(vs.subrange(0, i + 1).drop_last() =~= vs.subrange(0, i as int));
            assert(vs.subrange(0, i + 1).last() == vs[i as int]);
        }
        i = i + 1;
    }
    proof {
        assert(vs.subrange(0, vs.len() as int) =~= vs);
    }
    r
}

/// The aggregate status of an expression under `ctx`.
fn eval_expr_status(ctx: &TaintContext, e: &Expr) -> (r: TaintStatus)
    ensures
        r == expr_status(status_map(ctx.entries@), *e),
    decreases *e,
{
    match e {
        Expr::Path(segments) => {
            if segments.len() == 1 {
                ctx.get_status(segments[0].as_str())
            } else {
                let mut vars: Vec<String> = Vec::new();
                collect_expr_vars(e, &mut vars);
                proof {
                    assert(vars@.map_values(|v: String| v@) =~= vars_of_expr(*e));
                }
                eval_vars_status(ctx, &vars)
            }
        },
        Expr::Binary(l, r) => {
            let a = eval_expr_status(ctx, l);
            let b = eval_expr_status(ctx, r);
            combine_status_x(a, b)
        },
        Expr::Lit => TaintStatus::Clean,
        Expr::Call(_, _) => TaintStatus::Unknown,
        Expr::Paren(inner) => eval_expr_status(ctx, inner),
        Expr::Unary(inner) => eval_expr_status(ctx, inner),
        _ => {
            let mut vars: Vec<String> = Vec::new();
            collect_expr_vars(e, &mut vars);
            proof {
                assert(vars@.map_values(|v: String| v@) =~= vars_of_expr(*e));
            }
            let st = eval_vars_status(ctx, &vars);
            if st == TaintStatus::Tainted {
                TaintStatus::Tainted
            } else {
                TaintStatus::Unknown
            }
        },
    }
}

/// Copies a provenance record.
fn clone_source(s: &TaintSourceType) -> (r: TaintSourceType)
    ensures
        r@ == s@,
{
    match s {
        TaintSourceType::FunctionArg(n) => TaintSourceType::FunctionArg(n.clone()),
        TaintSourceType::AccountField(n) => TaintSourceType::AccountField(n.clone()),
        TaintSourceType::DeserializedData(n) => TaintSourceType::DeserializedData(n.clone()),
        TaintSourceType::AccountData(n) => TaintSourceType::AccountData(n.clone()),
    }
}

/// Tracks taint propagation through one function body.
pub struct TaintTracker {
    /// The per-name statuses of the current run.
    pub context: TaintContext,
    /// The flows detected so far.
    pub flows: Vec<TaintedFlow>,
    /// The source lines, for excerpting.
    pub source_lines: Vec<String>,
    /// The statement counter standing in for a line number.
    pub line: usize,
}

impl View for TaintTracker {
    type V = TaintModel;

    open spec fn view(&self) -> TaintModel {
        TaintModel {
            env: status_map(self.context.entries@),
            sources: source_map(self.context.sources@),
            flows: self.flows@.map_values(|f: TaintedFlow| f@),
            line: self.line as nat,
            lines: self.source_lines@.map_values(|l: String| l@),
        }
    }
}

impl TaintTracker {
    /// A fresh tracker over `source_code`: every name `Unknown`, no
    /// flows, the statement counter at zero.
    pub fn new(source_code: &str) -> (r: TaintTracker)
        ensures
            r@.env == Map::<Seq<char>, TaintStatus>::empty(),
            r@.sources == Map::<Seq<char>, SourceModel>::empty(),
            r@.flows == Seq::<FlowModel>::empty(),
            r@.line == 0,
            r@.lines == split_lines_spec(source_code@),
    {
        let r = TaintTracker {
            context: TaintContext::new(),
            flows: Vec::new(),
            source_lines: split_lines(source_code),
            line: 0,
        };
        proof {
            assert(r@.flows =~= Seq::<FlowModel>::empty());
        }
        r
    }

    /// The provenance recorded for `var`, defaulting to a function
    /// argument when none was recorded.
    fn find_source(&self, var: &str) -> (r: TaintSourceType)
        ensures
            r@ == source_of(source_map(self.context.sources@), var@),
    {
        let ghost m = self.context.sources@;
        let mut i: usize = self.context.sources.len();
        proof {
            assert(m.subrange(0, i as int) =~= m);
            assert(source_of(source_map(m), var@) == source_of(
                source_map(m.subrange(0, i as int)),
                var@,
            ));
        }
        while i > 0
            invariant
                0 <= i <= self.context.sources@.len(),
                m == self.context.sources@,
                source_of(source_map(m), var@) == source_of(
                    source_map(m.subrange(0, i as int)),
                    var@,
                ),
            decreases i,
        {
            i = i - 1;
            let ghost sub = m.subrange(0, i + 1);
            proof {
                assert(sub.last() == m[i as int]);
                assert(sub.drop_last() =~= m.subrange(0, i as int));
            }
            if str_eq(self.context.sources[i].0.as_str(), var) {
                return clone_source(&self.context.sources[i].1);
            }
        }
        proof {
            assert(m.subrange(0, 0) =~= Seq::<(String, TaintSourceType)>::empty());
        }
        TaintSourceType::FunctionArg(String::from_str(var))
    }

    /// Records a tainted flow to a sink. A flow is pushed if and only if
    /// `var` is currently `Tainted`: sanitized, clean and unknown names
    /// are never flagged.
    pub fn record_flow(&mut self, var: &str, sink: TaintSinkType, line: usize)
        ensures
            final(self)@ == record_flow_at(old(self)@, var@, sink, line as nat),
            final(self).context.entries@ == old(self).context.entries@,
    {
        let status = self.context.get_status(var);
        if status == TaintStatus::Tainted {
            let idx: usize = if line == 0 {
                0
            } else {
                line - 1
            };
            let code: String = if idx < self.source_lines.len() {
                String::from_str(trim_str(self.source_lines[idx].as_str()))
            } else {
                String::new()
            };
            let source = self.find_source(var);
            let ghost pre = self.flows@;
            self.flows.push(
                TaintedFlow { variable: String::from_str(var), source, sink, line, code },
            );
            proof {
                assert(self.flows@.drop_last() =~= pre);
                assert(self.flows@.map_values(|f: TaintedFlow| f@) =~= pre.map_values(
                    |f: TaintedFlow| f@,
                ).push(self.flows@.last()@));
                assert(self@ == record_flow_at(old(self)@, var@, sink, line as nat));
            }
        }
    }

    /// Marks `var` as tainted, recording where the taint came from.
    pub fn mark_tainted(&mut self, var: &str, source: TaintSourceType)
        ensures
            final(self)@ == (TaintModel {
                env: old(self)@.env.insert(var@, TaintStatus::Tainted),
                sources: old(self)@.sources.insert(var@, source@),
                ..old(self)@
            }),
    {
        self.context.set_status(String::from_str(var), TaintStatus::Tainted);
        let ghost pre = self.context.sources@;
        self.context.sources.push((String::from_str(var), source));
        proof {
            assert(self.context.sources@.drop_last() =~= pre);
        }
    }

    /// Marks `var` as sanitized.
    pub fn mark_sanitized(&mut self, var: &str)
        ensures
            final(self)@ == (TaintModel {
                env: old(self)@.env.insert(var@, TaintStatus::Sanitized),
                ..old(self)@
            }),
    {
        self.context.set_status(String::from_str(var), TaintStatus::Sanitized);
    }

    /// Whether `var` is currently tainted.
    pub fn is_tainted(&self, var: &str) -> (r: bool)
        ensures
            r == (status_of(self@.env, var@) == TaintStatus::Tainted),
    {
        let st = self.context.get_status(var);
        st == TaintStatus::Tainted
    }

    /// Propagates the status of `from` onto `to`, as an assignment
    /// `to = from` would.
    pub fn propagate(&mut self, from: &str, to: &str)
        ensures
            final(self)@ == (TaintModel {
                env: old(self)@.env.insert(to@, status_of(old(self)@.env, from@)),
                ..old(self)@
            }),
    {
        let st = self.context.get_status(from);
        self.context.set_status(String::from_str(to), st);
    }
}

/// Keeps the tokens whose first character is a letter.
fn filter_var_tokens(toks: &Vec<String>) -> (r: Vec<String>)
    ensures
        r@.map_values(|v: String| v@) == var_tokens(toks@.map_values(|v: String| v@)),
{
    let ghost ts = toks@.map_values(|v: String| v@);
    let mut out: Vec<String> = Vec::new();
    let mut i: usize = 0;
    proof {
        assert(ts.subrange(0, 0) =~= Seq::<Seq<char>>::empty());
        assert(out@.map_values(|v: String| v@) =~= var_tokens(ts.subrange(0, 0)));
    }
    while i < toks.len()
        invariant
            0 <= i <= toks@.len(),
            ts == toks@.map_values(|v: String| v@),
            out@.map_values(|v: String| v@) == var_tokens(ts.subrange(0, i as int)),
        decreases toks@.len() - i,
    {
        let t = &toks[i];
        proof {
            assert(ts.subrange(0, i + 1).drop_last() =~= ts.subrange(0, i as int));
            assert(ts.subrange(0, i + 1).last() == ts[i as int]);
        }
        if t.as_str().unicode_len() > 0 && is_alpha_char_x(t.as_str().get_char(0)) {
            let ghost pre = out@;
            out.push(t.clone());
            proof {
                assert(out@.drop_last() =~= pre);
                assert(out@.map_values(|v: String| v@) =~= var_tokens(ts.subrange(0, i + 1)));
            }
        } else {
            proof {
                assert(out@.map_values(|v: String| v@) =~= var_tokens(ts.subrange(0, i + 1)));
            }
        }
        i = i + 1;
    }
    proof {
        assert(ts.subrange(0, ts.len() as int) =~= ts);
    }
    out
}

/// Seeds every formal parameter as tainted, with itself as provenance.
pub open spec fn seed_params_model(m: TaintModel, params: Seq<crate::ast::Param>) -> TaintModel
    decreases params.len(),
{
    if params.len() == 0 {
        m
    } else {
        let m1 = seed_params_model(m, params.drop_last());
        TaintModel {
            env: m1.env.insert(params.last().name@, TaintStatus::Tainted),
            sources: m1.sources.insert(
                params.last().name@,
                SourceModel::FunctionArg(params.last().name@),
            ),
            ..m1
        }
    }
}

/// The tracker state after seeding one function: every parameter
/// tainted as a function argument, and the implicit context receiver
/// tainted as account data.
pub open spec fn seeded_model(m: TaintModel, f: FnDecl) -> TaintModel {
    let m1 = seed_params_model(m, f.params@);
    TaintModel {
        env: m1.env.insert("ctx"@, TaintStatus::Tainted),
        sources: m1.sources.insert("ctx"@, SourceModel::AccountField("ctx"@)),
        ..m1
    }
}

/// The tracker state after a full analysis of one function.
pub open spec fn analyze_fn(m: TaintModel, f: FnDecl) -> TaintModel {
    step_stmts(seeded_model(m, f), f.body@)
}

proof fn lemma_seed_params(m: TaintModel, params: Seq<crate::ast::Param>, i: int)
    requires
        0 <= i < params.len(),
    ensures
        status_of(seed_params_model(m, params).env, params[i].name@) == TaintStatus::Tainted,
        source_of(seed_params_model(m, params).sources, params[i].name@)
            == SourceModel::FunctionArg(params[i].name@),
    decreases params.len(),
{
    if i == params.len() - 1 {
    } else {
        lemma_seed_params(m, params.drop_last(), i);
        assert(params.drop_last()[i] == params[i]);
    }
}

/// Before any statement of a function is visited, every formal
/// parameter is `Tainted`, and any parameter not named like the
/// implicit context receiver carries itself as a function-argument
/// source.
pub proof fn lemma_params_seeded(m: TaintModel, f: FnDecl, i: int)
    requires
        0 <= i < f.params@.len(),
    ensures
        status_of(seeded_model(m, f).env, f.params@[i].name@) == TaintStatus::Tainted,
        f.params@[i].name@ != "ctx"@ ==> source_of(seeded_model(m, f).sources, f.params@[i].name@)
            == SourceModel::FunctionArg(f.params@[i].name@),
{
    lemma_seed_params(m, f.params@, i);
}

/// The implicit context receiver is `Tainted` before any statement is
/// visited, with an account-field source.
pub proof fn lemma_ctx_seeded(m: TaintModel, f: FnDecl)
    ensures
        status_of(seeded_model(m, f).env, "ctx"@) == TaintStatus::Tainted,
        source_of(seeded_model(m, f).sources, "ctx"@) == SourceModel::AccountField("ctx"@),
{
}

impl TaintTracker {
    /// Records one flow per name of `vars`, in order, at the current
    /// statement counter.
    fn record_flow_list(&mut self, vars: &Vec<String>, sink: TaintSinkType)
        ensures
            final(self)@ == record_flows(
                old(self)@,
                vars@.map_values(|v: String| v@),
                sink,
                old(self)@.line,
            ),
            final(self).context.entries@ == old(self).context.entries@,
    {
        let ghost vs = vars@.map_values(|v: String| v@);
        let line = self.line;
        let mut i: usize = 0;
        proof {
            assert(vs.subrange(0, 0) =~= Seq::<Seq<char>>::empty());
        }
        while i < vars.len()
            invariant
                0 <= i <= vars@.len(),
                vs == vars@.map_values(|v: String| v@),
                line as nat == old(self)@.line,
                self@ == record_flows(old(self)@, vs.subrange(0, i as int), sink, old(self)@.line),
                self.context.entries@ == old(self).context.entries@,
            decreases vars@.len() - i,
        {
            self.record_flow(vars[i].as_str(), sink, line);
            proof {
                assert(vs.subrange(0, i + 1).drop_last() =~= vs.subrange(0, i as int));
                assert(vs.subrange(0, i + 1).last() == vs[i as int]);
            }
            i = i + 1;
        }
        proof {
            assert(vs.subrange(0, vs.len() as int) =~= vs);
        }
    }

    /// Marks every currently tainted name of `vars` as sanitized.
    fn sanitize_list(&mut self, vars: &Vec<String>)
        ensures
            final(self)@ == sanitize_tainted(old(self)@, vars@.map_values(|v: String| v@)),
            entries_extended(old(self).context.entries@, final(self).context.entries@),
    {
        let ghost vs = vars@.map_values(|v: String| v@);
        let mut i: usize = 0;
        proof {
            assert(vs.subrange(0, 0) =~= Seq::<Seq<char>>::empty());
            assert(self.context.entries@.subrange(0, self.context.entries@.len() as int)
                =~= self.context.entries@);
        }
        while i < vars.len()
            invariant
                0 <= i <= vars@.len(),
                vs == vars@.map_values(|v: String| v@),
                self@ == sanitize_tainted(old(self)@, vs.subrange(0, i as int)),
                entries_extended(old(self).context.entries@, self.context.entries@),
            decreases vars@.len() - i,
        {
            proof {
                assert(vs.subrange(0, i + 1).drop_last() =~= vs.subrange(0, i as int));
                assert(vs.subrange(0, i + 1).last() == vs[i as int]);
            }
            let ghost pre_entries = self.context.entries@;
            let st = self.context.get_status(vars[i].as_str());
            if st == TaintStatus::Tainted {
                self.context.set_status(vars[i].clone(), TaintStatus::Sanitized);
                proof {
                    assert(self.context.entries@.drop_last() =~= pre_entries);
                    assert(entries_extended(pre_entries, self.context.entries@)) by {
                        assert(self.context.entries@.subrange(0, pre_entries.len() as int)
                            =~= pre_entries);
                    }
                    lemma_entries_extended_trans(
                        old(self).context.entries@,
                        pre_entries,
                        self.context.entries@,
                    );
                }
            }
            i = i + 1;
        }
        proof {
            assert(vs.subrange(0, vs.len() as int) =~= vs);
        }
    }

    /// Walks an expression list in order.
    fn walk_expr_list(&mut self, es: &Vec<Expr>)
        ensures
            final(self)@ == step_exprs(old(self)@, es@),
            entries_extended(old(self).context.entries@, final(self).context.entries@),
        decreases es@, 1int,
    {
        let mut i: usize = 0;
        proof {
            assert(es@.subrange(0, 0) =~= Seq::<Expr>::empty());
            assert(self.context.entries@.subrange(0, self.context.entries@.len() as int)
                =~= self.context.entries@);
        }
        while i < es.len()
            invariant
                0 <= i <= es@.len(),
                self@ == step_exprs(old(self)@, es@.subrange(0, i as int)),
                entries_extended(old(self).context.entries@, self.context.entries@),
            decreases es@.len() - i,
        {
            proof {
                assert(decreases_to!(es@ => es@[i as int]));
                assert(es@.subrange(0, i + 1).drop_last() =~= es@.subrange(0, i as int));
                assert(es@.subrange(0, i + 1).last() == es@[i as int]);
            }
            let ghost pre_entries = self.context.entries@;
            self.walk_expr(&es[i]);
            proof {
                lemma_entries_extended_trans(
                    old(self).context.entries@,
                    pre_entries,
                    self.context.entries@,
                );
            }
            i = i + 1;
        }
        proof {
            assert(es@.subrange(0, es@.len() as int) =~= es@);
        }
    }

    /// Walks a statement list in order.
    fn walk_stmts(&mut self, ss: &Vec<Stmt>)
        ensures
            final(self)@ == step_stmts(old(self)@, ss@),
            entries_extended(old(self).context.entries@, final(self).context.entries@),
        decreases ss@, 1int,
    {
        let mut i: usize = 0;
        proof {
            assert(ss@.subrange(0, 0) =~= Seq::<Stmt>::empty());
            assert(self.context.entries@.subrange(0, self.context.entries@.len() as int)
                =~= self.context.entries@);
        }
        while i < ss.len()
            invariant
                0 <= i <= ss@.len(),
                self@ == step_stmts(old(self)@, ss@.subrange(0, i as int)),
                entries_extended(old(self).context.entries@, self.context.entries@),
            decreases ss@.len() - i,
        {
            proof {
                assert(decreases_to!(ss@ => ss@[i as int]));
                assert(ss@.subrange(0, i + 1).drop_last() =~= ss@.subrange(0, i as int));
                assert(ss@.subrange(0, i + 1).last() == ss@[i as int]);
            }
            let ghost pre_entries = self.context.entries@;
            self.walk_stmt(&ss[i]);
            proof {
                lemma_entries_extended_trans(
                    old(self).context.entries@,
                    pre_entries,
                    self.context.entries@,
                );
            }
            i = i + 1;
        }
        proof {
            assert(ss@.subrange(0, ss@.len() as int) =~= ss@);
        }
    }

    /// Walks one statement: the statement counter advances, a binding
    /// assigns its right-hand side's aggregate status to its name, and
    /// the statement's expressions are visited.
    fn walk_stmt(&mut self, s: &Stmt)
        ensures
            final(self)@ == step_stmt(old(self)@, *s),
            entries_extended(old(self).context.entries@, final(self).context.entries@),
        decreases *s, 1int,
    {
        proof {
            assert(self.context.entries@.subrange(0, self.context.entries@.len() as int)
                =~= self.context.entries@);
        }
        if self.line < usize::MAX {
            self.line = self.line + 1;
        }
        match s {
            Stmt::Let(name, init) => match init {
                Some(e) => {
                    let st = eval_expr_status(&self.context, e);
                    let ghost p0 = self.context.entries@;
                    self.context.set_status(name.clone(), st);
                    let ghost p1 = self.context.entries@;
                    proof {
                        assert(p1.drop_last() =~= p0);
                        assert(p1.subrange(0, p0.len() as int) =~= p0);
                    }
                    self.walk_expr(e);
                    proof {
                        lemma_entries_extended_trans(p0, p1, self.context.entries@);
                        lemma_entries_extended_trans(
                            old(self).context.entries@,
                            p0,
                            self.context.entries@,
                        );
                    }
                },
                None => {},
            },
            Stmt::Expr(e) => {
                self.walk_expr(e);
            },
        }
    }

    /// Walks one expression: sinks record flows for the tainted names in
    /// their arguments, sanitizing assertions and checked numeric calls
    /// defuse names, branch conditions defuse their names for the `then`
    /// branch only, and an assignment overwrites its target's status.
    fn walk_expr(&mut self, e: &Expr)
        ensures
            final(self)@ == step_expr(old(self)@, *e),
            entries_extended(old(self).context.entries@, final(self).context.entries@),
        decreases *e, 2int,
    {
        proof {
            assert(self.context.entries@.subrange(0, self.context.entries@.len() as int)
                =~= self.context.entries@);
        }
        match e {
            Expr::Field(base, _) => {
                self.walk_expr(base);
            },
            Expr::Binary(l, r) => {
                let ghost p0 = self.context.entries@;
                self.walk_expr(l);
                let ghost p1 = self.context.entries@;
                self.walk_expr(r);
                proof {
                    lemma_entries_extended_trans(p0, p1, self.context.entries@);
                }
            },
            Expr::Paren(inner) => {
                self.walk_expr(inner);
            },
            Expr::Unary(inner) => {
                self.walk_expr(inner);
            },
            Expr::Assign(name, val) => {
                let st = eval_expr_status(&self.context, val);
                let ghost p0 = self.context.entries@;
                self.context.set_status(name.clone(), st);
                let ghost p1 = self.context.entries@;
                proof {
                    assert(p1.drop_last() =~= p0);
                    assert(p1.subrange(0, p0.len() as int) =~= p0);
                }
                self.walk_expr(val);
                proof {
                    lemma_entries_extended_trans(p0, p1, self.context.entries@);
                }
            },
            Expr::Call(callee, args) => {
                let is_transfer = contains_lower_sub(callee.as_str(), "transfer")
                    && !contains_lower_sub(callee.as_str(), "transfer_checked");
                let is_invoke = contains_lower_sub(callee.as_str(), "invoke");
                if is_transfer || is_invoke {
                    let ghost pre = self@;
                    let ghost pre_entries = self.context.entries@;
                    let snapshot = self.context.entries.len();
                    let mut cvars: Vec<String> = Vec::new();
                    collect_checked_recv_list(args, &mut cvars);
                    proof {
                        assert(cvars@.map_values(|v: String| v@) =~= checked_recv_vars_list(
                            args@,
                        ));
                    }
                    self.sanitize_list(&cvars);
                    let mut avars: Vec<String> = Vec::new();
                    collect_exprs_vars(args, &mut avars);
                    proof {
                        assert(avars@.map_values(|v: String| v@) =~= vars_of_exprs(args@));
                    }
                    if is_transfer {
                        self.record_flow_list(&avars, TaintSinkType::Transfer);
                    }
                    if is_invoke {
                        self.record_flow_list(&avars, TaintSinkType::Invoke);
                    }
                    proof {
                        assert(self.context.entries@.subrange(0, snapshot as int)
                            =~= pre_entries);
                    }
                    self.context.entries.truncate(snapshot);
                    proof {
                        assert(self.context.entries@ == pre_entries);
                    }
                }
                self.walk_expr_list(args);
            },
            Expr::MethodCall(recv, method, args) => {
                let ghost p0 = self.context.entries@;
                if str_eq(method.as_str(), "transfer") {
                    let ghost pre_entries = self.context.entries@;
                    let snapshot = self.context.entries.len();
                    let mut cvars: Vec<String> = Vec::new();
                    collect_checked_recv_list(args, &mut cvars);
                    proof {
                        assert(cvars@.map_values(|v: String| v@) =~= checked_recv_vars_list(
                            args@,
                        ));
                    }
                    self.sanitize_list(&cvars);
                    let mut avars: Vec<String> = Vec::new();
                    collect_exprs_vars(args, &mut avars);
                    proof {
                        assert(avars@.map_values(|v: String| v@) =~= vars_of_exprs(args@));
                    }
                    self.record_flow_list(&avars, TaintSinkType::Transfer);
                    proof {
                        assert(self.context.entries@.subrange(0, snapshot as int)
                            =~= pre_entries);
                    }
                    self.context.entries.truncate(snapshot);
                    proof {
                        assert(self.context.entries@ == pre_entries);
                    }
                }
                let ghost p1 = self.context.entries@;
                self.walk_expr(recv);
                let ghost p2 = self.context.entries@;
                self.walk_expr_list(args);
                proof {
                    lemma_entries_extended_trans(p1, p2, self.context.entries@);
                    lemma_entries_extended_trans(p0, p1, self.context.entries@);
                }
            },
            Expr::Macro(name, tokens) => {
                if str_eq(name.as_str(), "require") || str_eq(name.as_str(), "assert") || str_eq(
                    name.as_str(),
                    "require_eq",
                ) {
                    let toks = ident_tokens(tokens.as_str());
                    let mvars = filter_var_tokens(&toks);
                    proof {
                        assert(mvars@.map_values(|v: String| v@) =~= str_vars(tokens@));
                    }
                    self.sanitize_list(&mvars);
                }
            },
            Expr::If(cond, then_body, else_body) => {
                let ghost pre = self@;
                let ghost pre_entries = self.context.entries@;
                let snapshot = self.context.entries.len();
                let mut cvars: Vec<String> = Vec::new();
                collect_expr_vars(cond, &mut cvars);
                proof {
                    assert(cvars@.map_values(|v: String| v@) =~= vars_of_expr(**cond));
                }
                self.sanitize_list(&cvars);
                let ghost p1 = self.context.entries@;
                self.walk_stmts(then_body);
                proof {
                    lemma_entries_extended_trans(pre_entries, p1, self.context.entries@);
                    assert(self.context.entries@.subrange(0, snapshot as int) =~= pre_entries);
                }
                self.context.entries.truncate(snapshot);
                proof {
                    assert(self.context.entries@ == pre_entries);
                    assert(self@ == (TaintModel {
                        env: pre.env,
                        ..step_stmts(sanitize_tainted(pre, vars_of_expr(**cond)), then_body@)
                    }));
                }
                match else_body {
                    Some(ss) => {
                        self.walk_stmts(ss);
                        proof {
                            assert(pre_entries.subrange(0, pre_entries.len() as int)
                                =~= pre_entries);
                            lemma_entries_extended_trans(
                                pre_entries,
                                pre_entries,
                                self.context.entries@,
                            );
                        }
                    },
                    None => {},
                }
            },
            Expr::Loop(header, body) => {
                let ghost p0 = self.context.entries@;
                match header {
                    Some(h) => {
                        self.walk_expr(h);
                    },
                    None => {},
                }
                let ghost p1 = self.context.entries@;
                self.walk_stmts(body);
                proof {
                    lemma_entries_extended_trans(p0, p1, self.context.entries@);
                }
            },
            Expr::Block(ss) => {
                self.walk_stmts(ss);
            },
            _ => {},
        }
    }

    /// Analyzes one function: seeds every formal parameter and the
    /// implicit context receiver as tainted, then walks the body once,
    /// top down, accumulating tainted flows.
    pub fn analyze_function(&mut self, func: &FnDecl)
        ensures
            final(self)@ == analyze_fn(old(self)@, *func),
    {
        let mut i: usize = 0;
        proof {
            assert(func.params@.subrange(0, 0) =~= Seq::<crate::ast::Param>::empty());
        }
        while i < func.params.len()
            invariant
                0 <= i <= func.params@.len(),
                self@ == seed_params_model(old(self)@, func.params@.subrange(0, i as int)),
            decreases func.params@.len() - i,
        {
            proof {
                assert(func.params@.subrange(0, i + 1).drop_last() =~= func.params@.subrange(
                    0,
                    i as int,
                ));
                assert(func.params@.subrange(0, i + 1).last() == func.params@[i as int]);
            }
            let pname = func.params[i].name.clone();
            self.mark_tainted(pname.as_str(), TaintSourceType::FunctionArg(pname.clone()));
            i = i + 1;
        }
        proof {
            assert(func.params@.subrange(0, func.params@.len() as int) =~= func.params@);
        }
        self.mark_tainted("ctx", TaintSourceType::AccountField(String::from_str("ctx")));
        self.walk_stmts(&func.body);
    }
}


/// The flow list of `b` extends that of `a`: every flow of `a` is
/// still there, in place.
pub open spec fn flows_extended(a: Seq<FlowModel>, b: Seq<FlowModel>) -> bool {
    a.len() <= b.len() && b.subrange(0, a.len() as int) == a
}

proof fn lemma_flows_extended_refl(a: Seq<FlowModel>)
    ensures
        flows_extended(a, a),
{
    assert(a.subrange(0, a.len() as int) =~= a);
}

proof fn lemma_flows_extended_trans(a: Seq<FlowModel>, b: Seq<FlowModel>, c: Seq<FlowModel>)
    requires
        flows_extended(a, b),
        flows_extended(b, c),
    ensures
        flows_extended(a, c),
{
    assert(c.subrange(0, a.len() as int) =~= c.subrange(0, b.len() as int).subrange(
        0,
        a.len() as int,
    ));
}

proof fn lemma_record_flows_keeps_flows(
    m: TaintModel,
    vars: Seq<Seq<char>>,
    sink: TaintSinkType,
    line: nat,
)
    ensures
        flows_extended(m.flows, record_flows(m, vars, sink, line).flows),
    decreases vars.len(),
{
    if vars.len() == 0 {
        lemma_flows_extended_refl(m.flows);
    } else {
        lemma_record_flows_keeps_flows(m, vars.drop_last(), sink, line);
        let m1 = record_flows(m, vars.drop_last(), sink, line);
        let m2 = record_flow_at(m1, vars.last(), sink, line);
        if status_of(m1.env, vars.last()) == TaintStatus::Tainted {
            assert(m2.flows.subrange(0, m1.flows.len() as int) =~= m1.flows);
        } else {
            lemma_flows_extended_refl(m1.flows);
        }
        lemma_flows_extended_trans(m.flows, m1.flows, m2.flows);
    }
}

proof fn lemma_sanitize_keeps_flows(m: TaintModel, vars: Seq<Seq<char>>)
    ensures
        sanitize_tainted(m, vars).flows == m.flows,
    decreases vars.len(),
{
    if vars.len() > 0 {
        lemma_sanitize_keeps_flows(m, vars.drop_last());
    }
}

/// A flow, once recorded, is never retracted: walking any statement
/// list only appends to the flow list.
pub proof fn lemma_step_stmts_keeps_flows(m: TaintModel, ss: Seq<Stmt>)
    ensures
        flows_extended(m.flows, step_stmts(m, ss).flows),
    decreases ss, 3int,
{
    if ss.len() == 0 {
        lemma_flows_extended_refl(m.flows);
    } else {
        lemma_step_stmts_keeps_flows(m, ss.drop_last());
        let m1 = step_stmts(m, ss.drop_last());
        lemma_step_stmt_keeps_flows(m1, ss.last());
        lemma_flows_extended_trans(m.flows, m1.flows, step_stmt(m1, ss.last()).flows);
    }
}

/// A flow, once recorded, is never retracted: walking one statement
/// only appends to the flow list.
pub proof fn lemma_step_stmt_keeps_flows(m: TaintModel, s: Stmt)
    ensures
        flows_extended(m.flows, step_stmt(m, s).flows),
    decreases s, 3int,
{
    let m1 = TaintModel { line: bump_line(m.line), ..m };
    match s {
        Stmt::Let(name, init) => match init {
            Some(e) => {
                let st = expr_status(m1.env, e);
                let m2 = TaintModel { env: m1.env.insert(name@, st), ..m1 };
                lemma_step_expr_keeps_flows(m2, e);
            },
            None => {
                lemma_flows_extended_refl(m.flows);
            },
        },
        Stmt::Expr(e) => {
            lemma_step_expr_keeps_flows(m1, e);
        },
    }
}

proof fn lemma_step_exprs_keeps_flows(m: TaintModel, es: Seq<Expr>)
    ensures
        flows_extended(m.flows, step_exprs(m, es).flows),
    decreases es, 3int,
{
    if es.len() == 0 {
        lemma_flows_extended_refl(m.flows);
    } else {
        lemma_step_exprs_keeps_flows(m, es.drop_last());
        let m1 = step_exprs(m, es.drop_last());
        lemma_step_expr_keeps_flows(m1, es.last());
        lemma_flows_extended_trans(m.flows, m1.flows, step_expr(m1, es.last()).flows);
    }
}

/// A flow, once recorded, is never retracted: walking one expression
/// only appends to the flow list. In particular the rollback at the end
/// of a branch rolls back statuses, never flows.
pub proof fn lemma_step_expr_keeps_flows(m: TaintModel, e: Expr)
    ensures
        flows_extended(m.flows, step_expr(m, e).flows),
    decreases e, 4int,
{
    match e {
        Expr::Field(base, _) => {
            lemma_step_expr_keeps_flows(m, *base);
        },
        Expr::Binary(l, r) => {
            lemma_step_expr_keeps_flows(m, *l);
            let m1 = step_expr(m, *l);
            lemma_step_expr_keeps_flows(m1, *r);
            lemma_flows_extended_trans(m.flows, m1.flows, step_expr(m1, *r).flows);
        },
        Expr::Paren(inner) => {
            lemma_step_expr_keeps_flows(m, *inner);
        },
        Expr::Unary(inner) => {
            lemma_step_expr_keeps_flows(m, *inner);
        },
        Expr::Assign(name, val) => {
            let st = expr_status(m.env, *val);
            let m2 = TaintModel { env: m.env.insert(name@, st), ..m };
            lemma_step_expr_keeps_flows(m2, *val);
        },
        Expr::Call(callee, args) => {
            let m2 = if callee_is_transfer(callee@) || callee_is_invoke(callee@) {
                let site = sanitize_tainted(m, checked_recv_vars_list(args@));
                let a = if callee_is_transfer(callee@) {
                    record_flows(site, vars_of_exprs(args@), TaintSinkType::Transfer, site.line)
                } else {
                    site
                };
                let b = if callee_is_invoke(callee@) {
                    record_flows(a, vars_of_exprs(args@), TaintSinkType::Invoke, a.line)
                } else {
                    a
                };
                TaintModel { env: m.env, ..b }
            } else {
                m
            };
            if callee_is_transfer(callee@) || callee_is_invoke(callee@) {
                let site = sanitize_tainted(m, checked_recv_vars_list(args@));
                lemma_sanitize_keeps_flows(m, checked_recv_vars_list(args@));
                let a = if callee_is_transfer(callee@) {
                    record_flows(site, vars_of_exprs(args@), TaintSinkType::Transfer, site.line)
                } else {
                    site
                };
                if callee_is_transfer(callee@) {
                    lemma_record_flows_keeps_flows(
                        site,
                        vars_of_exprs(args@),
                        TaintSinkType::Transfer,
                        site.line,
                    );
                } else {
                    lemma_flows_extended_refl(site.flows);
                }
                let b = if callee_is_invoke(callee@) {
                    record_flows(a, vars_of_exprs(args@), TaintSinkType::Invoke, a.line)
                } else {
                    a
                };
                if callee_is_invoke(callee@) {
                    lemma_record_flows_keeps_flows(
                        a,
                        vars_of_exprs(args@),
                        TaintSinkType::Invoke,
                        a.line,
                    );
                } else {
                    lemma_flows_extended_refl(a.flows);
                }
                lemma_flows_extended_trans(m.flows, a.flows, b.flows);
                assert(flows_extended(m.flows, m2.flows));
            } else {
                lemma_flows_extended_refl(m.flows);
            }
            lemma_step_exprs_keeps_flows(m2, args@);
            lemma_flows_extended_trans(m.flows, m2.flows, step_exprs(m2, args@).flows);
        },
        Expr::MethodCall(recv, method, args) => {
            let m2 = if method@ == "transfer"@ {
                let site = sanitize_tainted(m, checked_recv_vars_list(args@));
                let a = record_flows(
                    site,
                    vars_of_exprs(args@),
                    TaintSinkType::Transfer,
                    site.line,
                );
                TaintModel { env: m.env, ..a }
            } else {
                m
            };
            if method@ == "transfer"@ {
                let site = sanitize_tainted(m, checked_recv_vars_list(args@));
                lemma_sanitize_keeps_flows(m, checked_recv_vars_list(args@));
                lemma_record_flows_keeps_flows(
                    site,
                    vars_of_exprs(args@),
                    TaintSinkType::Transfer,
                    site.line,
                );
                assert(flows_extended(m.flows, m2.flows));
            } else {
                lemma_flows_extended_refl(m.flows);
            }
            let m3 = step_expr(m2, *recv);
            lemma_step_expr_keeps_flows(m2, *recv);
            lemma_step_exprs_keeps_flows(m3, args@);
            lemma_flows_extended_trans(m.flows, m2.flows, m3.flows);
            lemma_flows_extended_trans(m.flows, m3.flows, step_exprs(m3, args@).flows);
        },
        Expr::Macro(name, tokens) => {
            if is_sanitizer_macro(name@) {
                lemma_sanitize_keeps_flows(m, str_vars(tokens@));
            }
            lemma_flows_extended_refl(m.flows);
        },
        Expr::If(cond, then_body, else_body) => {
            let m1 = sanitize_tainted(m, vars_of_expr(*cond));
            lemma_sanitize_keeps_flows(m, vars_of_expr(*cond));
            let m2 = step_stmts(m1, then_body@);
            lemma_step_stmts_keeps_flows(m1, then_body@);
            let m3 = TaintModel { env: m.env, ..m2 };
            assert(flows_extended(m.flows, m3.flows));
            match else_body {
                Some(ss) => {
                    lemma_step_stmts_keeps_flows(m3, ss@);
                    lemma_flows_extended_trans(m.flows, m3.flows, step_stmts(m3, ss@).flows);
                },
                None => {},
            }
        },
        Expr::Loop(header, body) => {
            let m1 = match header {
                Some(h) => step_expr(m, *h),
                None => m,
            };
            match header {
                Some(h) => {
                    lemma_step_expr_keeps_flows(m, *h);
                },
                None => {
                    lemma_flows_extended_refl(m.flows);
                },
            }
            lemma_step_stmts_keeps_flows(m1, body@);
            lemma_flows_extended_trans(m.flows, m1.flows, step_stmts(m1, body@).flows);
        },
        Expr::Block(ss) => {
            lemma_step_stmts_keeps_flows(m, ss@);
        },
        _ => {
            lemma_flows_extended_refl(m.flows);
        },
    }
}

/// A full analysis only appends flows: seeding changes no flows, and
/// the walk keeps every recorded flow in place.
pub proof fn lemma_analysis_keeps_flows(m: TaintModel, f: FnDecl)
    ensures
        flows_extended(m.flows, analyze_fn(m, f).flows),
{
    lemma_seed_keeps_flows(m, f.params@);
    lemma_step_stmts_keeps_flows(seeded_model(m, f), f.body@);
    assert(seeded_model(m, f).flows == m.flows);
}

proof fn lemma_seed_keeps_flows(m: TaintModel, params: Seq<crate::ast::Param>)
    ensures
        seed_params_model(m, params).flows == m.flows,
    decreases params.len(),
{
    if params.len() > 0 {
        lemma_seed_keeps_flows(m, params.drop_last());
    }
}

} // verus!
