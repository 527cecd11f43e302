use anchor_sentinel::ast::{Expr, FnDecl, Param, Stmt};
use anchor_sentinel::cfg::ScopeTracker;
use anchor_sentinel::taint::{TaintContext, TaintSinkType, TaintSourceType, TaintStatus,
    TaintTracker};

fn path(name: &str) -> Expr {
    Expr::Path(vec![name.to_string()])
}

fn param(name: &str, ty: &str) -> Param {
    Param { name: name.to_string(), ty: ty.to_string() }
}

fn transfer_call(arg: &str) -> Stmt {
    Stmt::Expr(Expr::Call("token::transfer".to_string(), vec![path("ctx"), path(arg)]))
}

/// A transfer whose only argument is the amount, as in the simplest
/// vulnerable pattern.
fn bare_transfer(arg: &str) -> Stmt {
    Stmt::Expr(Expr::Call("transfer".to_string(), vec![path(arg)]))
}

fn require_macro(tokens: &str) -> Stmt {
    Stmt::Expr(Expr::Macro("require".to_string(), tokens.to_string()))
}

fn amount_fn(body: Vec<Stmt>) -> FnDecl {
    FnDecl {
        name: "withdraw".to_string(),
        params: vec![param("ctx", "Context<Withdraw>"), param("amount", "u64")],
        body,
    }
}

#[test]
fn test_taint_status() {
    let mut context = TaintContext::new();
    context.set_status("x".to_string(), TaintStatus::Tainted);
    assert_eq!(context.get_status("x"), TaintStatus::Tainted);
    assert_eq!(context.get_status("y"), TaintStatus::Unknown);
}

#[test]
fn test_taint_propagation_logic() {
    // The propagation rules are exercised end to end through
    // analyze_function; this only drives the plain status plumbing.
    let mut tracker = TaintTracker::new("");
    tracker.mark_tainted("x", TaintSourceType::FunctionArg("x".to_string()));
    tracker.propagate("x", "y");
}

#[test]
fn test_taint_tracking_integration() {
    let mut tracker = TaintTracker::new("");

    tracker.mark_tainted("amount", TaintSourceType::FunctionArg("amount".to_string()));
    assert!(tracker.is_tainted("amount"));

    tracker.propagate("amount", "value");
    assert!(tracker.is_tainted("value"));

    tracker.mark_sanitized("amount");
    assert!(!tracker.is_tainted("amount"));
}

#[test]
fn params_are_tainted_before_any_statement() {
    let mut tracker = TaintTracker::new("");
    tracker.analyze_function(&amount_fn(vec![]));
    assert!(tracker.is_tainted("amount"));
    assert!(tracker.is_tainted("ctx"));
    assert!(tracker.flows.is_empty());
}

#[test]
fn transfer_alone_flags_amount() {
    let mut tracker = TaintTracker::new("transfer(amount)?;");
    tracker.analyze_function(&amount_fn(vec![bare_transfer("amount")]));
    assert_eq!(tracker.flows.len(), 1);
    assert_eq!(tracker.flows[0].variable, "amount");
    assert_eq!(tracker.flows[0].sink, TaintSinkType::Transfer);
    assert_eq!(
        tracker.flows[0].source,
        TaintSourceType::FunctionArg("amount".to_string())
    );
}

#[test]
fn require_before_transfer_defuses_amount() {
    let mut tracker = TaintTracker::new("");
    tracker.analyze_function(&amount_fn(vec![
        require_macro("amount > 0"),
        bare_transfer("amount"),
    ]));
    assert_eq!(tracker.flows.len(), 0);
}

#[test]
fn branch_local_sanitization_does_not_leak() {
    let body = vec![
        Stmt::Expr(Expr::If(
            Box::new(path("cond")),
            vec![require_macro("amount > 0")],
            None,
        )),
        bare_transfer("amount"),
    ];
    let mut tracker = TaintTracker::new("");
    tracker.analyze_function(&amount_fn(body));
    assert_eq!(tracker.flows.len(), 1);
    assert_eq!(tracker.flows[0].variable, "amount");
}

#[test]
fn branch_condition_defuses_then_branch_only() {
    // A transfer guarded by the condition that mentions the amount is
    // not flagged inside the branch, but the same transfer after the
    // branch is.
    let body = vec![
        Stmt::Expr(Expr::If(
            Box::new(path("amount")),
            vec![bare_transfer("amount")],
            None,
        )),
        bare_transfer("amount"),
    ];
    let mut tracker = TaintTracker::new("");
    tracker.analyze_function(&amount_fn(body));
    assert_eq!(tracker.flows.len(), 1);
}

#[test]
fn checked_receiver_is_not_flagged_at_its_sink() {
    // transfer(amount.checked_add(1)): the receiver of the checked call
    // is treated as sanitized at that sink call site.
    let body = vec![Stmt::Expr(Expr::Call(
        "transfer".to_string(),
        vec![Expr::MethodCall(
            Box::new(path("amount")),
            "checked_add".to_string(),
            vec![Expr::Lit],
        )],
    ))];
    let mut tracker = TaintTracker::new("");
    tracker.analyze_function(&amount_fn(body));
    assert_eq!(tracker.flows.len(), 0);
}

#[test]
fn checked_receiver_defuses_only_itself_at_a_sink() {
    // transfer(amount, fee.checked_mul(2)): the checked receiver fee is
    // defused at the sink, the plain tainted amount is still flagged.
    let body = vec![Stmt::Expr(Expr::Call(
        "transfer".to_string(),
        vec![
            path("amount"),
            Expr::MethodCall(Box::new(path("fee")), "checked_mul".to_string(), vec![Expr::Lit]),
        ],
    ))];
    let f = FnDecl {
        name: "withdraw".to_string(),
        params: vec![param("amount", "u64"), param("fee", "u64")],
        body,
    };
    let mut tracker = TaintTracker::new("");
    tracker.analyze_function(&f);
    assert_eq!(tracker.flows.len(), 1);
    assert_eq!(tracker.flows[0].variable, "amount");
}

#[test]
fn checked_call_does_not_defuse_later_sinks() {
    // The checked-receiver sanitization is confined to its own call
    // site: a later bare transfer of the same name is still flagged.
    let body = vec![
        Stmt::Let(
            "total".to_string(),
            Some(Expr::MethodCall(
                Box::new(path("amount")),
                "checked_add".to_string(),
                vec![Expr::Lit],
            )),
        ),
        bare_transfer("amount"),
    ];
    let mut tracker = TaintTracker::new("");
    tracker.analyze_function(&amount_fn(body));
    assert_eq!(tracker.flows.len(), 1);
    assert!(tracker.is_tainted("amount"));
}

#[test]
fn sink_recognition_folds_case() {
    let body = vec![Stmt::Expr(Expr::Call(
        "Token::Transfer".to_string(),
        vec![path("amount")],
    ))];
    let mut tracker = TaintTracker::new("");
    tracker.analyze_function(&amount_fn(body));
    assert_eq!(tracker.flows.len(), 1);

    let checked = vec![Stmt::Expr(Expr::Call(
        "token::Transfer_Checked".to_string(),
        vec![path("amount")],
    ))];
    let mut tracker2 = TaintTracker::new("");
    tracker2.analyze_function(&amount_fn(checked));
    assert_eq!(tracker2.flows.len(), 0);
}

#[test]
fn assignment_propagates_taint() {
    let body = vec![
        Stmt::Let("value".to_string(), Some(path("amount"))),
        bare_transfer("value"),
    ];
    let mut tracker = TaintTracker::new("");
    tracker.analyze_function(&amount_fn(body));
    assert_eq!(tracker.flows.len(), 1);
    assert_eq!(tracker.flows[0].variable, "value");
}

#[test]
fn literal_assignment_is_clean() {
    let body = vec![
        Stmt::Let("fee".to_string(), Some(Expr::Lit)),
        bare_transfer("fee"),
    ];
    let mut tracker = TaintTracker::new("");
    tracker.analyze_function(&amount_fn(body));
    assert_eq!(tracker.flows.len(), 0);
}

#[test]
fn invoke_sink_is_reported() {
    let body = vec![Stmt::Expr(Expr::Call(
        "invoke_signed".to_string(),
        vec![path("payload")],
    ))];
    let f = FnDecl {
        name: "run".to_string(),
        params: vec![param("payload", "Vec<u8>")],
        body,
    };
    let mut tracker = TaintTracker::new("");
    tracker.analyze_function(&f);
    assert_eq!(tracker.flows.len(), 1);
    assert_eq!(tracker.flows[0].sink, TaintSinkType::Invoke);
}

#[test]
fn test_scope_violation() {
    let mut tracker = ScopeTracker::new();
    let f = amount_fn(vec![
        Stmt::Expr(Expr::If(
            Box::new(path("condition")),
            vec![require_macro("amount > 0")],
            None,
        )),
        transfer_call("amount"),
    ]);
    tracker.analyze(&f);
    let violations = tracker.find_scope_violations();

    assert_eq!(violations.len(), 1);
    assert_eq!(violations[0].variable, "amount");
    assert!(violations[0].explanation.contains("inside a block"));
}

#[test]
fn scope_violation_reports_both_depths() {
    let mut tracker = ScopeTracker::new();
    let f = amount_fn(vec![
        Stmt::Expr(Expr::If(
            Box::new(path("condition")),
            vec![require_macro("amount > 0")],
            None,
        )),
        transfer_call("amount"),
    ]);
    tracker.analyze(&f);
    let violations = tracker.find_scope_violations();
    assert_eq!(violations.len(), 1);
    assert_eq!(violations[0].validation_depth, 1);
    assert_eq!(violations[0].usage_depth, 0);
    assert!(violations[0].explanation.contains("depth 1"));
    assert!(violations[0].explanation.contains("depth 0"));
}

#[test]
fn test_safe_scope() {
    let mut tracker = ScopeTracker::new();
    let f = amount_fn(vec![
        require_macro("amount > 0"),
        Stmt::Expr(Expr::If(
            Box::new(path("condition")),
            vec![transfer_call("amount")],
            None,
        )),
    ]);
    tracker.analyze(&f);
    let violations = tracker.find_scope_violations();

    assert!(violations.is_empty());
}

#[test]
fn shared_scope_guard_is_not_flagged() {
    // Validation and use at the same depth: the common correct pattern.
    let mut tracker = ScopeTracker::new();
    let f = amount_fn(vec![require_macro("amount > 0"), transfer_call("amount")]);
    tracker.analyze(&f);
    assert!(tracker.find_scope_violations().is_empty());
}

#[test]
fn unvalidated_name_is_not_flagged_by_scope_tracker() {
    let mut tracker = ScopeTracker::new();
    let f = amount_fn(vec![transfer_call("amount")]);
    tracker.analyze(&f);
    assert!(tracker.find_scope_violations().is_empty());
}

#[test]
fn field_accessed_accounts_count_as_usages() {
    // token::transfer(ctx.accounts.vault, amount): the field name vault
    // is a scope usage even though the root of the access is the
    // bookkeeping receiver.
    let vault_arg = Expr::Field(
        Box::new(Expr::Field(Box::new(path("ctx")), "accounts".to_string())),
        "vault".to_string(),
    );
    let f = amount_fn(vec![
        Stmt::Expr(Expr::If(
            Box::new(path("condition")),
            vec![require_macro("vault > 0")],
            None,
        )),
        Stmt::Expr(Expr::Call(
            "token::transfer".to_string(),
            vec![vault_arg, path("amount")],
        )),
    ]);
    let mut tracker = ScopeTracker::new();
    tracker.analyze(&f);
    let violations = tracker.find_scope_violations();
    assert_eq!(violations.len(), 1);
    assert_eq!(violations[0].variable, "vault");
}

#[test]
fn mutable_borrow_counts_as_sensitive_use() {
    let mut tracker = ScopeTracker::new();
    let f = amount_fn(vec![
        Stmt::Expr(Expr::If(
            Box::new(path("check")),
            vec![require_macro("vault > 0")],
            None,
        )),
        Stmt::Expr(Expr::MethodCall(
            Box::new(path("vault")),
            "borrow_mut".to_string(),
            vec![],
        )),
    ]);
    tracker.analyze(&f);
    let violations = tracker.find_scope_violations();
    assert_eq!(violations.len(), 1);
    assert_eq!(violations[0].variable, "vault");
}
