use anchor_sentinel::anchor::{AccountField, AccountStruct, AccountType, Constraint,
    ConstraintType};
use anchor_sentinel::detectors::utils::{has_account_constraint, is_error_context, is_pda_account,
    is_unchecked_account_type, should_skip_line};
use anchor_sentinel::detectors::{ArbitraryCpiDetector, AuthorityDelegationDetector,
    CpiReentrancyDetector, ErrorSuppressionDetector, IntegerOverflowDetector,
    LamportsRoundingDetector, LoopOverflowDetector, MintBurnDetector, MissingOwnerDetector,
    MissingSignerDetector, OracleRisksDetector, PdaBumpDetector, PdaCollisionDetector,
    PrecisionLossDetector, RentBypassDetector, ReplayAttackDetector, UncheckedInitDetector,
    UncheckedTransferDetector, UnsafeCpiDetector};

fn field(name: &str, ty: AccountType, constraints: Vec<Constraint>) -> AccountField {
    AccountField {
        name: name.to_string(),
        ty,
        constraints,
        is_mutable: false,
        is_signer: false,
        is_init: false,
        line: 0,
    }
}

fn constraint(ct: ConstraintType, raw: &str) -> Constraint {
    Constraint { constraint_type: ct, raw: raw.to_string(), line: 0 }
}

#[test]
fn test_skip_comments() {
    assert!(should_skip_line("// This is a comment"));
    assert!(should_skip_line("/// Doc comment"));
    assert!(should_skip_line("/* Block comment"));
    assert!(should_skip_line("* Continued block"));
}

#[test]
fn test_skip_imports() {
    assert!(should_skip_line("use pyth_sdk::Price;"));
    assert!(should_skip_line("pub use crate::oracle;"));
    assert!(should_skip_line("mod oracle;"));
}

#[test]
fn test_skip_struct_fields() {
    assert!(should_skip_line("    pub oracle: Pubkey,"));
    assert!(should_skip_line("    price_feed: Account<'info, PriceFeed>,"));
}

#[test]
fn test_analyze_actual_code() {
    assert!(!should_skip_line("let price = oracle.get_price()?;"));
    assert!(!should_skip_line("invoke(&ix, accounts)?;"));
    assert!(!should_skip_line("token::transfer(ctx, amount)?;"));
}

#[test]
fn test_is_pda_account() {
    let source = "\n#[derive(Accounts)]\npub struct MyAccounts<'info> {\n    #[account(seeds = [b\"vault\"], bump)]\n    pub vault: Account<'info, Vault>,\n}\n";
    assert!(is_pda_account(source, 4));
}

#[test]
fn test_is_safe_program_id() {
    let detector = ArbitraryCpiDetector::new();

    assert!(detector.is_safe_program_id("spl_token::ID"));
    assert!(detector.is_safe_program_id("TOKEN_PROGRAM_ID"));
    assert!(!detector.is_safe_program_id("ctx.accounts.program"));
}

#[test]
fn test_is_actual_oracle_call() {
    let detector = OracleRisksDetector::new();

    assert!(detector.is_actual_oracle_call("let price = oracle.get_price()?;"));
    assert!(detector.is_actual_oracle_call("let p = price_feed.get_current_price()?;"));
    assert!(detector.is_actual_oracle_call("aggregator.get_result()?"));

    assert!(!detector.is_actual_oracle_call("use pyth_sdk::Price;"));
    assert!(!detector.is_actual_oracle_call("pub oracle: Pubkey,"));
}

#[test]
fn test_has_staleness_check() {
    let detector = OracleRisksDetector::new();

    let validated = "\nlet price = oracle.get_price()?;\nrequire!(price > 0, ErrorCode::InvalidPrice);\n";
    assert!(detector.has_staleness_check(validated, 0));

    let unvalidated = "let price = oracle.get_price()?;";
    assert!(!detector.has_staleness_check(unvalidated, 0));
}

#[test]
fn test_precision_loss_pattern() {
    let detector = PrecisionLossDetector::new();

    assert_eq!(detector.id(), "V026");
}

#[test]
fn precision_loss_scan_flags_div_before_mul() {
    let detector = PrecisionLossDetector::new();
    let flagged = detector.scan("let fee = amount / 10000 * fee_bps;");
    assert_eq!(flagged, vec![0]);
    let safe = detector.scan("let fee = amount.checked_div(10000).unwrap() * x;\n// a / b * c");
    assert!(safe.is_empty());
}

#[test]
fn error_suppression_scan_flags_unmapped_invoke() {
    let detector = ErrorSuppressionDetector::new();
    let flagged = detector.scan("invoke(&ix, accounts)?;\nlet x = 1;");
    assert_eq!(flagged, vec![0]);
    let mapped = detector.scan("invoke(&ix, accounts).map_err(MyError::from)?;");
    assert!(mapped.is_empty());
}

#[test]
fn oracle_scan_flags_unvalidated_read() {
    let detector = OracleRisksDetector::new();
    let flagged = detector.scan("let price = oracle.get_price()?;");
    assert_eq!(flagged, vec![0]);
    let validated = "let price = oracle.get_price()?;\nrequire!(price > 0, Error::Bad);";
    assert!(detector.scan(validated).is_empty());
}

#[test]
fn extract_amount_reads_transfer_arguments() {
    let detector = UncheckedTransferDetector::new();
    assert_eq!(detector.extract_amount("transfer(ctx, amount_in)?;"), "amount_in");
    assert_eq!(detector.extract_amount("call(amount: requested)"), "requested");
    assert_eq!(detector.extract_amount("nothing here"), "amount");
}

#[test]
fn amount_validation_window_is_before_transfer() {
    let detector = UncheckedTransferDetector::new();
    let validated = "require!(amount > 0);\ntoken::transfer(ctx, amount)?;";
    assert!(detector.has_amount_validation(validated, 1));
    assert!(!detector.has_amount_validation("token::transfer(ctx, amount)?;", 0));
}

#[test]
fn reentrancy_guard_window_is_before_invocation() {
    let detector = CpiReentrancyDetector::new();
    let guarded = "vault.is_locked = true;\ninvoke(&ix, accounts)?;";
    assert!(detector.has_reentrancy_guard(guarded, 1));
    assert!(!detector.has_reentrancy_guard("invoke(&ix, accounts)?;", 0));
}

#[test]
fn replay_protection_window_is_before_invocation() {
    let detector = ReplayAttackDetector::new();
    let protected = "require!(state.nonce == expected);\ninvoke_signed(&ix, accounts, seeds)?;";
    assert!(detector.has_replay_protection(protected, 1));
    assert!(!detector.has_replay_protection("invoke_signed(&ix, accounts, seeds)?;", 0));
}

#[test]
fn rounding_protection_window_is_around_line() {
    let detector = LamportsRoundingDetector::new();
    let protected = "let share = total.checked_div(parts).unwrap();\nvault.lamports = share;";
    assert!(detector.has_rounding_protection(protected, 1));
    assert!(!detector.has_rounding_protection("vault.lamports = share;", 0));
}

#[test]
fn checked_math_window_is_around_mint() {
    let detector = MintBurnDetector::new();
    let protected = "supply = supply.checked_add(amount).unwrap();\ntoken::mint_to(ctx, amount)?;";
    assert!(detector.has_checked_math(protected, 1));
    assert!(!detector.has_checked_math("token::mint_to(ctx, amount)?;", 0));
}

#[test]
fn rent_check_window_is_around_creation() {
    let detector = RentBypassDetector::new();
    let protected = "let min = rent.minimum_balance(space);\ncreate_account(ctx, min)?;";
    assert!(detector.has_rent_check(protected, 1));
    assert!(!detector.has_rent_check("create_account(ctx, lamports)?;", 0));
}

#[test]
fn bounds_check_window_is_before_loop() {
    let detector = LoopOverflowDetector::new();
    let bounded = "require!(items.len() < MAX_ITEMS);\nfor item in items.iter() {";
    assert!(detector.has_bounds_check(bounded, 1));
    assert!(!detector.has_bounds_check("for item in items.iter() {", 0));
}

#[test]
fn revocation_path_is_found_anywhere_in_source() {
    let detector = AuthorityDelegationDetector::new();
    assert!(detector.has_revocation_path("fn revoke_delegate(ctx: Context<Revoke>) {}", 0));
    assert!(!detector.has_revocation_path("fn delegate_all(ctx: Context<Delegate>) {}", 0));
}

#[test]
fn bump_verification_window_is_after_derivation() {
    let detector = PdaBumpDetector::new();
    let verified = "let (pda, bump) = derive(seeds);\nrequire!(bump == vault.bump);";
    assert!(detector.has_bump_verification(verified, 0));
    assert!(!detector.has_bump_verification("let (pda, bump) = derive(seeds);", 0));
}

#[test]
fn extract_seeds_reads_bracketed_slice() {
    let detector = PdaBumpDetector::new();
    let line = "let (pda, bump) = Pubkey::find_program_address(&[b\"vault\", user], pid);";
    assert_eq!(detector.extract_seeds(line), "&[b\"vault\", user]");
    assert_eq!(detector.extract_seeds("no seeds here"), "unknown seeds");
}

#[test]
fn seed_patterns_normalize_and_match() {
    let detector = PdaCollisionDetector;
    let a = vec!["b\"Vault\"".to_string(), "user.key()".to_string()];
    let b = vec!["\"vault\"".to_string(), "USER.KEY()".to_string()];
    assert!(detector.seeds_match(&a, &b));
    let c = vec!["b\"config\"".to_string(), "user.key()".to_string()];
    assert!(!detector.seeds_match(&a, &c));
    assert_eq!(detector.normalize_seed_pattern(&a), "vault, user.key()");
}

#[test]
fn collision_detector_reads_first_seeds_constraint() {
    let detector = PdaCollisionDetector;
    let f = field(
        "vault",
        AccountType::Account("Vault".to_string()),
        vec![
            constraint(ConstraintType::Mut, "mut"),
            constraint(
                ConstraintType::Seeds(vec!["b\"vault\"".to_string()]),
                "seeds = [b\"vault\"]",
            ),
        ],
    );
    assert_eq!(detector.extract_seeds(&f), Some(vec!["b\"vault\"".to_string()]));
    let bare = field("user", AccountType::Signer, vec![]);
    assert_eq!(detector.extract_seeds(&bare), None);
}

#[test]
fn missing_owner_classifies_types_and_constraints() {
    let detector = MissingOwnerDetector;
    let raw = field("vault", AccountType::AccountInfo, vec![]);
    assert!(detector.needs_owner_check(&raw));
    assert!(!detector.has_owner_check(&raw));

    let typed = field("vault", AccountType::Account("Vault".to_string()), vec![]);
    assert!(!detector.needs_owner_check(&typed));

    let constrained = field(
        "vault",
        AccountType::AccountInfo,
        vec![constraint(ConstraintType::Owner("token::ID".to_string()), "owner = token::ID")],
    );
    assert!(detector.has_owner_check(&constrained));

    let system = field("system_program", AccountType::AccountInfo, vec![]);
    assert!(detector.has_owner_check(&system));

    assert_eq!(detector.type_label(&AccountType::AccountInfo), "AccountInfo");
    assert!(detector.generate_code_context(&raw).contains("Missing owner validation"));
}

#[test]
fn missing_signer_spots_authority_names() {
    let detector = MissingSignerDetector;
    let authority = field("authority", AccountType::Account("State".to_string()), vec![]);
    assert!(detector.is_potential_authority(&authority));

    let mut raw = field("vault", AccountType::AccountInfo, vec![]);
    raw.is_mutable = true;
    assert!(detector.is_potential_authority(&raw));

    let data = field("data", AccountType::Account("State".to_string()), vec![]);
    assert!(!detector.is_potential_authority(&data));

    let snippet = detector.generate_code_context(&authority);
    assert!(snippet.contains("pub authority:"));
    assert!(snippet.contains("// No constraints"));
}

#[test]
fn unchecked_init_reads_constraints() {
    let detector = UncheckedInitDetector;
    let f = field(
        "vault",
        AccountType::Account("Vault".to_string()),
        vec![
            constraint(ConstraintType::InitIfNeeded, "init_if_needed"),
            constraint(ConstraintType::Payer("user".to_string()), "payer = user"),
            constraint(ConstraintType::Space("8 + 32".to_string()), "space = 8 + 32"),
        ],
    );
    assert!(detector.has_init_if_needed(&f));
    assert!(detector.has_payer_constraint(&f));
    assert!(detector.has_space_constraint(&f));
    assert_eq!(detector.get_space_expression(&f), Some("8 + 32".to_string()));
    assert!(detector.generate_init_if_needed_example(&f).contains("init_if_needed"));

    let bare = field("vault", AccountType::Account("Vault".to_string()), vec![]);
    assert!(!detector.has_init_if_needed(&bare));
    assert_eq!(detector.get_space_expression(&bare), None);
}

#[test]
fn integer_overflow_safe_operations() {
    let detector = IntegerOverflowDetector;
    assert!(detector.is_safe_operation("balance.checked_add(amount).ok_or(Error::Overflow)?"));
    assert!(detector.is_safe_operation("x.saturating_sub(y)"));
    assert!(!detector.is_safe_operation("balance += amount;"));
}

#[test]
fn program_validation_window_is_before_invoke() {
    let detector = ArbitraryCpiDetector::new();
    let validated = "require!(ctx.accounts.target.key() == EXPECTED_ID);\ninvoke(&ix, accounts)?;";
    assert!(detector.is_program_validated(validated, "target", 1));
    assert!(!detector.is_program_validated("invoke(&ix, accounts)?;", "target", 0));
}

#[test]
fn error_context_window_is_ten_lines() {
    let source = "#[error_code]\npub enum VaultError {\n    InvalidPrice,\n}";
    assert!(is_error_context(source, 2));
    assert!(!is_error_context("let x = oracle;", 0));
}

#[test]
fn account_constraint_and_unchecked_type_lines() {
    assert!(has_account_constraint("#[account(mut)]"));
    assert!(!has_account_constraint("pub vault: Account<'info, Vault>,"));
    assert!(is_unchecked_account_type("pub raw: AccountInfo<'info>,"));
    assert!(is_unchecked_account_type("/// CHECK: validated manually"));
    assert!(!is_unchecked_account_type("pub vault: Account<'info, Vault>,"));
}

#[test]
fn weak_seed_issues_are_reported_in_order() {
    let detector = PdaCollisionDetector;
    let weak = field(
        "config",
        AccountType::Account("Config".to_string()),
        vec![constraint(
            ConstraintType::Seeds(vec!["b\"config\"".to_string()]),
            "seeds = [b\"config\"]",
        )],
    );
    let seeds = vec!["b\"config\"".to_string()];
    let issues = detector.weak_seed_issues(&weak, &seeds);
    assert_eq!(issues.len(), 4);
    assert!(issues[0].contains("static seeds"));
    assert!(issues[1].contains("Single seed"));
    assert!(issues[2].contains("bump"));
    assert!(issues[3].contains("Generic seed"));

    let strong = field(
        "vault",
        AccountType::Account("Vault".to_string()),
        vec![
            constraint(
                ConstraintType::Seeds(vec![
                    "b\"vault\"".to_string(),
                    "user.key()".to_string(),
                ]),
                "seeds = [b\"vault\", user.key()]",
            ),
            constraint(ConstraintType::Bump, "bump"),
        ],
    );
    let strong_seeds = vec!["b\"vault\"".to_string(), "user.key()".to_string()];
    assert!(detector.weak_seed_issues(&strong, &strong_seeds).is_empty());
}

#[test]
fn external_signer_check_finds_vouching_constraints() {
    let detector = MissingSignerDetector;
    let vault = field(
        "vault",
        AccountType::Account("Vault".to_string()),
        vec![constraint(
            ConstraintType::HasOne("authority".to_string()),
            "has_one = authority",
        )],
    );
    let structs = vec![AccountStruct {
        name: "Withdraw".to_string(),
        fields: vec![vault],
        start_line: 0,
        end_line: 0,
    }];
    assert!(detector.has_external_signer_check(&structs, "authority"));
    assert!(!detector.has_external_signer_check(&structs, "admin"));
}

#[test]
fn default_detectors_match_fresh_ones() {
    let d: anchor_sentinel::detectors::TaintedFlowDetector = Default::default();
    assert_eq!(d.id(), anchor_sentinel::detectors::TaintedFlowDetector::new().id());
    let s: anchor_sentinel::detectors::ScopeValidationDetector = Default::default();
    assert_eq!(s.id(), "V027");
    let o: anchor_sentinel::detectors::OracleRisksDetector = Default::default();
    assert_eq!(o.cwe(), Some("CWE-829"));
}

#[test]
fn detector_ids_are_unique() {
    let ids = vec![
        MissingSignerDetector.id(),
        MissingOwnerDetector.id(),
        IntegerOverflowDetector.id(),
        PdaCollisionDetector.id(),
        UncheckedInitDetector.id(),
        UnsafeCpiDetector::new().id(),
        anchor_sentinel::detectors::Token2022Detector::new().id(),
        PdaBumpDetector::new().id(),
        UncheckedTransferDetector::new().id(),
        AuthorityDelegationDetector::new().id(),
        MintBurnDetector::new().id(),
        anchor_sentinel::detectors::UnverifiedSeedsDetector::new().id(),
        CpiReentrancyDetector::new().id(),
        OracleRisksDetector::new().id(),
        ReplayAttackDetector::new().id(),
        RentBypassDetector::new().id(),
        anchor_sentinel::detectors::MissingCloseDetector::new().id(),
        ErrorSuppressionDetector::new().id(),
        LamportsRoundingDetector::new().id(),
        anchor_sentinel::detectors::UpgradeGapsDetector::new().id(),
        LoopOverflowDetector::new().id(),
        anchor_sentinel::detectors::ScopeValidationDetector::new().id(),
        anchor_sentinel::detectors::TaintedFlowDetector::new().id(),
        anchor_sentinel::detectors::AccountUsageDetector::new().id(),
        ArbitraryCpiDetector::new().id(),
        PrecisionLossDetector::new().id(),
    ];
    let mut sorted = ids.clone();
    sorted.sort();
    sorted.dedup();
    assert_eq!(sorted.len(), ids.len(), "Detector IDs must be unique");
}
