use anchor_sentinel::ast::{ConstExpr, ConstItem, FieldDecl, FnDecl, Item, Param, SourceFile,
    StructItem};
use anchor_sentinel::context::ProgramContext;

fn vault_struct() -> StructItem {
    StructItem {
        name: "Vault".to_string(),
        attrs: vec!["account".to_string()],
        fields: vec![
            FieldDecl { name: "owner".to_string(), ty: "Pubkey".to_string() },
            FieldDecl { name: "balance".to_string(), ty: "u64".to_string() },
        ],
    }
}

fn plain_struct(name: &str) -> StructItem {
    StructItem {
        name: name.to_string(),
        attrs: vec![],
        fields: vec![FieldDecl { name: "data".to_string(), ty: "u64".to_string() }],
    }
}

fn file_of(items: Vec<Item>) -> SourceFile {
    SourceFile { items }
}

#[test]
fn test_index_struct() {
    let mut ctx = ProgramContext::new();
    let source = file_of(vec![Item::Struct(vault_struct())]);

    ctx.index_file("test.rs", &source);

    assert!(ctx.accounts.iter().any(|s| s.name == "Vault"));
    let vault = ctx.resolve_struct("Vault").unwrap();
    assert!(vault.is_account);
    assert_eq!(
        ctx.get_account_field_type("Vault", "owner"),
        Some("Pubkey".to_string())
    );
}

#[test]
fn test_index_constant() {
    let mut ctx = ProgramContext::new();
    let source = file_of(vec![
        Item::Const(ConstItem {
            name: "MAX_USERS".to_string(),
            expr: ConstExpr::IntLit(1000),
            raw: "1000".to_string(),
        }),
        Item::Const(ConstItem {
            name: "FEE_BPS".to_string(),
            expr: ConstExpr::IntLit(30),
            raw: "30".to_string(),
        }),
    ]);

    ctx.index_file("test.rs", &source);

    assert_eq!(ctx.resolve_constant("MAX_USERS"), Some(1000));
    assert_eq!(ctx.resolve_constant("FEE_BPS"), Some(30));
}

#[test]
fn unresolved_constant_is_recorded_without_value() {
    let mut ctx = ProgramContext::new();
    let source = file_of(vec![Item::Const(ConstItem {
        name: "MAX".to_string(),
        expr: ConstExpr::Opaque,
        raw: "compute()".to_string(),
    })]);
    ctx.index_file("main.rs", &source);
    assert_eq!(ctx.resolve_constant("MAX"), None);
    assert!(ctx.constants.iter().any(|c| c.name == "MAX"));
}

#[test]
fn constant_folding_handles_wrappers() {
    let mut ctx = ProgramContext::new();
    let source = file_of(vec![
        Item::Const(ConstItem {
            name: "NEG".to_string(),
            expr: ConstExpr::Neg(Box::new(ConstExpr::IntLit(5))),
            raw: "-5".to_string(),
        }),
        Item::Const(ConstItem {
            name: "CAST".to_string(),
            expr: ConstExpr::Cast(Box::new(ConstExpr::Paren(Box::new(ConstExpr::IntLit(77))))),
            raw: "(77) as u64".to_string(),
        }),
    ]);
    ctx.index_file("c.rs", &source);
    assert_eq!(ctx.resolve_constant("NEG"), Some(-5));
    assert_eq!(ctx.resolve_constant("CAST"), Some(77));
}

#[test]
fn indexing_order_does_not_matter_for_unique_names() {
    let file_a = file_of(vec![Item::Struct(vault_struct())]);
    let file_b = file_of(vec![Item::Struct(plain_struct("Config"))]);

    let mut ab = ProgramContext::new();
    ab.index_file("a.rs", &file_a);
    ab.index_file("b.rs", &file_b);

    let mut ba = ProgramContext::new();
    ba.index_file("b.rs", &file_b);
    ba.index_file("a.rs", &file_a);

    let vault_ab = ab.resolve_struct("Vault").unwrap();
    let vault_ba = ba.resolve_struct("Vault").unwrap();
    assert_eq!(vault_ab.name, vault_ba.name);
    assert_eq!(vault_ab.file, vault_ba.file);
    assert_eq!(vault_ab.is_account, vault_ba.is_account);
    assert_eq!(vault_ab.fields, vault_ba.fields);

    let config_ab = ab.resolve_struct("Config").unwrap();
    let config_ba = ba.resolve_struct("Config").unwrap();
    assert_eq!(config_ab.file, config_ba.file);
}

#[test]
fn colliding_names_resolve_to_last_indexed_file() {
    let file_a = file_of(vec![Item::Struct(plain_struct("State"))]);
    let file_b = file_of(vec![Item::Struct(plain_struct("State"))]);
    let mut ctx = ProgramContext::new();
    ctx.index_file("a.rs", &file_a);
    ctx.index_file("b.rs", &file_b);
    assert_eq!(ctx.resolve_struct("State").unwrap().file, "b.rs");
}

#[test]
fn account_struct_is_in_both_maps() {
    let mut ctx = ProgramContext::new();
    ctx.index_file(
        "p.rs",
        &file_of(vec![Item::Struct(vault_struct()), Item::Struct(plain_struct("Helper"))]),
    );

    let vault = ctx.resolve_struct("Vault").unwrap();
    assert!(vault.is_account);
    assert!(ctx.accounts.iter().any(|s| s.name == "Vault"));

    let helper = ctx.resolve_struct("Helper").unwrap();
    assert!(!helper.is_account);
    assert!(!ctx.accounts.iter().any(|s| s.name == "Helper"));
}

#[test]
fn accounts_context_flag_follows_derive_attr() {
    let item = StructItem {
        name: "Transfer".to_string(),
        attrs: vec!["derive (Accounts)".to_string()],
        fields: vec![],
    };
    let mut ctx = ProgramContext::new();
    ctx.index_file("ix.rs", &file_of(vec![Item::Struct(item)]));
    let info = ctx.resolve_struct("Transfer").unwrap();
    assert!(info.is_accounts_context);
}

#[test]
fn nested_module_structs_are_indexed_one_level_deep() {
    let inner = Item::Struct(plain_struct("Inner"));
    let source = file_of(vec![Item::Mod(vec![inner])]);
    let mut ctx = ProgramContext::new();
    ctx.index_file("m.rs", &source);
    assert!(ctx.resolve_struct("Inner").is_some());
}

#[test]
fn context_parameter_makes_an_instruction() {
    let f = FnDecl {
        name: "initialize".to_string(),
        params: vec![
            Param { name: "ctx".to_string(), ty: "Context<Initialize>".to_string() },
            Param { name: "amount".to_string(), ty: "u64".to_string() },
        ],
        body: vec![],
    };
    let plain = FnDecl {
        name: "helper".to_string(),
        params: vec![Param { name: "x".to_string(), ty: "u64".to_string() }],
        body: vec![],
    };
    let mut ctx = ProgramContext::new();
    ctx.index_file("ix.rs", &file_of(vec![Item::Fn(f), Item::Fn(plain)]));
    let instructions = ctx.get_instructions();
    assert_eq!(instructions.len(), 1);
    assert_eq!(instructions[0].name, "initialize");
    assert_eq!(instructions[0].context_type, Some("Initialize".to_string()));
    assert_eq!(instructions[0].args.len(), 2);
}
