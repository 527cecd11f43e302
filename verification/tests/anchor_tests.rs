use anchor_sentinel::anchor::{extract_inner, parse_constraints_text, parse_seeds,
    parse_single_constraint, split_constraints, ConstraintType};
use anchor_sentinel::report::Severity;

#[test]
fn test_split_constraints() {
    let input = "init, payer = user, space = 8 + 32, seeds = [b\"seed\", user.key().as_ref()]";
    let result = split_constraints(input);

    assert_eq!(result.len(), 4);
    assert_eq!(result[0], "init");
    assert!(result[3].contains("seeds"));
}

#[test]
fn split_constraints_ignores_commas_in_brackets() {
    let result = split_constraints("seeds = [a, b, c], bump");
    assert_eq!(result.len(), 2);
    assert_eq!(result[0], "seeds = [a, b, c]");
    assert_eq!(result[1], "bump");
}

#[test]
fn split_constraints_drops_empty_pieces() {
    let result = split_constraints(" , init,, mut , ");
    assert_eq!(result, vec!["init".to_string(), "mut".to_string()]);
}

#[test]
fn parse_single_constraint_keywords() {
    let init = parse_single_constraint("init").unwrap();
    assert!(matches!(init.constraint_type, ConstraintType::Init));
    assert_eq!(init.raw, "init");

    let reinit = parse_single_constraint(" init_if_needed ").unwrap();
    assert!(matches!(reinit.constraint_type, ConstraintType::InitIfNeeded));
    assert_eq!(reinit.raw, "init_if_needed");

    let mutc = parse_single_constraint("mut").unwrap();
    assert!(matches!(mutc.constraint_type, ConstraintType::Mut));

    let bump = parse_single_constraint("bump = vault.bump").unwrap();
    assert!(matches!(bump.constraint_type, ConstraintType::Bump));
}

#[test]
fn parse_single_constraint_values() {
    let payer = parse_single_constraint("payer = user").unwrap();
    match payer.constraint_type {
        ConstraintType::Payer(v) => assert_eq!(v, "user"),
        _ => panic!("expected a payer constraint"),
    }

    let has_one = parse_single_constraint("has_one = authority").unwrap();
    match has_one.constraint_type {
        ConstraintType::HasOne(v) => assert_eq!(v, "authority"),
        _ => panic!("expected a has_one constraint"),
    }

    let seeds = parse_single_constraint("seeds = [b\"vault\", user.key()]").unwrap();
    match seeds.constraint_type {
        ConstraintType::Seeds(v) => {
            assert_eq!(v, vec!["b\"vault\"".to_string(), "user.key()".to_string()]);
        },
        _ => panic!("expected a seeds constraint"),
    }

    let unknown = parse_single_constraint("frobnicate = 3").unwrap();
    match unknown.constraint_type {
        ConstraintType::Unknown(v) => assert_eq!(v, "frobnicate = 3"),
        _ => panic!("expected an unknown constraint"),
    }
}

#[test]
fn extract_inner_strips_prefix_and_equals() {
    assert_eq!(extract_inner("has_one = authority", "has_one"), "authority");
    assert_eq!(extract_inner("space =8 + 32", "space"), "8 + 32");
    assert_eq!(extract_inner("unrelated", "payer"), "");
}

#[test]
fn parse_seeds_splits_and_trims() {
    assert_eq!(
        parse_seeds("[b\"seed\", user.key().as_ref()]"),
        vec!["b\"seed\"".to_string(), "user.key().as_ref()".to_string()]
    );
    assert_eq!(parse_seeds("[ a ,, b ]"), vec!["a".to_string(), "b".to_string()]);
    assert!(parse_seeds("[]").is_empty());
}

#[test]
fn parse_constraints_text_keeps_raw_pieces() {
    let parsed = parse_constraints_text("init,  payer = user , seeds = [a, b]");
    assert_eq!(parsed.len(), 3);
    assert_eq!(parsed[0].raw, "init");
    assert_eq!(parsed[1].raw, "payer = user");
    assert_eq!(parsed[2].raw, "seeds = [a, b]");
    assert!(matches!(parsed[0].constraint_type, ConstraintType::Init));
}

#[test]
fn test_severity_ordering() {
    assert!(Severity::Critical > Severity::High);
    assert!(Severity::High > Severity::Medium);
    assert!(Severity::Medium > Severity::Low);
    assert!(Severity::Low > Severity::Info);
}

#[test]
fn test_severity_from_str() {
    assert_eq!(Severity::from_str("critical"), Severity::Critical);
    assert_eq!(Severity::from_str("HIGH"), Severity::High);
    assert_eq!(Severity::from_str("unknown"), Severity::Info);
}

#[test]
fn severity_rank_and_label() {
    assert_eq!(Severity::Critical.rank(), 4);
    assert_eq!(Severity::Info.rank(), 0);
    assert_eq!(Severity::High.label(), "HIGH");
    assert!(Severity::Medium.rank() > Severity::Low.rank());
}
