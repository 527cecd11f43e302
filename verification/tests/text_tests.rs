use anchor_sentinel::text::{contains_lower_sub, contains_sub, ends_with_sub, find_char,
    ident_tokens, join_with, rfind_char, split_lines, starts_with_sub, str_eq, to_lower, trim_str,
    u64_to_string};

#[test]
fn test_str_eq() {
    assert!(str_eq("amount", "amount"));
    assert!(!str_eq("amount", "amounts"));
    assert!(!str_eq("amount", "amouNt"));
    assert!(str_eq("", ""));
}

#[test]
fn test_contains_sub() {
    assert!(contains_sub("token::transfer(ctx, amount)", "transfer"));
    assert!(!contains_sub("token::transfer_checked(ctx)", "invoke"));
    assert!(contains_sub("abc", ""));
    assert!(!contains_sub("ab", "abc"));
}

#[test]
fn test_contains_lower_sub() {
    assert!(contains_lower_sub("AuthorityType::AccountOwner", "authoritytype::accountowner"));
    assert!(!contains_lower_sub("Authority", "owner"));
}

#[test]
fn test_starts_and_ends() {
    assert!(starts_with_sub("pub use crate::oracle;", "pub use "));
    assert!(!starts_with_sub("use x;", "pub use "));
    assert!(ends_with_sub("pub owner: Pubkey,", ","));
    assert!(!ends_with_sub("let x = 1;", ","));
}

#[test]
fn test_trim_str() {
    assert_eq!(trim_str("  init  "), "init");
    assert_eq!(trim_str("\t\n x \r"), "x");
    assert_eq!(trim_str("   "), "");
    assert_eq!(trim_str("y"), "y");
}

#[test]
fn test_split_lines() {
    let lines = split_lines("a\nb\nc");
    assert_eq!(lines, vec!["a".to_string(), "b".to_string(), "c".to_string()]);
    let trailing = split_lines("a\n");
    assert_eq!(trailing, vec!["a".to_string()]);
    let empty = split_lines("");
    assert!(empty.is_empty());
    let blanks = split_lines("a\n\nb");
    assert_eq!(blanks, vec!["a".to_string(), "".to_string(), "b".to_string()]);
}

#[test]
fn test_ident_tokens() {
    let toks = ident_tokens("amount > 0, ErrorCode::InvalidAmount");
    assert_eq!(
        toks,
        vec![
            "amount".to_string(),
            "0".to_string(),
            "ErrorCode".to_string(),
            "InvalidAmount".to_string()
        ]
    );
    assert!(ident_tokens("+-*/").is_empty());
}

#[test]
fn test_find_and_rfind_char() {
    assert_eq!(find_char("a<b<c>", '<'), Some(1));
    assert_eq!(rfind_char("a<b<c>", '<'), Some(3));
    assert_eq!(find_char("abc", '<'), None);
    assert_eq!(rfind_char("abc", '>'), None);
}

#[test]
fn test_u64_to_string() {
    assert_eq!(u64_to_string(0), "0");
    assert_eq!(u64_to_string(7), "7");
    assert_eq!(u64_to_string(42), "42");
    assert_eq!(u64_to_string(90001), "90001");
}

#[test]
fn test_to_lower() {
    assert_eq!(to_lower("AbC!_9"), "abc!_9");
    assert_eq!(to_lower("already lower"), "already lower");
}

#[test]
fn test_join_with() {
    let parts = vec!["a".to_string(), "b".to_string(), "c".to_string()];
    assert_eq!(join_with(&parts, ", "), "a, b, c");
    let one = vec!["solo".to_string()];
    assert_eq!(join_with(&one, ", "), "solo");
    let none: Vec<String> = Vec::new();
    assert_eq!(join_with(&none, ", "), "");
}
