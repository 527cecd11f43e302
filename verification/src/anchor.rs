//! The typed records a parser front end produces for account-oriented
//! programs: account structs with their constraints, instruction
//! handlers, state accounts and error codes — and the verified parsing
//! of constraint text into those records.

use vstd::prelude::*;

use crate::text::{first_index_char, starts_with_seq, starts_with_sub, str_eq, trim_spec,
    trim_str};

verus! {

/// Account type classification: the level of automatic validation the
/// framework provides for a field.
pub enum AccountType {
    /// Typed account with automatic owner and discriminator validation.
    Account(String),
    /// Raw account info without automatic validation.
    AccountInfo,
    /// Account that must sign the transaction.
    Signer,
    /// Program account reference.
    Program(String),
    /// System program reference.
    SystemProgram,
    /// Explicitly unchecked account; manual validation is required.
    UncheckedAccount,
    /// System-owned account.
    SystemAccount,
    /// Legacy program account type.
    ProgramAccount(String),
    /// Unknown or unrecognized account type.
    Unknown(String),
}

/// Types of constraints that can be applied to account fields.
pub enum ConstraintType {
    /// Initialize a new account.
    Init,
    /// Initialize only if the account does not exist yet.
    InitIfNeeded,
    /// Mark the account as mutable.
    Mut,
    /// Require the account to be a signer.
    Signer,
    /// Validate a relationship with another account field.
    HasOne(String),
    /// Seeds for address derivation.
    Seeds(Vec<String>),
    /// The derivation bump seed.
    Bump,
    /// The account that pays for new account creation.
    Payer(String),
    /// Space allocation for new accounts.
    Space(String),
    /// Required program owner.
    Owner(String),
    /// A custom constraint expression.
    Constraint(String),
    /// A required account address.
    Address(String),
    /// The account to receive lamports on close.
    Close(String),
    /// Reallocation parameters.
    Realloc {
        /// The new size expression.
        size: String,
        /// The account paying for the growth.
        payer: String,
        /// Whether the grown region is zeroed.
        zero: bool,
    },
    /// An unrecognized constraint.
    Unknown(String),
}

/// Ghost mirror of [`ConstraintType`].
pub ghost enum ConstraintTypeModel {
    Init,
    InitIfNeeded,
    Mut,
    Signer,
    HasOne(Seq<char>),
    Seeds(Seq<Seq<char>>),
    Bump,
    Payer(Seq<char>),
    Space(Seq<char>),
    Owner(Seq<char>),
    Constraint(Seq<char>),
    Address(Seq<char>),
    Close(Seq<char>),
    Realloc(Seq<char>, Seq<char>, bool),
    Unknown(Seq<char>),
}

impl View for ConstraintType {
    type V = ConstraintTypeModel;

    open spec fn view(&self) -> ConstraintTypeModel {
        match self {
            ConstraintType::Init => ConstraintTypeModel::Init,
            ConstraintType::InitIfNeeded => ConstraintTypeModel::InitIfNeeded,
            ConstraintType::Mut => ConstraintTypeModel::Mut,
            ConstraintType::Signer => ConstraintTypeModel::Signer,
            ConstraintType::HasOne(s) => ConstraintTypeModel::HasOne(s@),
            ConstraintType::Seeds(s) => ConstraintTypeModel::Seeds(
                s@.map_values(|x: String| x@),
            ),
            ConstraintType::Bump => ConstraintTypeModel::Bump,
            ConstraintType::Payer(s) => ConstraintTypeModel::Payer(s@),
            ConstraintType::Space(s) => ConstraintTypeModel::Space(s@),
            ConstraintType::Owner(s) => ConstraintTypeModel::Owner(s@),
            ConstraintType::Constraint(s) => ConstraintTypeModel::Constraint(s@),
            ConstraintType::Address(s) => ConstraintTypeModel::Address(s@),
            ConstraintType::Close(s) => ConstraintTypeModel::Close(s@),
            ConstraintType::Realloc { size, payer, zero } => ConstraintTypeModel::Realloc(
                size@,
                payer@,
                *zero,
            ),
            ConstraintType::Unknown(s) => ConstraintTypeModel::Unknown(s@),
        }
    }
}

/// One constraint applied to an account field.
pub struct Constraint {
    /// The parsed constraint.
    pub constraint_type: ConstraintType,
    /// The raw constraint text as written in source.
    pub raw: String,
    /// Line number, when known.
    pub line: usize,
}

/// A field of an account struct: one account the instruction requires.
pub struct AccountField {
    /// Field name.
    pub name: String,
    /// The field's account type.
    pub ty: AccountType,
    /// The constraints applied to the field.
    pub constraints: Vec<Constraint>,
    /// Whether the account is marked mutable.
    pub is_mutable: bool,
    /// Whether the account must sign.
    pub is_signer: bool,
    /// Whether the account is being initialized.
    pub is_init: bool,
    /// Line number, when known.
    pub line: usize,
}

/// An account struct: the accounts one instruction requires.
pub struct AccountStruct {
    /// Struct name.
    pub name: String,
    /// The account fields in order.
    pub fields: Vec<AccountField>,
    /// First line of the definition, when known.
    pub start_line: usize,
    /// Last line of the definition, when known.
    pub end_line: usize,
}

/// An argument of an instruction handler.
pub struct InstructionArg {
    /// Argument name.
    pub name: String,
    /// Argument type, rendered as text.
    pub ty: String,
}

/// An arithmetic operation found in an instruction body.
pub struct ArithmeticOp {
    /// The operation: add, sub, mul or div.
    pub operation: String,
    /// Whether checked arithmetic is used.
    pub is_checked: bool,
    /// Line number, when known.
    pub line: usize,
    /// The full expression, rendered as text.
    pub expression: String,
}

/// A cross-program invocation found in an instruction body.
pub struct CpiCall {
    /// The target program identifier, rendered as text.
    pub program: String,
    /// Whether the program identifier is hardcoded.
    pub is_program_hardcoded: bool,
    /// Line number, when known.
    pub line: usize,
}

/// An instruction handler: an entry point binding a set of accounts.
pub struct InstructionHandler {
    /// Function name.
    pub name: String,
    /// The bound accounts type.
    pub accounts_type: String,
    /// The handler's arguments, the context excluded.
    pub args: Vec<InstructionArg>,
    /// First line of the definition, when known.
    pub start_line: usize,
    /// Last line of the definition, when known.
    pub end_line: usize,
    /// The arithmetic operations found in the body.
    pub arithmetic_ops: Vec<ArithmeticOp>,
    /// The cross-program invocations found in the body.
    pub cpi_calls: Vec<CpiCall>,
}

/// A program state account definition.
pub struct StateAccount {
    /// Account struct name.
    pub name: String,
    /// Fields as (name, type) pairs.
    pub fields: Vec<(String, String)>,
    /// Whether the account carries a discriminator.
    pub has_discriminator: bool,
    /// Line number, when known.
    pub line: usize,
}

/// One error variant of an error-code enum.
pub struct ErrorCode {
    /// Variant name.
    pub name: String,
    /// Numeric code, when specified.
    pub code: Option<u32>,
    /// Error message, when specified.
    pub message: Option<String>,
}

/// The state of the top-level constraint splitter: the pieces emitted
/// so far, the segment being read, and the bracket depth.
pub ghost struct SplitState {
    pub parts: Seq<Seq<char>>,
    pub current: Seq<char>,
    pub depth: int,
}

/// One splitter step: brackets adjust the depth, a comma at depth zero
/// ends the segment, everything else extends it.
pub open spec fn split_step(st: SplitState, c: char) -> SplitState {
    if c == '(' || c == '[' {
        SplitState { current: st.current.push(c), depth: st.depth + 1, ..st }
    } else if c == ')' || c == ']' {
        SplitState { current: st.current.push(c), depth: st.depth - 1, ..st }
    } else if c == ',' && st.depth == 0 {
        let t = trim_spec(st.current);
        SplitState {
            parts: if t.len() > 0 {
                st.parts.push(t)
            } else {
                st.parts
            },
            current: Seq::empty(),
            depth: st.depth,
        }
    } else {
        SplitState { current: st.current.push(c), ..st }
    }
}

/// Folds the splitter over `s`, front to back.
pub open spec fn split_fold(st: SplitState, s: Seq<char>) -> SplitState
    decreases s.len(),
{
    if s.len() == 0 {
        st
    } else {
        split_step(split_fold(st, s.drop_last()), s.last())
    }
}

/// The constraint pieces of `s`: top-level comma-separated segments,
/// trimmed, with empty segments dropped. Commas inside parentheses or
/// brackets do not split.
pub open spec fn split_constraints_spec(s: Seq<char>) -> Seq<Seq<char>> {
    let st = split_fold(SplitState { parts: Seq::empty(), current: Seq::empty(), depth: 0 }, s);
    let t = trim_spec(st.current);
    if t.len() > 0 {
        st.parts.push(t)
    } else {
        st.parts
    }
}

/// Splits a constraint list into individual constraints, honouring
/// nested parentheses and brackets.
pub fn split_constraints(s: &str) -> (r: Vec<String>)
    ensures
        r@.map_values(|p: String| p@) == split_constraints_spec(s@),
{
    let len = s.unicode_len();
    let mut parts: Vec<String> = Vec::new();
    let mut seg_start: usize = 0;
    let mut depth: i128 = 0;
    let ghost init = SplitState { parts: Seq::empty(), current: Seq::empty(), depth: 0 };
    let mut i: usize = 0;
    proof {
        assert(s@.subrange(0, 0) =~= Seq::<char>::empty());
        assert(parts@.map_values(|p: String| p@) =~= Seq::<Seq<char>>::empty());
        assert(split_fold(init, s@.subrange(0, 0)) == init);
    }
    while i < len
        invariant
            len == s@.len(),
            0 <= seg_start <= i <= len,
            init == (SplitState { parts: Seq::empty(), current: Seq::empty(), depth: 0 }),
            split_fold(init, s@.subrange(0, i as int)) == (SplitState {
                parts: parts@.map_values(|p: String| p@),
                current: s@.subrange(seg_start as int, i as int),
                depth: depth as int,
            }),
            -(i as int) <= depth as int <= i as int,
        decreases len - i,
    {
        let c = s.get_char(i);
        let ghost pre_st = split_fold(init, s@.subrange(0, i as int));
        proof {
            assert(s@.subrange(0, i + 1).drop_last() =~= s@.subrange(0, i as int));
            assert(s@.subrange(0, i + 1).last() == s@[i as int]);
            assert(i < usize::MAX);
        }
        if c == '(' || c == '[' {
            depth = depth + 1;
            proof {
                assert(s@.subrange(seg_start as int, i + 1) =~= s@.subrange(
                    seg_start as int,
                    i as int,
                ).push(s@[i as int]));
            }
        } else if c == ')' || c == ']' {
            depth = depth - 1;
            proof {
                assert(s@.subrange(seg_start as int, i + 1) =~= s@.subrange(
                    seg_start as int,
                    i as int,
                ).push(s@[i as int]));
            }
        } else if c == ',' && depth == 0 {
            let piece = trim_str(s.substring_char(seg_start, i));
            if piece.unicode_len() > 0 {
                let ghost prev = parts@;
                parts.push(String::from_str(piece));
                proof {
                    assert(parts@.drop_last() =~= prev);
                    assert(parts@.map_values(|p: String| p@) =~= prev.map_values(
                        |p: String| p@,
                    ).push(piece@));
                }
            }
            seg_start = i + 1;
            proof {
                assert(s@.subrange(seg_start as int, i + 1) =~= Seq::<char>::empty());
            }
        } else {
            proof {
                assert(s@.subrange(seg_start as int, i + 1) =~= s@.subrange(
                    seg_start as int,
                    i as int,
                ).push(s@[i as int]));
            }
        }
        i = i + 1;
    }
    proof {
        assert(s@.subrange(0, len as int) =~= s@);
    }
    let piece = trim_str(s.substring_char(seg_start, len));
    if piece.unicode_len() > 0 {
        let ghost prev = parts@;
        parts.push(String::from_str(piece));
        proof {
            assert(parts@.drop_last() =~= prev);
            assert(parts@.map_values(|p: String| p@) =~= prev.map_values(|p: String| p@).push(
                piece@,
            ));
        }
    }
    parts
}

/// `s` after the prefix `p`, or empty when `s` does not start with `p`.
pub open spec fn strip_prefix_spec(s: Seq<char>, p: Seq<char>) -> Seq<char> {
    if starts_with_seq(s, p) {
        s.subrange(p.len() as int, s.len() as int)
    } else {
        Seq::empty()
    }
}

/// `s` without its leading equals signs.
pub open spec fn strip_eqs(s: Seq<char>) -> Seq<char>
    decreases s.len(),
{
    if s.len() > 0 && s[0] == '=' {
        strip_eqs(s.drop_first())
    } else {
        s
    }
}

/// `s` without its leading occurrences of `c`.
pub open spec fn strip_lead_char(s: Seq<char>, c: char) -> Seq<char>
    decreases s.len(),
{
    if s.len() > 0 && s[0] == c {
        strip_lead_char(s.drop_first(), c)
    } else {
        s
    }
}

/// `s` without its trailing occurrences of `c`.
pub open spec fn strip_trail_char(s: Seq<char>, c: char) -> Seq<char>
    decreases s.len(),
{
    if s.len() > 0 && s.last() == c {
        strip_trail_char(s.drop_last(), c)
    } else {
        s
    }
}

/// The value of a `name = value` constraint: the text after the
/// constraint name, trimmed, with the equals sign removed.
pub open spec fn extract_inner_spec(s: Seq<char>, prefix: Seq<char>) -> Seq<char> {
    trim_spec(strip_eqs(trim_spec(strip_prefix_spec(s, prefix))))
}

proof fn lemma_strip_lead_is(s: Seq<char>, c: char, a: int)
    requires
        0 <= a <= s.len(),
        forall|j: int| 0 <= j < a ==> s[j] == c,
        a < s.len() ==> s[a] != c,
    ensures
        strip_lead_char(s, c) == s.subrange(a, s.len() as int),
    decreases a,
{
    if a == 0 {
        assert(s.subrange(0, s.len() as int) =~= s);
    } else {
        lemma_strip_lead_is(s.drop_first(), c, a - 1);
        assert(s.drop_first().subrange(a - 1, s.len() - 1) =~= s.subrange(a, s.len() as int));
    }
}

proof fn lemma_strip_trail_is(s: Seq<char>, c: char, b: int)
    requires
        0 <= b <= s.len(),
        forall|j: int| b <= j < s.len() ==> s[j] == c,
        b > 0 ==> s[b - 1] != c,
    ensures
        strip_trail_char(s, c) == s.subrange(0, b),
    decreases s.len() - b,
{
    if b == s.len() {
        if s.len() > 0 && s.last() == c {
            assert(false);
        }
        assert(s.subrange(0, b) =~= s);
    } else {
        assert(s.last() == c);
        lemma_strip_trail_is(s.drop_last(), c, b);
        assert(s.drop_last().subrange(0, b) =~= s.subrange(0, b));
    }
}

/// `s` without its leading occurrences of `c`, as a borrowed slice.
pub(crate) fn strip_lead_x<'a>(s: &'a str, c: char) -> (r: &'a str)
    ensures
        r@ == strip_lead_char(s@, c),
{
    let len = s.unicode_len();
    let mut a: usize = 0;
    while a < len && s.get_char(a) == c
        invariant
            len == s@.len(),
            0 <= a <= len,
            forall|j: int| 0 <= j < a ==> s@[j] == c,
        decreases len - a,
    {
        a = a + 1;
    }
    proof {
        lemma_strip_lead_is(s@, c, a as int);
    }
    s.substring_char(a, len)
}

/// `s` without its trailing occurrences of `c`, as a borrowed slice.
pub(crate) fn strip_trail_x<'a>(s: &'a str, c: char) -> (r: &'a str)
    ensures
        r@ == strip_trail_char(s@, c),
{
    let len = s.unicode_len();
    let mut b: usize = len;
    while b > 0 && s.get_char(b - 1) == c
        invariant
            len == s@.len(),
            0 <= b <= len,
            forall|j: int| b <= j < len ==> s@[j] == c,
        decreases b,
    {
        b = b - 1;
    }
    proof {
        lemma_strip_trail_is(s@, c, b as int);
    }
    s.substring_char(0, b)
}

/// Extracts the value of a `name = value` constraint, such as the
/// `authority` of `has_one = authority`.
pub fn extract_inner(s: &str, prefix: &str) -> (r: String)
    ensures
        r@ == extract_inner_spec(s@, prefix@),
{
    let slen = s.unicode_len();
    let plen = prefix.unicode_len();
    let rest: &str = if starts_with_sub(s, prefix) {
        s.substring_char(plen, slen)
    } else {
        ""
    };
    proof {
        reveal_strlit("");
        assert(rest@ == strip_prefix_spec(s@, prefix@));
    }
    let t1 = trim_str(rest);
    let t2 = strip_lead_x(t1, '=');
    proof {
        assert(strip_eqs(t1@) == strip_lead_char(t1@, '=')) by {
            lemma_strip_eqs_is_lead(t1@);
        }
    }
    let t3 = trim_str(t2);
    String::from_str(t3)
}

proof fn lemma_strip_eqs_is_lead(s: Seq<char>)
    ensures
        strip_eqs(s) == strip_lead_char(s, '='),
    decreases s.len(),
{
    if s.len() > 0 && s[0] == '=' {
        lemma_strip_eqs_is_lead(s.drop_first());
    }
}

/// The comma-separated parts of `s`, trimmed, with empty parts dropped.
pub open spec fn comma_parts(s: Seq<char>) -> Seq<Seq<char>>
    decreases s.len(),
    via comma_parts_decreases
{
    let i = first_index_char(s, ',') as int;
    if i == s.len() {
        if trim_spec(s).len() > 0 {
            seq![trim_spec(s)]
        } else {
            Seq::empty()
        }
    } else {
        let h = trim_spec(s.subrange(0, i));
        let rest = comma_parts(s.subrange(i + 1, s.len() as int));
        if h.len() > 0 {
            seq![h] + rest
        } else {
            rest
        }
    }
}

#[via_fn]
proof fn comma_parts_decreases(s: Seq<char>) {
    crate::text::lemma_first_index_char_bounds(s, ',');
}

/// The seed expressions of a seeds constraint: the bracket-stripped
/// text split on commas, trimmed, with empty parts dropped.
pub open spec fn parse_seeds_spec(s: Seq<char>) -> Seq<Seq<char>> {
    comma_parts(strip_trail_char(strip_lead_char(s, '['), ']'))
}

/// Splits the comma-separated parts of `s`, trimming each and dropping
/// empty parts.
fn split_commas(s: &str) -> (r: Vec<String>)
    ensures
        r@.map_values(|p: String| p@) == comma_parts(s@),
{
    let len = s.unicode_len();
    let mut out: Vec<String> = Vec::new();
    let mut start: usize = 0;
    let mut i: usize = 0;
    proof {
        assert(s@.subrange(0, len as int) =~= s@);
        assert(out@.map_values(|p: String| p@) =~= Seq::<Seq<char>>::empty());
    }
    while i < len
        invariant
            len == s@.len(),
            0 <= start <= i <= len,
            forall|j: int| start <= j < i ==> s@[j] != ',',
            out@.map_values(|p: String| p@) + comma_parts(s@.subrange(start as int, len as int))
                =~= comma_parts(s@),
        decreases len - i,
    {
        if s.get_char(i) == ',' {
            let ghost rest = s@.subrange(start as int, len as int);
            proof {
                crate::text::lemma_first_index_is(rest, ',', i - start);
                assert(rest.subrange(0, i - start) =~= s@.subrange(start as int, i as int));
                assert(rest.subrange(i - start + 1, rest.len() as int) =~= s@.subrange(
                    i + 1,
                    len as int,
                ));
            }
            let piece = trim_str(s.substring_char(start, i));
            if piece.unicode_len() > 0 {
                let ghost prev = out@;
                out.push(String::from_str(piece));
                proof {
                    assert(out@.drop_last() =~= prev);
                    assert(out@.map_values(|p: String| p@) =~= prev.map_values(
                        |p: String| p@,
                    ).push(piece@));
                }
            }
            start = i + 1;
        }
        i = i + 1;
    }
    let ghost rest = s@.subrange(start as int, len as int);
    proof {
        crate::text::lemma_first_index_is(rest, ',', rest.len() as int);
    }
    let piece = trim_str(s.substring_char(start, len));
    if piece.unicode_len() > 0 {
        let ghost prev = out@;
        out.push(String::from_str(piece));
        proof {
            assert(out@.drop_last() =~= prev);
            assert(out@.map_values(|p: String| p@) =~= prev.map_values(|p: String| p@).push(
                piece@,
            ));
            assert(out@.map_values(|p: String| p@) =~= comma_parts(s@));
        }
    } else {
        proof {
            assert(out@.map_values(|p: String| p@) =~= comma_parts(s@));
        }
    }
    out
}

/// Parses the individual seed expressions out of a seeds constraint
/// value, brackets included.
pub fn parse_seeds(s: &str) -> (r: Vec<String>)
    ensures
        r@.map_values(|p: String| p@) == parse_seeds_spec(s@),
{
    let inner = strip_trail_x(strip_lead_x(s, '['), ']');
    split_commas(inner)
}

/// The constraint parsed out of one trimmed constraint text: exact
/// keywords first, then `name = value` forms by prefix, and anything
/// else kept unrecognized.
pub open spec fn constraint_model_of(s0: Seq<char>) -> ConstraintTypeModel {
    let s = trim_spec(s0);
    if s == "init"@ {
        ConstraintTypeModel::Init
    } else if s == "init_if_needed"@ {
        ConstraintTypeModel::InitIfNeeded
    } else if s == "mut"@ {
        ConstraintTypeModel::Mut
    } else if s == "signer"@ {
        ConstraintTypeModel::Signer
    } else if starts_with_seq(s, "has_one"@) {
        ConstraintTypeModel::HasOne(extract_inner_spec(s, "has_one"@))
    } else if starts_with_seq(s, "seeds"@) {
        ConstraintTypeModel::Seeds(parse_seeds_spec(extract_inner_spec(s, "seeds"@)))
    } else if starts_with_seq(s, "bump"@) {
        ConstraintTypeModel::Bump
    } else if starts_with_seq(s, "payer"@) {
        ConstraintTypeModel::Payer(extract_inner_spec(s, "payer"@))
    } else if starts_with_seq(s, "space"@) {
        ConstraintTypeModel::Space(extract_inner_spec(s, "space"@))
    } else if starts_with_seq(s, "owner"@) {
        ConstraintTypeModel::Owner(extract_inner_spec(s, "owner"@))
    } else if starts_with_seq(s, "constraint"@) {
        ConstraintTypeModel::Constraint(extract_inner_spec(s, "constraint"@))
    } else if starts_with_seq(s, "address"@) {
        ConstraintTypeModel::Address(extract_inner_spec(s, "address"@))
    } else if starts_with_seq(s, "close"@) {
        ConstraintTypeModel::Close(extract_inner_spec(s, "close"@))
    } else {
        ConstraintTypeModel::Unknown(s)
    }
}

/// Parses one constraint text. Parsing is total: an unrecognized
/// constraint is returned as such, never dropped.
pub fn parse_single_constraint(s: &str) -> (r: Option<Constraint>)
    ensures
        match r {
            Some(c) => c.constraint_type@ == constraint_model_of(s@) && c.raw@ == trim_spec(s@)
                && c.line == 0,
            None => false,
        },
{
    let t = trim_str(s);
    let constraint_type: ConstraintType = if str_eq(t, "init") {
        ConstraintType::Init
    } else if str_eq(t, "init_if_needed") {
        ConstraintType::InitIfNeeded
    } else if str_eq(t, "mut") {
        ConstraintType::Mut
    } else if str_eq(t, "signer") {
        ConstraintType::Signer
    } else if starts_with_sub(t, "has_one") {
        ConstraintType::HasOne(extract_inner(t, "has_one"))
    } else if starts_with_sub(t, "seeds") {
        let inner = extract_inner(t, "seeds");
        ConstraintType::Seeds(parse_seeds(inner.as_str()))
    } else if starts_with_sub(t, "bump") {
        ConstraintType::Bump
    } else if starts_with_sub(t, "payer") {
        ConstraintType::Payer(extract_inner(t, "payer"))
    } else if starts_with_sub(t, "space") {
        ConstraintType::Space(extract_inner(t, "space"))
    } else if starts_with_sub(t, "owner") {
        ConstraintType::Owner(extract_inner(t, "owner"))
    } else if starts_with_sub(t, "constraint") {
        ConstraintType::Constraint(extract_inner(t, "constraint"))
    } else if starts_with_sub(t, "address") {
        ConstraintType::Address(extract_inner(t, "address"))
    } else if starts_with_sub(t, "close") {
        ConstraintType::Close(extract_inner(t, "close"))
    } else {
        ConstraintType::Unknown(String::from_str(t))
    };
    Some(Constraint { constraint_type, raw: String::from_str(t), line: 0 })
}

/// Parses every constraint of one rendered attribute argument list:
/// one constraint per piece, carrying the parsed type and the trimmed
/// piece as its raw text.
pub fn parse_constraints_text(tokens: &str) -> (r: Vec<Constraint>)
    ensures
        r@.len() == split_constraints_spec(tokens@).len(),
        forall|i: int|
            0 <= i < r@.len() ==> r@[i].constraint_type@ == constraint_model_of(
                split_constraints_spec(tokens@)[i],
            ) && r@[i].raw@ == trim_spec(split_constraints_spec(tokens@)[i]),
{
    let pieces = split_constraints(tokens);
    let ghost ps = pieces@.map_values(|p: String| p@);
    let mut out: Vec<Constraint> = Vec::new();
    let mut i: usize = 0;
    while i < pieces.len()
        invariant
            0 <= i <= pieces@.len(),
            ps == pieces@.map_values(|p: String| p@),
            ps == split_constraints_spec(tokens@),
            out@.len() == i,
            forall|j: int|
                0 <= j < i ==> out@[j].constraint_type@ == constraint_model_of(ps[j])
                    && out@[j].raw@ == trim_spec(ps[j]),
        decreases pieces@.len() - i,
    {
        match parse_single_constraint(pieces[i].as_str()) {
            Some(c) => {
                out.push(c);
            },
            None => {
                proof {
                    assert(false);
                }
            },
        }
        i = i + 1;
    }
    out
}

} // verus!
