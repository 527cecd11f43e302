//! The whole-program index: a cross-file symbol table of struct
//! definitions, resolved constants and instruction-handler signatures,
//! built in one pass over every source file and read-only afterwards.
//!
//! Name collisions across files resolve to the last file indexed; the
//! order-independence law for uniquely named structs is
//! [`lemma_index_order_independence`].

use vstd::prelude::*;

use crate::ast::{ConstExpr, FnDecl, Item, Param, SourceFile, StructItem};
use crate::text::{contains_seq, contains_sub, first_index_char, last_index_char, find_char,
    rfind_char, trim_spec, trim_str};

verus! {

/// Information about one struct definition.
pub struct StructInfo {
    /// Name of the struct.
    pub name: String,
    /// File where the struct is defined.
    pub file: String,
    /// Field definitions as (name, type) pairs.
    pub fields: Vec<(String, String)>,
    /// Whether the struct is annotated as an account.
    pub is_account: bool,
    /// Whether the struct is an accounts-context declaration.
    pub is_accounts_context: bool,
}

/// Ghost mirror of [`StructInfo`].
pub ghost struct StructInfoModel {
    pub name: Seq<char>,
    pub file: Seq<char>,
    pub fields: Seq<(Seq<char>, Seq<char>)>,
    pub is_account: bool,
    pub is_accounts_context: bool,
}

impl View for StructInfo {
    type V = StructInfoModel;

    open spec fn view(&self) -> StructInfoModel {
        StructInfoModel {
            name: self.name@,
            file: self.file@,
            fields: self.fields@.map_values(|f: (String, String)| (f.0@, f.1@)),
            is_account: self.is_account,
            is_accounts_context: self.is_accounts_context,
        }
    }
}

/// Information about one constant.
pub struct ConstantInfo {
    /// Name of the constant.
    pub name: String,
    /// Resolved value, when folding could determine one.
    pub value: Option<i128>,
    /// The initializer rendered as text.
    pub value_str: String,
}

/// Ghost mirror of [`ConstantInfo`].
pub ghost struct ConstantInfoModel {
    pub name: Seq<char>,
    pub value: Option<i128>,
    pub value_str: Seq<char>,
}

impl View for ConstantInfo {
    type V = ConstantInfoModel;

    open spec fn view(&self) -> ConstantInfoModel {
        ConstantInfoModel { name: self.name@, value: self.value, value_str: self.value_str@ }
    }
}

/// Information about one instruction-handler function.
pub struct InstructionInfo {
    /// Function name.
    pub name: String,
    /// File where the function is defined.
    pub file: String,
    /// Arguments as (name, type) pairs.
    pub args: Vec<(String, String)>,
    /// The inner type argument of the execution-context parameter.
    pub context_type: Option<String>,
    /// Line number, when known.
    pub line: usize,
}

/// Ghost mirror of [`InstructionInfo`].
pub ghost struct InstructionInfoModel {
    pub name: Seq<char>,
    pub file: Seq<char>,
    pub args: Seq<(Seq<char>, Seq<char>)>,
    pub context_type: Option<Seq<char>>,
    pub line: nat,
}

impl View for InstructionInfo {
    type V = InstructionInfoModel;

    open spec fn view(&self) -> InstructionInfoModel {
        InstructionInfoModel {
            name: self.name@,
            file: self.file@,
            args: self.args@.map_values(|a: (String, String)| (a.0@, a.1@)),
            context_type: match self.context_type {
                Some(t) => Some(t@),
                None => None,
            },
            line: self.line as nat,
        }
    }
}

/// Whether one rendered attribute marks an account struct.
pub open spec fn attr_marks_account(a: Seq<char>) -> bool {
    contains_seq(a, "account"@)
}

/// Whether one rendered attribute marks an accounts-context struct.
pub open spec fn attr_marks_accounts_context(a: Seq<char>) -> bool {
    contains_seq(a, "derive"@) && contains_seq(a, "Accounts"@)
}

/// Whether any attribute of the struct marks it as an account.
pub open spec fn struct_is_account(s: StructItem) -> bool {
    exists|i: int| 0 <= i < s.attrs@.len() && attr_marks_account(s.attrs@[i]@)
}

/// Whether any attribute of the struct marks it as an accounts context.
pub open spec fn struct_is_accounts_context(s: StructItem) -> bool {
    exists|i: int| 0 <= i < s.attrs@.len() && attr_marks_accounts_context(s.attrs@[i]@)
}

/// The index record produced for one struct item found in `path`.
pub open spec fn struct_model_of(path: Seq<char>, s: StructItem) -> StructInfoModel {
    StructInfoModel {
        name: s.name@,
        file: path,
        fields: s.fields@.map_values(|f: crate::ast::FieldDecl| (f.name@, f.ty@)),
        is_account: struct_is_account(s),
        is_accounts_context: struct_is_accounts_context(s),
    }
}

/// Best-effort constant folding: literals, casts, parentheses and unary
/// negation only. Negating the smallest representable value cannot be
/// folded and yields `None`.
pub open spec fn const_fold(e: ConstExpr) -> Option<i128>
    decreases e,
{
    match e {
        ConstExpr::IntLit(v) => Some(v),
        ConstExpr::Cast(inner) => const_fold(*inner),
        ConstExpr::Paren(inner) => const_fold(*inner),
        ConstExpr::Neg(inner) => match const_fold(*inner) {
            Some(v) => if v == i128::MIN {
                None
            } else {
                Some((-v) as i128)
            },
            None => None,
        },
        ConstExpr::Opaque => None,
    }
}

/// The index record produced for one constant item.
pub open spec fn const_model_of(c: crate::ast::ConstItem) -> ConstantInfoModel {
    ConstantInfoModel { name: c.name@, value: const_fold(c.expr), value_str: c.raw@ }
}

/// The inner type argument extracted from a rendered type such as
/// `Context<Transfer>`: the trimmed text between the first `<` and the
/// last `>`, if that span is well formed.
pub open spec fn context_inner_type(t: Seq<char>) -> Option<Seq<char>> {
    let start = first_index_char(t, '<') as int;
    let end = last_index_char(t, '>') as int;
    if start < t.len() && end < t.len() && start + 1 <= end {
        Some(trim_spec(t.subrange(start + 1, end)))
    } else {
        None
    }
}

/// Whether one parameter declares the execution-context shape.
pub open spec fn param_binds_context(p: Param) -> bool {
    contains_seq(p.ty@, "Context"@) && context_inner_type(p.ty@) is Some
}

/// The bound context type of a function: the last parameter that declares
/// the execution-context shape decides.
pub open spec fn fn_context_type(params: Seq<Param>) -> Option<Seq<char>>
    decreases params.len(),
{
    if params.len() == 0 {
        None
    } else if param_binds_context(params.last()) {
        context_inner_type(params.last().ty@)
    } else {
        fn_context_type(params.drop_last())
    }
}

/// The index record produced for one function item found in `path`,
/// when its signature binds an execution context.
pub open spec fn instr_model_of(path: Seq<char>, f: FnDecl) -> Option<InstructionInfoModel> {
    match fn_context_type(f.params@) {
        Some(ctx_ty) => Some(
            InstructionInfoModel {
                name: f.name@,
                file: path,
                args: f.params@.map_values(|p: Param| (p.name@, p.ty@)),
                context_type: Some(ctx_ty),
                line: 0,
            },
        ),
        None => None,
    }
}

/// The struct records contributed by the items of one inline module;
/// nested modules inside it are not entered.
pub open spec fn mod_struct_models(path: Seq<char>, items: Seq<Item>) -> Seq<StructInfoModel>
    decreases items.len(),
{
    if items.len() == 0 {
        Seq::empty()
    } else {
        let rest = mod_struct_models(path, items.drop_last());
        match items.last() {
            Item::Struct(s) => rest.push(struct_model_of(path, s)),
            _ => rest,
        }
    }
}

/// The struct records contributed by one file, in indexing order;
/// inline modules are entered one level deep.
pub open spec fn file_struct_models(path: Seq<char>, items: Seq<Item>) -> Seq<StructInfoModel>
    decreases items.len(),
{
    if items.len() == 0 {
        Seq::empty()
    } else {
        let rest = file_struct_models(path, items.drop_last());
        match items.last() {
            Item::Struct(s) => rest.push(struct_model_of(path, s)),
            Item::Mod(inner) => rest + mod_struct_models(path, inner@),
            _ => rest,
        }
    }
}

/// The constant records contributed by one file, in indexing order.
pub open spec fn file_const_models(items: Seq<Item>) -> Seq<ConstantInfoModel>
    decreases items.len(),
{
    if items.len() == 0 {
        Seq::empty()
    } else {
        let rest = file_const_models(items.drop_last());
        match items.last() {
            Item::Const(c) => rest.push(const_model_of(c)),
            _ => rest,
        }
    }
}

/// The instruction records contributed by one file, in indexing order.
pub open spec fn file_instr_models(path: Seq<char>, items: Seq<Item>) -> Seq<InstructionInfoModel>
    decreases items.len(),
{
    if items.len() == 0 {
        Seq::empty()
    } else {
        let rest = file_instr_models(path, items.drop_last());
        match items.last() {
            Item::Fn(f) => match instr_model_of(path, f) {
                Some(m) => rest.push(m),
                None => rest,
            },
            _ => rest,
        }
    }
}

/// The struct record for `name`: the last record with that name wins.
pub open spec fn struct_lookup(entries: Seq<StructInfoModel>, name: Seq<char>) -> Option<
    StructInfoModel,
>
    decreases entries.len(),
{
    if entries.len() == 0 {
        None
    } else if entries.last().name == name {
        Some(entries.last())
    } else {
        struct_lookup(entries.drop_last(), name)
    }
}

/// The constant record for `name`: the last record with that name wins.
pub open spec fn const_lookup(entries: Seq<ConstantInfoModel>, name: Seq<char>) -> Option<
    ConstantInfoModel,
>
    decreases entries.len(),
{
    if entries.len() == 0 {
        None
    } else if entries.last().name == name {
        Some(entries.last())
    } else {
        const_lookup(entries.drop_last(), name)
    }
}

/// The type recorded for `field` in a field list: the last pair wins.
pub open spec fn field_lookup(fields: Seq<(Seq<char>, Seq<char>)>, field: Seq<char>) -> Option<
    Seq<char>,
>
    decreases fields.len(),
{
    if fields.len() == 0 {
        None
    } else if fields.last().0 == field {
        Some(fields.last().1)
    } else {
        field_lookup(fields.drop_last(), field)
    }
}

/// Ghost mirror of [`ProgramContext`].
pub ghost struct ProgramContextModel {
    pub structs: Seq<StructInfoModel>,
    pub accounts: Seq<StructInfoModel>,
    pub constants: Seq<ConstantInfoModel>,
    pub instructions: Seq<InstructionInfoModel>,
}

/// The whole-program symbol table. Append-only while files are indexed,
/// read-only afterwards.
pub struct ProgramContext {
    /// Every indexed struct, in indexing order.
    pub structs: Vec<StructInfo>,
    /// The account-annotated structs only, in indexing order.
    pub accounts: Vec<StructInfo>,
    /// Every indexed constant, in indexing order.
    pub constants: Vec<ConstantInfo>,
    /// Every indexed instruction handler, in indexing order.
    pub instructions: Vec<InstructionInfo>,
}

impl View for ProgramContext {
    type V = ProgramContextModel;

    open spec fn view(&self) -> ProgramContextModel {
        ProgramContextModel {
            structs: self.structs@.map_values(|s: StructInfo| s@),
            accounts: self.accounts@.map_values(|s: StructInfo| s@),
            constants: self.constants@.map_values(|c: ConstantInfo| c@),
            instructions: self.instructions@.map_values(|i: InstructionInfo| i@),
        }
    }
}

/// Folds a constant initializer down to an integer where possible.
fn fold_const(e: &ConstExpr) -> (r: Option<i128>)
    ensures
        r == const_fold(*e),
    decreases *e,
{
    match e {
        ConstExpr::IntLit(v) => Some(*v),
        ConstExpr::Cast(inner) => fold_const(inner),
        ConstExpr::Paren(inner) => fold_const(inner),
        ConstExpr::Neg(inner) => match fold_const(inner) {
            Some(v) => if v == i128::MIN {
                None
            } else {
                Some(-v)
            },
            None => None,
        },
        ConstExpr::Opaque => None,
    }
}

/// Extracts the inner type argument of a rendered context type.
fn extract_context_inner(t: &str) -> (r: Option<String>)
    ensures
        match r {
            Some(s) => context_inner_type(t@) == Some(s@),
            None => context_inner_type(t@) is None,
        },
{
    let len = t.unicode_len();
    match find_char(t, '<') {
        Some(start) => match rfind_char(t, '>') {
            Some(end) => {
                if start + 1 <= end {
                    let inner = trim_str(t.substring_char(start + 1, end));
                    Some(String::from_str(inner))
                } else {
                    None
                }
            },
            None => None,
        },
        None => None,
    }
}

/// Builds the index record for one struct item.
fn make_struct_info(path: &str, s: &StructItem) -> (info: StructInfo)
    ensures
        info@ == struct_model_of(path@, *s),
{
    let mut fields: Vec<(String, String)> = Vec::new();
    let mut k: usize = 0;
    while k < s.fields.len()
        invariant
            0 <= k <= s.fields@.len(),
            fields@.map_values(|f: (String, String)| (f.0@, f.1@)) =~= s.fields@.subrange(
                0,
                k as int,
            ).map_values(|f: crate::ast::FieldDecl| (f.name@, f.ty@)),
        decreases s.fields@.len() - k,
    {
        let ghost pre = fields@;
        fields.push((s.fields[k].name.clone(), s.fields[k].ty.clone()));
        proof {
            assert(pre.map_values(|f: (String, String)| (f.0@, f.1@)).len() == pre.len());
            assert(s.fields@.subrange(0, k as int).map_values(
                |f: crate::ast::FieldDecl| (f.name@, f.ty@),
            ).len() == k);
            assert(pre.len() == k);
            let lhs = fields@.map_values(|f: (String, String)| (f.0@, f.1@));
            let rhs = s.fields@.subrange(0, k + 1).map_values(
                |f: crate::ast::FieldDecl| (f.name@, f.ty@),
            );
            assert forall|j: int| 0 <= j < lhs.len() implies lhs[j] == rhs[j] by {
                if j < k {
                    assert(fields@[j] == pre[j]);
                    assert(pre.map_values(|f: (String, String)| (f.0@, f.1@))[j] == lhs[j]);
                    assert(s.fields@.subrange(0, k as int)[j] == s.fields@.subrange(0, k + 1)[j]);
                } else {
                    assert(fields@[j] == (fields@.last()));
                    assert(s.fields@.subrange(0, k + 1)[j] == s.fields@[k as int]);
                }
            }
            assert(lhs =~= rhs);
        }
        k = k + 1;
    }
    let mut is_account = false;
    let mut is_accounts_context = false;
    let mut a: usize = 0;
    while a < s.attrs.len()
        invariant
            0 <= a <= s.attrs@.len(),
            is_account == exists|i: int| 0 <= i < a && attr_marks_account(s.attrs@[i]@),
            is_accounts_context == exists|i: int|
                0 <= i < a && attr_marks_accounts_context(s.attrs@[i]@),
        decreases s.attrs@.len() - a,
    {
        let attr = &s.attrs[a];
        if contains_sub(attr.as_str(), "account") {
            is_account = true;
        }
        if contains_sub(attr.as_str(), "derive") && contains_sub(attr.as_str(), "Accounts") {
            is_accounts_context = true;
        }
        a = a + 1;
    }
    proof {
        assert(s.fields@.subrange(0, s.fields@.len() as int) =~= s.fields@);
        assert(is_account == struct_is_account(*s));
        assert(is_accounts_context == struct_is_accounts_context(*s));
    }
    StructInfo {
        name: s.name.clone(),
        file: String::from_str(path),
        fields,
        is_account,
        is_accounts_context,
    }
}

impl ProgramContext {
    /// Creates an empty program index.
    pub fn new() -> (r: ProgramContext)
        ensures
            r@.structs == Seq::<StructInfoModel>::empty(),
            r@.accounts == Seq::<StructInfoModel>::empty(),
            r@.constants == Seq::<ConstantInfoModel>::empty(),
            r@.instructions == Seq::<InstructionInfoModel>::empty(),
    {
        let r = ProgramContext {
            structs: Vec::new(),
            accounts: Vec::new(),
            constants: Vec::new(),
            instructions: Vec::new(),
        };
        proof {
            assert(r@.structs =~= Seq::<StructInfoModel>::empty());
            assert(r@.accounts =~= Seq::<StructInfoModel>::empty());
            assert(r@.constants =~= Seq::<ConstantInfoModel>::empty());
            assert(r@.instructions =~= Seq::<InstructionInfoModel>::empty());
        }
        r
    }

    /// Records one struct definition; account-annotated structs are also
    /// recorded in the accounts-only map.
    fn index_struct(&mut self, path: &str, s: &StructItem)
        ensures
            final(self)@.structs == old(self)@.structs.push(struct_model_of(path@, *s)),
            final(self)@.accounts == if struct_is_account(*s) {
                old(self)@.accounts.push(struct_model_of(path@, *s))
            } else {
                old(self)@.accounts
            },
            final(self)@.constants == old(self)@.constants,
            final(self)@.instructions == old(self)@.instructions,
    {
        let info = make_struct_info(path, s);
        if info.is_account {
            let again = make_struct_info(path, s);
            self.accounts.push(again);
            proof {
                assert(self@.accounts =~= old(self)@.accounts.push(struct_model_of(path@, *s)));
            }
        }
        self.structs.push(info);
        proof {
            assert(self@.structs =~= old(self)@.structs.push(struct_model_of(path@, *s)));
            assert(self@.constants =~= old(self)@.constants);
            assert(self@.instructions =~= old(self)@.instructions);
        }
    }

    /// Records one constant definition, folding its initializer where
    /// folding is possible; unresolved constants are still recorded.
    fn index_constant(&mut self, c: &crate::ast::ConstItem)
        ensures
            final(self)@.constants == old(self)@.constants.push(const_model_of(*c)),
            final(self)@.structs == old(self)@.structs,
            final(self)@.accounts == old(self)@.accounts,
            final(self)@.instructions == old(self)@.instructions,
    {
        let value = fold_const(&c.expr);
        self.constants.push(ConstantInfo { name: c.name.clone(), value, value_str: c.raw.clone() });
        proof {
            assert(self@.constants =~= old(self)@.constants.push(const_model_of(*c)));
            assert(self@.structs =~= old(self)@.structs);
            assert(self@.accounts =~= old(self)@.accounts);
            assert(self@.instructions =~= old(self)@.instructions);
        }
    }

    /// Records one function definition as an instruction handler when its
    /// signature binds an execution context; other functions are ignored.
    fn index_function(&mut self, path: &str, f: &FnDecl)
        ensures
            final(self)@.instructions == match instr_model_of(path@, *f) {
                Some(m) => old(self)@.instructions.push(m),
                None => old(self)@.instructions,
            },
            final(self)@.structs == old(self)@.structs,
            final(self)@.accounts == old(self)@.accounts,
            final(self)@.constants == old(self)@.constants,
    {
        let mut args: Vec<(String, String)> = Vec::new();
        let mut context_type: Option<String> = None;
        let mut k: usize = 0;
        proof {
            assert(f.params@.subrange(0, 0) =~= Seq::<Param>::empty());
        }
        while k < f.params.len()
            invariant
                0 <= k <= f.params@.len(),
                args@.map_values(|a: (String, String)| (a.0@, a.1@)) =~= f.params@.subrange(
                    0,
                    k as int,
                ).map_values(|p: Param| (p.name@, p.ty@)),
                match context_type {
                    Some(t) => fn_context_type(f.params@.subrange(0, k as int)) == Some(t@),
                    None => fn_context_type(f.params@.subrange(0, k as int)) is None,
                },
            decreases f.params@.len() - k,
        {
            let p = &f.params[k];
            let ghost pre = args@;
            args.push((p.name.clone(), p.ty.clone()));
            proof {
                assert(pre.map_values(|a: (String, String)| (a.0@, a.1@)).len() == pre.len());
                assert(f.params@.subrange(0, k as int).map_values(
                    |q: Param| (q.name@, q.ty@),
                ).len() == k);
                assert(pre.len() == k);
                let lhs = args@.map_values(|a: (String, String)| (a.0@, a.1@));
                let rhs = f.params@.subrange(0, k + 1).map_values(|q: Param| (q.name@, q.ty@));
                assert forall|j: int| 0 <= j < lhs.len() implies lhs[j] == rhs[j] by {
                    if j < k {
                        assert(args@[j] == pre[j]);
                        assert(pre.map_values(|a: (String, String)| (a.0@, a.1@))[j] == lhs[j]);
                        assert(f.params@.subrange(0, k as int)[j] == f.params@.subrange(
                            0,
                            k + 1,
                        )[j]);
                    } else {
                        assert(args@[j] == (args@.last()));
                        assert(f.params@.subrange(0, k + 1)[j] == f.params@[k as int]);
                    }
                }
                assert(lhs =~= rhs);
            }
            if contains_sub(p.ty.as_str(), "Context") {
                match extract_context_inner(p.ty.as_str()) {
                    Some(inner) => {
                        context_type = Some(inner);
                    },
                    None => {},
                }
            }
            proof {
                assert(f.params@.subrange(0, k + 1).drop_last() =~= f.params@.subrange(
                    0,
                    k as int,
                ));
                assert(f.params@.subrange(0, k + 1).last() == f.params@[k as int]);
            }
            k = k + 1;
        }
        proof {
            assert(f.params@.subrange(0, f.params@.len() as int) =~= f.params@);
        }
        match context_type {
            Some(ctx_ty) => {
                self.instructions.push(
                    InstructionInfo {
                        name: f.name.clone(),
                        file: String::from_str(path),
                        args,
                        context_type: Some(ctx_ty),
                        line: 0,
                    },
                );
                proof {
                    assert(self@.instructions =~= old(self)@.instructions.push(
                        instr_model_of(path@, *f).unwrap(),
                    ));
                    assert(self@.structs =~= old(self)@.structs);
                    assert(self@.accounts =~= old(self)@.accounts);
                    assert(self@.constants =~= old(self)@.constants);
                }
            },
            None => {},
        }
    }

    /// Indexes one parsed source file: every struct, constant and
    /// instruction handler it holds is appended to the table. Inline
    /// modules are entered one level deep, for structs only.
    pub fn index_file(&mut self, path: &str, file: &SourceFile)
        ensures
            final(self)@.structs == old(self)@.structs + file_struct_models(path@, file.items@),
            final(self)@.accounts == old(self)@.accounts + account_filter(
                file_struct_models(path@, file.items@),
            ),
            final(self)@.constants == old(self)@.constants + file_const_models(file.items@),
            final(self)@.instructions == old(self)@.instructions + file_instr_models(
                path@,
                file.items@,
            ),
    {
        let n = file.items.len();
        let mut i: usize = 0;
        proof {
            assert(file.items@.subrange(0, 0) =~= Seq::<Item>::empty());
            assert(self@.structs =~= old(self)@.structs + file_struct_models(
                path@,
                file.items@.subrange(0, 0),
            ));
            assert(self@.accounts =~= old(self)@.accounts + account_filter(
                file_struct_models(path@, file.items@.subrange(0, 0)),
            ));
            assert(self@.constants =~= old(self)@.constants + file_const_models(
                file.items@.subrange(0, 0),
            ));
            assert(self@.instructions =~= old(self)@.instructions + file_instr_models(
                path@,
                file.items@.subrange(0, 0),
            ));
        }
        while i < n
            invariant
                0 <= i <= n,
                n == file.items@.len(),
                self@.structs == old(self)@.structs + file_struct_models(
                    path@,
                    file.items@.subrange(0, i as int),
                ),
                self@.accounts == old(self)@.accounts + account_filter(
                    file_struct_models(path@, file.items@.subrange(0, i as int)),
                ),
                self@.constants == old(self)@.constants + file_const_models(
                    file.items@.subrange(0, i as int),
                ),
                self@.instructions == old(self)@.instructions + file_instr_models(
                    path@,
                    file.items@.subrange(0, i as int),
                ),
            decreases n - i,
        {
            let ghost pre = file.items@.subrange(0, i as int);
            let ghost post = file.items@.subrange(0, i + 1);
            proof {
                assert(post.drop_last() =~= pre);
                assert(post.last() == file.items@[i as int]);
            }
            match &file.items[i] {
                Item::Struct(st) => {
                    self.index_struct(path, st);
                    proof {
                        lemma_account_filter_push(
                            file_struct_models(path@, pre),
                            struct_model_of(path@, *st),
                        );
                        assert(self@.accounts =~= old(self)@.accounts + account_filter(
                            file_struct_models(path@, post),
                        ));
                    }
                },
                Item::Const(c) => {
                    self.index_constant(c);
                },
                Item::Fn(f) => {
                    self.index_function(path, f);
                },
                Item::Mod(inner) => {
                    let m = inner.len();
                    let mut j: usize = 0;
                    let ghost base_structs = self@.structs;
                    let ghost base_accounts = self@.accounts;
                    proof {
                        assert(inner@.subrange(0, 0) =~= Seq::<Item>::empty());
                        assert(base_structs =~= base_structs + mod_struct_models(
                            path@,
                            inner@.subrange(0, 0),
                        ));
                        assert(base_accounts =~= base_accounts + account_filter(
                            mod_struct_models(path@, inner@.subrange(0, 0)),
                        ));
                    }
                    while j < m
                        invariant
                            0 <= j <= m,
                            m == inner@.len(),
                            self@.structs == base_structs + mod_struct_models(
                                path@,
                                inner@.subrange(0, j as int),
                            ),
                            self@.accounts == base_accounts + account_filter(
                                mod_struct_models(path@, inner@.subrange(0, j as int)),
                            ),
                            self@.constants == old(self)@.constants + file_const_models(
                                file.items@.subrange(0, i as int),
                            ),
                            self@.instructions == old(self)@.instructions + file_instr_models(
                                path@,
                                file.items@.subrange(0, i as int),
                            ),
                        decreases m - j,
                    {
                        let ghost mpre = inner@.subrange(0, j as int);
                        let ghost mpost = inner@.subrange(0, j + 1);
                        proof {
                            assert(mpost.drop_last() =~= mpre);
                            assert(mpost.last() == inner@[j as int]);
                        }
                        match &inner[j] {
                            Item::Struct(st) => {
                                self.index_struct(path, st);
                                proof {
                                    lemma_account_filter_push(
                                        mod_struct_models(path@, mpre),
                                        struct_model_of(path@, *st),
                                    );
                                    assert(self@.structs =~= base_structs + mod_struct_models(
                                        path@,
                                        mpost,
                                    ));
                                    assert(self@.accounts =~= base_accounts + account_filter(
                                        mod_struct_models(path@, mpost),
                                    ));
                                }
                            },
                            _ => {},
                        }
                        j = j + 1;
                    }
                    proof {
                        assert(inner@.subrange(0, m as int) =~= inner@);
                        lemma_account_filter_append(
                            file_struct_models(path@, pre),
                            mod_struct_models(path@, inner@),
                        );
                        assert(self@.structs =~= old(self)@.structs + file_struct_models(
                            path@,
                            post,
                        ));
                        assert(self@.accounts =~= old(self)@.accounts + account_filter(
                            file_struct_models(path@, post),
                        ));
                    }
                },
                Item::Other => {},
            }
            i = i + 1;
        }
        proof {
            assert(file.items@.subrange(0, n as int) =~= file.items@);
        }
    }

    /// Resolves a struct by name; the last indexed definition wins.
    pub fn resolve_struct(&self, name: &str) -> (r: Option<&StructInfo>)
        ensures
            match r {
                Some(si) => struct_lookup(self@.structs, name@) == Some(si@),
                None => struct_lookup(self@.structs, name@) is None,
            },
    {
        let ghost m = self@.structs;
        let mut i: usize = self.structs.len();
        proof {
            assert(m.subrange(0, i as int) =~= m);
        }
        while i > 0
            invariant
                0 <= i <= self.structs@.len(),
                m == self@.structs,
                struct_lookup(m, name@) == struct_lookup(m.subrange(0, i as int), name@),
            decreases i,
        {
            i = i - 1;
            let ghost sub = m.subrange(0, i + 1);
            proof {
                assert(sub.last() == m[i as int]);
                assert(sub.drop_last() =~= m.subrange(0, i as int));
            }
            if crate::text::str_eq(self.structs[i].name.as_str(), name) {
                assert(struct_lookup(m, name@) == Some(m[i as int]));
                return Some(&self.structs[i]);
            }
        }
        proof {
            assert(m.subrange(0, 0) =~= Seq::<StructInfoModel>::empty());
        }
        None
    }

    /// The recorded type of one field of one struct.
    pub fn get_account_field_type(&self, struct_name: &str, field_name: &str) -> (r: Option<
        String,
    >)
        ensures
            match struct_lookup(self@.structs, struct_name@) {
                Some(si) => match r {
                    Some(t) => field_lookup(si.fields, field_name@) == Some(t@),
                    None => field_lookup(si.fields, field_name@) is None,
                },
                None => r is None,
            },
    {
        match self.resolve_struct(struct_name) {
            Some(si) => {
                let ghost fm = si@.fields;
                let mut i: usize = si.fields.len();
                proof {
                    assert(fm.subrange(0, i as int) =~= fm);
                }
                while i > 0
                    invariant
                        0 <= i <= si.fields@.len(),
                        fm == si@.fields,
                        struct_lookup(self@.structs, struct_name@) == Some(si@),
                        field_lookup(fm, field_name@) == field_lookup(
                            fm.subrange(0, i as int),
                            field_name@,
                        ),
                    decreases i,
                {
                    i = i - 1;
                    let ghost sub = fm.subrange(0, i + 1);
                    proof {
                        assert(sub.last() == fm[i as int]);
                        assert(sub.drop_last() =~= fm.subrange(0, i as int));
                    }
                    if crate::text::str_eq(si.fields[i].0.as_str(), field_name) {
                        let ty = si.fields[i].1.clone();
                        proof {
                            let fi = si.fields@[i as int];
                            assert(fm[i as int] == (fi.0@, fi.1@));
                            assert(field_lookup(fm, field_name@) == Some(ty@));
                        }
                        return Some(ty);
                    }
                }
                proof {
                    assert(fm.subrange(0, 0) =~= Seq::<(Seq<char>, Seq<char>)>::empty());
                }
                None
            },
            None => None,
        }
    }

    /// Resolves a constant to its folded value; `None` means the constant
    /// is unknown or its initializer could not be folded.
    pub fn resolve_constant(&self, name: &str) -> (r: Option<i128>)
        ensures
            r == match const_lookup(self@.constants, name@) {
                Some(ci) => ci.value,
                None => None::<i128>,
            },
    {
        let ghost m = self@.constants;
        let mut i: usize = self.constants.len();
        proof {
            assert(m.subrange(0, i as int) =~= m);
        }
        while i > 0
            invariant
                0 <= i <= self.constants@.len(),
                m == self@.constants,
                const_lookup(m, name@) == const_lookup(m.subrange(0, i as int), name@),
            decreases i,
        {
            i = i - 1;
            let ghost sub = m.subrange(0, i + 1);
            proof {
                assert(sub.last() == m[i as int]);
                assert(sub.drop_last() =~= m.subrange(0, i as int));
            }
            if crate::text::str_eq(self.constants[i].name.as_str(), name) {
                assert(const_lookup(m, name@) == Some(m[i as int]));
                return self.constants[i].value;
            }
        }
        proof {
            assert(m.subrange(0, 0) =~= Seq::<ConstantInfoModel>::empty());
        }
        None
    }

    /// All recorded instruction handlers, in indexing order.
    pub fn get_instructions(&self) -> (r: &Vec<InstructionInfo>)
        ensures
            r@.map_values(|x: InstructionInfo| x@) == self@.instructions,
    {
        &self.instructions
    }
}

/// The account-marked records of a struct-record sequence, in order.
pub open spec fn account_filter(entries: Seq<StructInfoModel>) -> Seq<StructInfoModel>
    decreases entries.len(),
{
    if entries.len() == 0 {
        Seq::empty()
    } else {
        let rest = account_filter(entries.drop_last());
        if entries.last().is_account {
            rest.push(entries.last())
        } else {
            rest
        }
    }
}

proof fn lemma_account_filter_push(entries: Seq<StructInfoModel>, m: StructInfoModel)
    ensures
        account_filter(entries.push(m)) == if m.is_account {
            account_filter(entries).push(m)
        } else {
            account_filter(entries)
        },
{
    assert(entries.push(m).drop_last() =~= entries);
    assert(entries.push(m).last() == m);
}

/// Whether some record in `entries` carries `name`.
pub open spec fn has_struct_name(entries: Seq<StructInfoModel>, name: Seq<char>) -> bool {
    exists|i: int| 0 <= i < entries.len() && entries[i].name == name
}

/// A name nobody carries resolves to nothing.
pub proof fn lemma_struct_lookup_none(entries: Seq<StructInfoModel>, name: Seq<char>)
    requires
        !has_struct_name(entries, name),
    ensures
        struct_lookup(entries, name) is None,
    decreases entries.len(),
{
    if entries.len() > 0 {
        assert(entries.last() == entries[entries.len() - 1]);
        assert forall|i: int|
            0 <= i < entries.drop_last().len() implies entries.drop_last()[i].name != name by {
            assert(entries.drop_last()[i] == entries[i]);
        }
        lemma_struct_lookup_none(entries.drop_last(), name);
    }
}

/// Looking a name up in an appended table reads the right-hand part
/// first: the last record wins.
pub proof fn lemma_struct_lookup_append(
    a: Seq<StructInfoModel>,
    b: Seq<StructInfoModel>,
    name: Seq<char>,
)
    ensures
        struct_lookup(a + b, name) == if has_struct_name(b, name) {
            struct_lookup(b, name)
        } else {
            struct_lookup(a, name)
        },
    decreases b.len(),
{
    if b.len() == 0 {
        assert(a + b =~= a);
        assert(!has_struct_name(b, name));
    } else {
        assert((a + b).last() == b.last());
        assert((a + b).drop_last() =~= a + b.drop_last());
        if b.last().name == name {
            assert(has_struct_name(b, name)) by {
                assert(b[b.len() - 1].name == name);
            }
        } else {
            lemma_struct_lookup_append(a, b.drop_last(), name);
            assert(has_struct_name(b.drop_last(), name) == has_struct_name(b, name)) by {
                if has_struct_name(b, name) {
                    let i = choose|i: int| 0 <= i < b.len() && b[i].name == name;
                    assert(i < b.len() - 1);
                    assert(b.drop_last()[i].name == name);
                }
                if has_struct_name(b.drop_last(), name) {
                    let i = choose|i: int|
                        0 <= i < b.drop_last().len() && b.drop_last()[i].name == name;
                    assert(b[i].name == name);
                }
            }
        }
    }
}

/// Indexing two files in either order resolves a struct name defined in
/// at most one of them to the same record: the index is order-independent
/// for uniquely named structs.
pub proof fn lemma_index_order_independence(
    path_a: Seq<char>,
    items_a: Seq<Item>,
    path_b: Seq<char>,
    items_b: Seq<Item>,
    name: Seq<char>,
)
    requires
        !(has_struct_name(file_struct_models(path_a, items_a), name) && has_struct_name(
            file_struct_models(path_b, items_b),
            name,
        )),
    ensures
        struct_lookup(
            file_struct_models(path_a, items_a) + file_struct_models(path_b, items_b),
            name,
        ) == struct_lookup(
            file_struct_models(path_b, items_b) + file_struct_models(path_a, items_a),
            name,
        ),
{
    let a = file_struct_models(path_a, items_a);
    let b = file_struct_models(path_b, items_b);
    lemma_struct_lookup_append(a, b, name);
    lemma_struct_lookup_append(b, a, name);
    if !has_struct_name(a, name) && !has_struct_name(b, name) {
        lemma_struct_lookup_none(a, name);
        lemma_struct_lookup_none(b, name);
    }
}

/// The accounts-only map holds exactly the account-marked records of the
/// general map, in indexing order. Holds of a fresh index and preserved
/// by every indexed file.
pub open spec fn accounts_consistent(m: ProgramContextModel) -> bool {
    m.accounts == account_filter(m.structs)
}

/// A fresh index is consistent, and indexing one more file preserves
/// consistency.
pub proof fn lemma_index_preserves_consistency(
    pre: ProgramContextModel,
    post: ProgramContextModel,
    path: Seq<char>,
    items: Seq<Item>,
)
    requires
        accounts_consistent(pre),
        post.structs == pre.structs + file_struct_models(path, items),
        post.accounts == pre.accounts + account_filter(file_struct_models(path, items)),
    ensures
        accounts_consistent(post),
{
    lemma_account_filter_append(pre.structs, file_struct_models(path, items));
}

/// A struct that resolves to an account-marked record is retrievable
/// from the accounts-only map, and resolves there to the same record.
pub proof fn lemma_account_struct_in_accounts(
    m: ProgramContextModel,
    name: Seq<char>,
    si: StructInfoModel,
)
    requires
        accounts_consistent(m),
        struct_lookup(m.structs, name) == Some(si),
        si.is_account,
    ensures
        struct_lookup(m.accounts, name) == Some(si),
{
    lemma_lookup_account_filter(m.structs, name, si);
}

proof fn lemma_lookup_account_filter(
    entries: Seq<StructInfoModel>,
    name: Seq<char>,
    si: StructInfoModel,
)
    requires
        struct_lookup(entries, name) == Some(si),
        si.is_account,
    ensures
        struct_lookup(account_filter(entries), name) == Some(si),
    decreases entries.len(),
{
    if entries.len() > 0 {
        if entries.last().name == name {
            assert(account_filter(entries).last() == entries.last());
        } else {
            lemma_lookup_account_filter(entries.drop_last(), name, si);
            if entries.last().is_account {
                assert(account_filter(entries).drop_last() =~= account_filter(
                    entries.drop_last(),
                ));
            }
        }
    }
}

/// A name carried only by records that are not account-marked resolves
/// to nothing in the accounts-only map: a plain struct is retrievable
/// only from the general map.
pub proof fn lemma_plain_struct_not_in_accounts(entries: Seq<StructInfoModel>, name: Seq<char>)
    requires
        forall|i: int|
            0 <= i < entries.len() && entries[i].name == name ==> !entries[i].is_account,
    ensures
        struct_lookup(account_filter(entries), name) is None,
    decreases entries.len(),
{
    if entries.len() == 0 {
    } else {
        assert forall|i: int|
            0 <= i < entries.drop_last().len() && entries.drop_last()[i].name == name
            implies !entries.drop_last()[i].is_account by {
            assert(entries.drop_last()[i] == entries[i]);
        }
        lemma_plain_struct_not_in_accounts(entries.drop_last(), name);
        if entries.last().is_account {
            assert(entries.last() == entries[entries.len() - 1]);
            assert(entries.last().name != name);
            assert(account_filter(entries).drop_last() =~= account_filter(entries.drop_last()));
        }
    }
}

proof fn lemma_account_filter_append(a: Seq<StructInfoModel>, b: Seq<StructInfoModel>)
    ensures
        account_filter(a + b) == account_filter(a) + account_filter(b),
    decreases b.len(),
{
    if b.len() == 0 {
        assert(a + b =~= a);
        assert(account_filter(a) + account_filter(b) =~= account_filter(a));
    } else {
        lemma_account_filter_append(a, b.drop_last());
        assert((a + b).drop_last() =~= a + b.drop_last());
        assert((a + b).last() == b.last());
        if b.last().is_account {
            assert(account_filter(a) + account_filter(b) =~= (account_filter(a) + account_filter(
                b.drop_last(),
            )).push(b.last()));
        }
    }
}

} // verus!
