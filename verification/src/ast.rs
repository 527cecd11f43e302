//! The tagged-union program tree the engines walk.
//!
//! An external parser front end turns concrete syntax into this tree; the
//! engines dispatch on node tags with explicit recursive descent. Only the
//! shapes the analyses read are represented; anything else collapses to
//! [`Expr::Other`] or [`Item::Other`].

use vstd::prelude::*;

verus! {

/// An expression node.
pub enum Expr {
    /// A possibly qualified name; the path segments in order.
    Path(Vec<String>),
    /// Field access `base.field`.
    Field(Box<Expr>, String),
    /// A binary operation `left op right`; the operator does not matter
    /// to the analyses.
    Binary(Box<Expr>, Box<Expr>),
    /// A literal constant.
    Lit,
    /// A call `callee(args)`; the callee path rendered as text.
    Call(String, Vec<Expr>),
    /// A method call `receiver.method(args)`.
    MethodCall(Box<Expr>, String, Vec<Expr>),
    /// A parenthesised expression.
    Paren(Box<Expr>),
    /// A unary operation.
    Unary(Box<Expr>),
    /// A macro invocation `name!(tokens)`, with the raw argument tokens.
    Macro(String, String),
    /// An assignment `name = value` to a plain name.
    Assign(String, Box<Expr>),
    /// A conditional with condition, `then` branch and optional `else` branch.
    If(Box<Expr>, Vec<Stmt>, Option<Vec<Stmt>>),
    /// Any loop; the header expression (iterator or condition), if one
    /// exists, and the body.
    Loop(Option<Box<Expr>>, Vec<Stmt>),
    /// A nested block.
    Block(Vec<Stmt>),
    /// Any other expression.
    Other,
}

/// A statement node.
pub enum Stmt {
    /// A binding `let name = init;`.
    Let(String, Option<Expr>),
    /// An expression statement.
    Expr(Expr),
}

/// A formal parameter of a function.
pub struct Param {
    /// Parameter name.
    pub name: String,
    /// Declared type, rendered as text.
    pub ty: String,
}

/// A function definition.
pub struct FnDecl {
    /// Function name.
    pub name: String,
    /// Formal parameters in order.
    pub params: Vec<Param>,
    /// The statements of the body.
    pub body: Vec<Stmt>,
}

/// A named field of a struct definition.
pub struct FieldDecl {
    /// Field name.
    pub name: String,
    /// Declared type, rendered as text.
    pub ty: String,
}

/// A struct definition.
pub struct StructItem {
    /// Struct name.
    pub name: String,
    /// Each attribute on the struct, rendered as text.
    pub attrs: Vec<String>,
    /// The named fields in order.
    pub fields: Vec<FieldDecl>,
}

/// The initializer of a constant, kept only as far as constant folding
/// can read it: literals, casts, parentheses and unary negation.
pub enum ConstExpr {
    /// An integer literal.
    IntLit(i128),
    /// A cast `inner as Type`.
    Cast(Box<ConstExpr>),
    /// A parenthesised initializer.
    Paren(Box<ConstExpr>),
    /// A negation `-inner`.
    Neg(Box<ConstExpr>),
    /// Anything else; it cannot be folded.
    Opaque,
}

/// A constant definition.
pub struct ConstItem {
    /// Constant name.
    pub name: String,
    /// The initializer, as far as folding reads it.
    pub expr: ConstExpr,
    /// The initializer rendered as text.
    pub raw: String,
}

/// A top-level item of a source file.
pub enum Item {
    /// A struct definition.
    Struct(StructItem),
    /// A constant definition.
    Const(ConstItem),
    /// A function definition.
    Fn(FnDecl),
    /// An inline module and its items.
    Mod(Vec<Item>),
    /// Any other item.
    Other,
}

/// A parsed source file.
pub struct SourceFile {
    /// The top-level items in order.
    pub items: Vec<Item>,
}

} // verus!
