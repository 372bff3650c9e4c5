//! The library's own model of a parsed Rust source file.
//!
//! It holds, as plain values, what the analyses read of a syntax tree: the
//! items of the file, the statements and expressions of function bodies, the
//! types of struct and enum fields, attributes of structs and enums, and the
//! source lines that findings report.  Nodes the analyses do not tell apart
//! are kept as `Other`, with their nested expressions, blocks, items, macros
//! and types in walk order.  `parse` builds this model from source text.
use vstd::prelude::*;

verus! {

/// A parsed source file: its items, in order.
pub struct SourceFile {
    pub items: Vec<ItemNode>,
}

/// An attribute such as `#[contracttype]`.
pub struct AttributeNode {
    /// Whether the attribute is a bare path (no arguments, no `= value`).
    pub is_bare_path: bool,
    /// The identifiers of the attribute's path segments.
    pub path: Vec<String>,
}

/// What follows a path segment's identifier.
pub enum SegmentArgs {
    /// Nothing: `Foo`.
    Bare,
    /// Angle-bracketed arguments: `Vec<u32>`.
    Angle(Vec<GenericArg>),
    /// Parenthesized arguments, as in `Fn(A) -> B`, as nested parts.
    Paren(Vec<Part>),
}

/// One argument in angle brackets.
pub enum GenericArg {
    /// A type argument.
    Type(TypeNode),
    /// A lifetime, const, binding or constraint argument, as nested parts.
    Other(Vec<Part>),
}

/// A segment of a path.
pub struct SegmentNode {
    pub ident: String,
    pub args: SegmentArgs,
}

/// A path such as `std::vec::Vec<u8>`.
pub struct SynPath {
    pub leading_colon: bool,
    pub segments: Vec<SegmentNode>,
}

/// A type.
pub enum TypeNode {
    /// A path type, with the parts of a qualified self type first.
    Path { qself: Vec<Part>, path: SynPath },
    /// An array type `[elem; len]`.
    Array { elem: Box<TypeNode>, len: Box<ExprNode> },
    /// Any other type, as its nested parts.
    Other(Vec<Part>),
}

/// A macro invocation.
pub struct MacroCall {
    pub path: SynPath,
    /// The line on which the macro path starts.
    pub line: usize,
}

/// A literal.
pub enum LitNode {
    /// A string literal.
    Str,
    /// An integer literal, with its value when that value fits in `usize`.
    Int { value: Option<usize> },
    /// Any other literal.
    Other,
}

/// A binary operator, as far as the analyses tell operators apart.
#[derive(PartialEq, Eq, Structural, Clone, Copy, Debug)]
pub enum BinOpKind {
    Add,
    Sub,
    Mul,
    AddAssign,
    SubAssign,
    MulAssign,
    Other,
}

/// A method call `receiver.method::<..>(args)`.
pub struct MethodCall {
    pub receiver: Box<ExprNode>,
    pub method: String,
    /// The line of the method name.
    pub method_line: usize,
    /// The parts of the turbofish, if any.
    pub turbofish: Vec<Part>,
    pub args: Vec<ExprNode>,
    /// The token text of the whole call followed by `. receiver`, words
    /// separated by spaces (the text in which storage access is looked for).
    pub tokens_text: String,
}

/// A `match` arm.
pub struct ArmNode {
    /// The parts of the arm's pattern.
    pub pat: Vec<Part>,
    pub guard: Option<ExprNode>,
    pub body: ExprNode,
}

/// An expression.
pub enum ExprNode {
    /// A call `func(args)`.
    Call { func: Box<ExprNode>, args: Vec<ExprNode> },
    /// A path expression, with the parts of a qualified self type first.
    Path { qself: Vec<Part>, path: SynPath },
    /// A method call.
    MethodCall(MethodCall),
    /// A macro invocation in expression position.
    Macro(MacroCall),
    /// A block expression.
    Block(BlockNode),
    /// `if cond { .. } else ..`.
    If { cond: Box<ExprNode>, then_branch: BlockNode, else_branch: Option<Box<ExprNode>> },
    /// `match scrutinee { arms }`.
    Match { scrutinee: Box<ExprNode>, arms: Vec<ArmNode> },
    /// `left op right`, with the line on which `left` starts.
    Binary { left: Box<ExprNode>, op: BinOpKind, right: Box<ExprNode>, line: usize },
    /// A literal.
    Lit(LitNode),
    /// Any other expression, as its nested parts.
    Other(Vec<Part>),
}

/// A nested part of a node that the analyses do not take apart.
pub enum Part {
    Expr(ExprNode),
    Block(BlockNode),
    Item(ItemNode),
    Macro(MacroCall),
    Type(TypeNode),
}

/// A statement.
pub enum StmtNode {
    /// `let pat = init else diverge;`
    Local { pat: Vec<Part>, init: Option<ExprNode>, diverge: Option<ExprNode> },
    /// An item inside a block.
    Item(ItemNode),
    /// An expression statement, with or without a semicolon.
    Expr(ExprNode),
    /// A macro invocation in statement position.
    Macro(MacroCall),
}

/// A block `{ stmts }`.
pub struct BlockNode {
    pub stmts: Vec<StmtNode>,
}

/// A function with a body: a free function or a method in an impl block.
pub struct FnDef {
    pub name: String,
    /// Whether it is declared plainly `pub` (not `pub(crate)` and the like).
    pub is_pub: bool,
    /// The parts of its signature.
    pub sig: Vec<Part>,
    pub body: BlockNode,
}

/// An item in an impl block.
pub enum ImplItemNode {
    Fn(FnDef),
    /// Any other impl item, as its nested parts.
    Other(Vec<Part>),
}

/// An enum variant: the types of its fields and its discriminant.
pub struct VariantNode {
    pub fields: Vec<TypeNode>,
    pub discriminant: Option<ExprNode>,
}

/// An item.
pub enum ItemNode {
    /// An impl block: the parts of its header, then its items.
    Impl { header: Vec<Part>, items: Vec<ImplItemNode> },
    /// A free function.
    Fn(FnDef),
    /// A struct: its attributes, name, the parts of its generics and the
    /// types of its fields.
    Struct { attrs: Vec<AttributeNode>, name: String, generics: Vec<Part>, fields: Vec<TypeNode> },
    /// An enum: its attributes, name, the parts of its generics and its
    /// variants.
    Enum { attrs: Vec<AttributeNode>, name: String, generics: Vec<Part>, variants: Vec<VariantNode> },
    /// A macro invocation in item position.
    Macro(MacroCall),
    /// Any other item, as its nested parts.
    Other(Vec<Part>),
}

/// Whether `p` is the single identifier `name`, with no leading `::` and no
/// arguments (`syn::Path::is_ident`).
pub open spec fn path_is_ident(p: SynPath, name: Seq<char>) -> bool {
    &&& !p.leading_colon
    &&& p.segments@.len() == 1
    &&& p.segments@[0].args is Bare
    &&& p.segments@[0].ident@ == name
}

impl SynPath {
    /// Whether this path is the single identifier `name`.
    pub fn is_ident(&self, name: &str) -> (r: bool)
        ensures
            r == path_is_ident(*self, name@),
    {
        if self.leading_colon || self.segments.len() != 1 {
            return false;
        }
        match &self.segments[0].args {
            SegmentArgs::Bare => crate::text::same_text(self.segments[0].ident.as_str(), name),
            _ => false,
        }
    }
}

/// Whether `e` is a string literal.
pub open spec fn is_str_lit(e: ExprNode) -> bool {
    e matches ExprNode::Lit(LitNode::Str)
}

/// Whether `e` is a string literal.
pub fn is_string_literal(e: &ExprNode) -> (r: bool)
    ensures
        r == is_str_lit(*e),
{
    match e {
        ExprNode::Lit(LitNode::Str) => true,
        _ => false,
    }
}

/// Whether an attribute list marks its item `#[contracttype]`: some attribute
/// is a bare path one of whose segments is `contracttype`.
pub open spec fn spec_has_contracttype(attrs: Seq<AttributeNode>) -> bool {
    exists|i: int, j: int|
        0 <= i < attrs.len() && attrs[i].is_bare_path && 0 <= j < attrs[i].path@.len()
            && #[trigger] attrs[i].path@[j]@ == "contracttype"@
}

/// Whether the attributes mark their item `#[contracttype]`.
pub fn has_contracttype(attrs: &Vec<AttributeNode>) -> (r: bool)
    ensures
        r == spec_has_contracttype(attrs@),
{
    let mut i: usize = 0;
    while i < attrs.len()
        invariant
            i <= attrs@.len(),
            forall|a: int, b: int|
                0 <= a < i && attrs@[a].is_bare_path && 0 <= b < attrs@[a].path@.len()
                    ==> #[trigger] attrs@[a].path@[b]@ != "contracttype"@,
        decreases attrs.len() - i,
    {
        let attr = &attrs[i];
        if attr.is_bare_path {
            let mut j: usize = 0;
            while j < attr.path.len()
                invariant
                    i < attrs@.len(),
                    attr == attrs@[i as int],
                    attr.is_bare_path,
                    j <= attr.path@.len(),
                    forall|b: int| 0 <= b < j ==> #[trigger] attr.path@[b]@ != "contracttype"@,
                decreases attr.path.len() - j,
            {
                if crate::text::same_text(attr.path[j].as_str(), "contracttype") {
                    assert(attrs@[i as int].is_bare_path);
                    assert(attrs@[i as int].path@[j as int]@ == "contracttype"@);
                    assert(spec_has_contracttype(attrs@));
                    return true;
                }
                j += 1;
            }
        }
        i += 1;
    }
    false
}

} // verus!
