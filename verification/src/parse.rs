//! Reading Rust source text into the syntax model: `syn::parse_str` parses
//! the text, and the conversions below turn `syn`'s tree into the model,
//! node for node.
//!
//! Nodes that the model takes apart (items, functions, statements, calls,
//! method calls, macros, blocks, `if`, `match`, binary operations, literals,
//! paths and path and array types) are converted field by field.  Every
//! other node becomes its nested expressions, blocks, items, macros and types
//! (`Part`s), in the order in which `syn::visit` reaches them; patterns,
//! generics, signatures and paths inside such nodes are looked through for
//! those parts.  Attributes are kept only where the model holds them (on
//! structs and enums).
use vstd::prelude::*;
use crate::syntax::{
    ArmNode, AttributeNode, BinOpKind, BlockNode, ExprNode, FnDef, GenericArg, ImplItemNode, ItemNode,
    LitNode, MacroCall, MethodCall, Part, SegmentArgs, SegmentNode, SourceFile, StmtNode, SynPath,
    TypeNode, VariantNode,
};
use quote::ToTokens;
use syn::spanned::Spanned;

verus! {

#[verifier::external_type_specification]
#[verifier::external_body]
pub struct ExFile(syn::File);

#[verifier::external_type_specification]
#[verifier::external_body]
pub struct ExItem(syn::Item);

#[verifier::external_type_specification]
#[verifier::external_body]
pub struct ExItemImpl(syn::ItemImpl);

#[verifier::external_type_specification]
#[verifier::external_body]
pub struct ExItemStruct(syn::ItemStruct);

#[verifier::external_type_specification]
#[verifier::external_body]
pub struct ExItemEnum(syn::ItemEnum);

#[verifier::external_type_specification]
#[verifier::external_body]
pub struct ExItemTrait(syn::ItemTrait);

#[verifier::external_type_specification]
#[verifier::external_body]
pub struct ExImplItem(syn::ImplItem);

#[verifier::external_type_specification]
#[verifier::external_body]
pub struct ExTraitItem(syn::TraitItem);

#[verifier::external_type_specification]
#[verifier::external_body]
pub struct ExVariant(syn::Variant);

#[verifier::external_type_specification]
#[verifier::external_body]
pub struct ExFields(syn::Fields);

#[verifier::external_type_specification]
#[verifier::external_body]
pub struct ExAttribute(syn::Attribute);

#[verifier::external_type_specification]
#[verifier::external_body]
pub struct ExVisibility(syn::Visibility);

#[verifier::external_type_specification]
#[verifier::external_body]
pub struct ExSignature(syn::Signature);

#[verifier::external_type_specification]
#[verifier::external_body]
pub struct ExFnArg(syn::FnArg);

#[verifier::external_type_specification]
#[verifier::external_body]
pub struct ExReturnType(syn::ReturnType);

#[verifier::external_type_specification]
#[verifier::external_body]
pub struct ExGenerics(syn::Generics);

#[verifier::external_type_specification]
#[verifier::external_body]
pub struct ExGenericParam(syn::GenericParam);

#[verifier::external_type_specification]
#[verifier::external_body]
pub struct ExWherePredicate(syn::WherePredicate);

#[verifier::external_type_specification]
#[verifier::external_body]
pub struct ExTypeParamBound(syn::TypeParamBound);

#[verifier::external_type_specification]
#[verifier::external_body]
pub struct ExPath(syn::Path);

#[verifier::external_type_specification]
#[verifier::external_body]
pub struct ExPathSegment(syn::PathSegment);

#[verifier::external_type_specification]
#[verifier::external_body]
pub struct ExPathArguments(syn::PathArguments);

#[verifier::external_type_specification]
#[verifier::external_body]
pub struct ExAngleArgs(syn::AngleBracketedGenericArguments);

#[verifier::external_type_specification]
#[verifier::external_body]
pub struct ExGenericArgument(syn::GenericArgument);

#[verifier::external_type_specification]
#[verifier::external_body]
pub struct ExQSelf(syn::QSelf);

#[verifier::external_type_specification]
#[verifier::external_body]
pub struct ExMacro(syn::Macro);

#[verifier::external_type_specification]
#[verifier::external_body]
pub struct ExType(syn::Type);

#[verifier::external_type_specification]
#[verifier::external_body]
pub struct ExBlock(syn::Block);

#[verifier::external_type_specification]
#[verifier::external_body]
pub struct ExStmt(syn::Stmt);

#[verifier::external_type_specification]
#[verifier::external_body]
pub struct ExLocal(syn::Local);

#[verifier::external_type_specification]
#[verifier::external_body]
pub struct ExExpr(syn::Expr);

#[verifier::external_type_specification]
#[verifier::external_body]
pub struct ExExprMethodCall(syn::ExprMethodCall);

#[verifier::external_type_specification]
#[verifier::external_body]
pub struct ExExprIf(syn::ExprIf);

#[verifier::external_type_specification]
#[verifier::external_body]
pub struct ExExprMatch(syn::ExprMatch);

#[verifier::external_type_specification]
#[verifier::external_body]
pub struct ExExprBinary(syn::ExprBinary);

#[verifier::external_type_specification]
#[verifier::external_body]
pub struct ExExprClosure(syn::ExprClosure);

#[verifier::external_type_specification]
#[verifier::external_body]
pub struct ExExprStruct(syn::ExprStruct);

#[verifier::external_type_specification]
#[verifier::external_body]
pub struct ExArm(syn::Arm);

#[verifier::external_type_specification]
#[verifier::external_body]
pub struct ExBinOp(syn::BinOp);

#[verifier::external_type_specification]
#[verifier::external_body]
pub struct ExLit(syn::Lit);

#[verifier::external_type_specification]
#[verifier::external_body]
pub struct ExPat(syn::Pat);

/// The syntax model of `source` as `syn::parse_str::<syn::File>` reads it
/// and the conversions of this module turn it into the model; `None` when
/// `syn` rejects the text.
pub uninterp spec fn parsed_file(source: Seq<char>) -> Option<SourceFile>;

/// Parses `source` with `syn::parse_str::<syn::File>` and converts the tree
/// into the syntax model (`file_model`); `None` when the text does not
/// parse.  Nothing is stated of the model beyond its name: it depends on
/// the text alone.  Line numbers count from 1 within `source`.  Like `syn`'s
/// parser, the conversion recurses once per level of nesting, so nothing is
/// stated of text nested deeply enough to exhaust the stack.
#[verifier::external_body]
pub(crate) fn parse_file(source: &str) -> (r: Option<SourceFile>)
    ensures
        r == parsed_file(source@),
{
    match syn::parse_str::<syn::File>(source) {
        Ok(file) => Some(file_model(&file)),
        Err(_) => None,
    }
}

/// Two lists of parts, one after the other.
fn joined(a: Vec<Part>, b: Vec<Part>) -> (r: Vec<Part>)
    ensures
        r@ == a@ + b@,
{
    let mut a = a;
    let mut b = b;
    a.append(&mut b);
    a
}

/// An expression as a nested part.
fn expr_part(e: &syn::Expr) -> Part {
    Part::Expr(expr_model(e))
}

/// A type as a nested part.
fn type_part(t: &syn::Type) -> Part {
    Part::Type(type_model(t))
}

/// A block as a nested part.
fn block_part(b: &syn::Block) -> Part {
    Part::Block(block_model(b))
}

/// The parts of a path with its qualified self type, if any.
fn qpath_parts(q: &Option<syn::QSelf>, p: &syn::Path) -> Vec<Part> {
    joined(qself_parts(q), path_parts(p))
}

/// A macro invocation as a nested part.
fn macro_part(m: &syn::Macro) -> Part {
    Part::Macro(macro_model(m))
}

/// Converts a `syn::File`: its items, in order.
#[verifier::external_body]
fn file_model(f: &syn::File) -> SourceFile {
    SourceFile { items: f.items.iter().map(item_model).collect() }
}

/// Converts a `syn::Item`, one arm per variant the model tells apart.
#[verifier::external_body]
fn item_model(i: &syn::Item) -> ItemNode {
    match i {
        syn::Item::Impl(imp) => impl_model(imp),
        syn::Item::Fn(f) => ItemNode::Fn(fn_model(&f.vis, &f.sig, &f.block)),
        syn::Item::Struct(s) => struct_model(s),
        syn::Item::Enum(e) => enum_model(e),
        syn::Item::Macro(m) => ItemNode::Macro(macro_model(&m.mac)),
        other => ItemNode::Other(item_parts(other)),
    }
}

/// Converts a `syn::ItemImpl`: the parts of its generics, trait path and
/// self type, then its items.
#[verifier::external_body]
fn impl_model(imp: &syn::ItemImpl) -> ItemNode {
    let mut header = generics_parts(&imp.generics);
    if let Some((_, path, _)) = &imp.trait_ {
        header.extend(path_parts(path));
    }
    header.push(type_part(&imp.self_ty));
    ItemNode::Impl { header, items: imp.items.iter().map(impl_item_model).collect() }
}

/// Converts a `syn::ImplItem`: a method, or the parts of any other item.
#[verifier::external_body]
fn impl_item_model(it: &syn::ImplItem) -> ImplItemNode {
    match it {
        syn::ImplItem::Fn(f) => ImplItemNode::Fn(fn_model(&f.vis, &f.sig, &f.block)),
        syn::ImplItem::Const(c) => ImplItemNode::Other(
            joined(generics_parts(&c.generics), vec![type_part(&c.ty), expr_part(&c.expr)]),
        ),
        syn::ImplItem::Type(t) => ImplItemNode::Other(joined(generics_parts(&t.generics), vec![type_part(&t.ty)])),
        syn::ImplItem::Macro(m) => ImplItemNode::Other(vec![macro_part(&m.mac)]),
        _ => ImplItemNode::Other(Vec::new()),
    }
}

/// Converts a function: its name, whether it is plainly `pub`, the parts of
/// its signature and its body.
#[verifier::external_body]
fn fn_model(vis: &syn::Visibility, sig: &syn::Signature, block: &syn::Block) -> FnDef {
    FnDef {
        name: sig.ident.to_string(),
        is_pub: matches!(vis, syn::Visibility::Public(_)),
        sig: signature_parts(sig),
        body: block_model(block),
    }
}

/// The parts of a `syn::Signature`: generics, inputs, output.
#[verifier::external_body]
fn signature_parts(sig: &syn::Signature) -> Vec<Part> {
    let mut parts = generics_parts(&sig.generics);
    parts.extend(sig.inputs.iter().flat_map(fn_arg_parts));
    parts.extend(return_parts(&sig.output));
    parts
}

/// The parts of a `syn::FnArg`: the receiver's type, or a pattern and type.
#[verifier::external_body]
fn fn_arg_parts(a: &syn::FnArg) -> Vec<Part> {
    match a {
        syn::FnArg::Receiver(r) => vec![type_part(&r.ty)],
        syn::FnArg::Typed(t) => joined(pat_parts(&t.pat), vec![type_part(&t.ty)]),
    }
}

/// The parts of a `syn::ReturnType`: its type, if written.
#[verifier::external_body]
fn return_parts(r: &syn::ReturnType) -> Vec<Part> {
    match r {
        syn::ReturnType::Default => Vec::new(),
        syn::ReturnType::Type(_, t) => vec![type_part(t)],
    }
}

/// The parts of `syn::Generics`: its parameters, then its where clause.
#[verifier::external_body]
fn generics_parts(g: &syn::Generics) -> Vec<Part> {
    let mut parts: Vec<Part> = g.params.iter().flat_map(generic_param_parts).collect();
    if let Some(w) = &g.where_clause {
        parts.extend(w.predicates.iter().flat_map(where_parts));
    }
    parts
}

/// The parts of a `syn::GenericParam`: bounds and default of a type
/// parameter, type and default of a const parameter.
#[verifier::external_body]
fn generic_param_parts(p: &syn::GenericParam) -> Vec<Part> {
    match p {
        syn::GenericParam::Lifetime(_) => Vec::new(),
        syn::GenericParam::Type(t) => {
            t.bounds.iter().flat_map(bound_parts).chain(t.default.iter().map(type_part)).collect()
        },
        syn::GenericParam::Const(c) => {
            std::iter::once(type_part(&c.ty)).chain(c.default.iter().map(expr_part)).collect()
        },
    }
}

/// The parts of a `syn::WherePredicate`: the bounded type and its bounds.
#[verifier::external_body]
fn where_parts(p: &syn::WherePredicate) -> Vec<Part> {
    match p {
        syn::WherePredicate::Type(t) => {
            std::iter::once(type_part(&t.bounded_ty)).chain(t.bounds.iter().flat_map(bound_parts)).collect()
        },
        _ => Vec::new(),
    }
}

/// The parts of a `syn::TypeParamBound`: those of a trait bound's path.
#[verifier::external_body]
fn bound_parts(b: &syn::TypeParamBound) -> Vec<Part> {
    match b {
        syn::TypeParamBound::Trait(t) => path_parts(&t.path),
        _ => Vec::new(),
    }
}

/// The parts of a `syn::Path`: those of each segment's arguments.
#[verifier::external_body]
fn path_parts(p: &syn::Path) -> Vec<Part> {
    p.segments.iter().flat_map(|s| path_args_parts(&s.arguments)).collect()
}

/// The parts of `syn::PathArguments`: the generic arguments, or the input
/// and output types of `Fn(..) -> ..`.
#[verifier::external_body]
fn path_args_parts(a: &syn::PathArguments) -> Vec<Part> {
    match a {
        syn::PathArguments::None => Vec::new(),
        syn::PathArguments::AngleBracketed(x) => angle_parts(x),
        syn::PathArguments::Parenthesized(x) => {
            x.inputs.iter().map(type_part).chain(return_parts(&x.output)).collect()
        },
    }
}

/// The parts of angle-bracketed generic arguments, in order.
#[verifier::external_body]
fn angle_parts(a: &syn::AngleBracketedGenericArguments) -> Vec<Part> {
    a.args.iter().flat_map(generic_arg_parts).collect()
}

/// The parts of a `syn::GenericArgument`.
#[verifier::external_body]
fn generic_arg_parts(g: &syn::GenericArgument) -> Vec<Part> {
    match g {
        syn::GenericArgument::Type(t) => vec![type_part(t)],
        syn::GenericArgument::Const(e) => vec![expr_part(e)],
        syn::GenericArgument::AssocType(a) => {
            a.generics.iter().flat_map(angle_parts).chain(std::iter::once(type_part(&a.ty))).collect()
        },
        syn::GenericArgument::AssocConst(a) => {
            a.generics.iter().flat_map(angle_parts).chain(std::iter::once(expr_part(&a.value))).collect()
        },
        syn::GenericArgument::Constraint(c) => {
            c.generics.iter().flat_map(angle_parts).chain(c.bounds.iter().flat_map(bound_parts)).collect()
        },
        _ => Vec::new(),
    }
}

/// The parts of a qualified self type, if any.
#[verifier::external_body]
fn qself_parts(q: &Option<syn::QSelf>) -> Vec<Part> {
    q.iter().map(|q| type_part(&q.ty)).collect()
}

/// Converts a `syn::Path`, segment by segment.
#[verifier::external_body]
fn path_model(p: &syn::Path) -> SynPath {
    SynPath {
        leading_colon: p.leading_colon.is_some(),
        segments: p.segments.iter().map(segment_model).collect(),
    }
}

/// Converts a `syn::PathSegment`: its identifier and arguments.
#[verifier::external_body]
fn segment_model(s: &syn::PathSegment) -> SegmentNode {
    let args = match &s.arguments {
        syn::PathArguments::None => SegmentArgs::Bare,
        syn::PathArguments::AngleBracketed(a) => SegmentArgs::Angle(
            a.args.iter().map(generic_arg_model).collect(),
        ),
        syn::PathArguments::Parenthesized(_) => SegmentArgs::Paren(path_args_parts(&s.arguments)),
    };
    SegmentNode { ident: s.ident.to_string(), args }
}

/// Converts a `syn::GenericArgument`: a type, or the parts of anything else.
#[verifier::external_body]
fn generic_arg_model(g: &syn::GenericArgument) -> GenericArg {
    match g {
        syn::GenericArgument::Type(t) => GenericArg::Type(type_model(t)),
        other => GenericArg::Other(generic_arg_parts(other)),
    }
}

/// Converts a `syn::Macro`: its path, and the line on which the path
/// starts (`proc_macro2::Span::start`).
#[verifier::external_body]
fn macro_model(m: &syn::Macro) -> MacroCall {
    MacroCall {
        path: path_model(&m.path),
        line: m.path.segments.first().map(|s| s.ident.span().start().line).unwrap_or(0),
    }
}

/// Converts a `syn::Type`: path and array types field by field, any other
/// type as its parts.
#[verifier::external_body]
fn type_model(t: &syn::Type) -> TypeNode {
    match t {
        syn::Type::Path(tp) => TypeNode::Path { qself: qself_parts(&tp.qself), path: path_model(&tp.path) },
        syn::Type::Array(a) => TypeNode::Array {
            elem: Box::new(type_model(&a.elem)),
            len: Box::new(expr_model(&a.len)),
        },
        other => TypeNode::Other(type_parts(other)),
    }
}

/// The parts of a type that is neither a path nor an array.
#[verifier::external_body]
fn type_parts(t: &syn::Type) -> Vec<Part> {
    match t {
        syn::Type::Reference(r) => vec![type_part(&r.elem)],
        syn::Type::Slice(s) => vec![type_part(&s.elem)],
        syn::Type::Ptr(p) => vec![type_part(&p.elem)],
        syn::Type::Paren(p) => vec![type_part(&p.elem)],
        syn::Type::Group(g) => vec![type_part(&g.elem)],
        syn::Type::Tuple(tu) => tu.elems.iter().map(type_part).collect(),
        syn::Type::Macro(m) => vec![macro_part(&m.mac)],
        other => type_bound_parts(other),
    }
}

/// The parts of function-pointer, `impl Trait` and `dyn Trait` types.
#[verifier::external_body]
fn type_bound_parts(t: &syn::Type) -> Vec<Part> {
    match t {
        syn::Type::ImplTrait(i) => i.bounds.iter().flat_map(bound_parts).collect(),
        syn::Type::TraitObject(o) => o.bounds.iter().flat_map(bound_parts).collect(),
        syn::Type::BareFn(f) => {
            f.inputs.iter().map(|a| type_part(&a.ty)).chain(return_parts(&f.output)).collect()
        },
        _ => Vec::new(),
    }
}

/// Converts a `syn::Block`: its statements, in order.
#[verifier::external_body]
fn block_model(b: &syn::Block) -> BlockNode {
    BlockNode { stmts: b.stmts.iter().map(stmt_model).collect() }
}

/// Converts a `syn::Stmt`, one arm per variant.
#[verifier::external_body]
fn stmt_model(s: &syn::Stmt) -> StmtNode {
    match s {
        syn::Stmt::Local(l) => local_model(l),
        syn::Stmt::Item(i) => StmtNode::Item(item_model(i)),
        syn::Stmt::Expr(e, _) => StmtNode::Expr(expr_model(e)),
        syn::Stmt::Macro(m) => StmtNode::Macro(macro_model(&m.mac)),
    }
}

/// Converts a `syn::Local`: the parts of its pattern, its initializer and
/// its `else` branch.
#[verifier::external_body]
fn local_model(l: &syn::Local) -> StmtNode {
    StmtNode::Local {
        pat: pat_parts(&l.pat),
        init: l.init.as_ref().map(|i| expr_model(&i.expr)),
        diverge: l.init.as_ref().and_then(|i| i.diverge.as_ref().map(|(_, e)| expr_model(e))),
    }
}

/// Converts a `syn::Expr`, one arm per variant the model tells apart
/// (calls, paths, method calls, macros, blocks and `if` here).
#[verifier::external_body]
fn expr_model(e: &syn::Expr) -> ExprNode {
    match e {
        syn::Expr::Call(c) => ExprNode::Call {
            func: Box::new(expr_model(&c.func)),
            args: c.args.iter().map(expr_model).collect(),
        },
        syn::Expr::Path(p) => ExprNode::Path { qself: qself_parts(&p.qself), path: path_model(&p.path) },
        syn::Expr::MethodCall(m) => ExprNode::MethodCall(method_call_model(m)),
        syn::Expr::Macro(m) => ExprNode::Macro(macro_model(&m.mac)),
        syn::Expr::Block(b) => ExprNode::Block(block_model(&b.block)),
        syn::Expr::If(i) => if_model(i),
        other => expr_model_more(other),
    }
}

/// Converts a `syn::Expr` (`match`, binary operations and literals); any
/// other expression as its parts.
#[verifier::external_body]
fn expr_model_more(e: &syn::Expr) -> ExprNode {
    match e {
        syn::Expr::Match(m) => match_model(m),
        syn::Expr::Binary(b) => binary_model(b),
        syn::Expr::Lit(l) => ExprNode::Lit(lit_model(&l.lit)),
        other => ExprNode::Other(expr_parts(other)),
    }
}

/// Converts a `syn::ExprMethodCall`.  Its token text is that of the whole
/// call followed by `. receiver` (`quote::ToTokens::to_token_stream`).
#[verifier::external_body]
fn method_call_model(m: &syn::ExprMethodCall) -> MethodCall {
    MethodCall {
        receiver: Box::new(expr_model(&m.receiver)),
        method: m.method.to_string(),
        method_line: m.method.span().start().line,
        turbofish: m.turbofish.iter().flat_map(angle_parts).collect(),
        args: m.args.iter().map(expr_model).collect(),
        tokens_text: format!("{} . receiver", m.to_token_stream()),
    }
}

/// Converts a `syn::ExprIf`.
#[verifier::external_body]
fn if_model(i: &syn::ExprIf) -> ExprNode {
    ExprNode::If {
        cond: Box::new(expr_model(&i.cond)),
        then_branch: block_model(&i.then_branch),
        else_branch: i.else_branch.as_ref().map(|(_, e)| Box::new(expr_model(e))),
    }
}

/// Converts a `syn::ExprMatch`.
#[verifier::external_body]
fn match_model(m: &syn::ExprMatch) -> ExprNode {
    ExprNode::Match { scrutinee: Box::new(expr_model(&m.expr)), arms: m.arms.iter().map(arm_model).collect() }
}

/// Converts a `syn::Arm`: the parts of its pattern, its guard and body.
#[verifier::external_body]
fn arm_model(a: &syn::Arm) -> ArmNode {
    ArmNode {
        pat: pat_parts(&a.pat),
        guard: a.guard.as_ref().map(|(_, g)| expr_model(g)),
        body: expr_model(&a.body),
    }
}

/// Converts a `syn::ExprBinary`, with the line on which its left operand
/// starts (`proc_macro2::Span::start`).
#[verifier::external_body]
fn binary_model(b: &syn::ExprBinary) -> ExprNode {
    ExprNode::Binary {
        left: Box::new(expr_model(&b.left)),
        op: bin_op_model(&b.op),
        right: Box::new(expr_model(&b.right)),
        line: b.left.span().start().line,
    }
}

/// Converts a `syn::BinOp`, one arm per operator the model tells apart.
#[verifier::external_body]
fn bin_op_model(op: &syn::BinOp) -> BinOpKind {
    match op {
        syn::BinOp::Add(_) => BinOpKind::Add,
        syn::BinOp::Sub(_) => BinOpKind::Sub,
        syn::BinOp::Mul(_) => BinOpKind::Mul,
        syn::BinOp::AddAssign(_) => BinOpKind::AddAssign,
        syn::BinOp::SubAssign(_) => BinOpKind::SubAssign,
        syn::BinOp::MulAssign(_) => BinOpKind::MulAssign,
        _ => BinOpKind::Other,
    }
}

/// Converts a `syn::Lit`: an integer literal with its value when
/// `base10_parse::<usize>` accepts it.
#[verifier::external_body]
fn lit_model(l: &syn::Lit) -> LitNode {
    match l {
        syn::Lit::Str(_) => LitNode::Str,
        syn::Lit::Int(i) => LitNode::Int { value: i.base10_parse::<usize>().ok() },
        _ => LitNode::Other,
    }
}

/// The parts of an expression the model does not take apart (first group
/// of variants).
#[verifier::external_body]
fn expr_parts(e: &syn::Expr) -> Vec<Part> {
    match e {
        syn::Expr::Array(a) => a.elems.iter().map(expr_part).collect(),
        syn::Expr::Assign(a) => vec![expr_part(&a.left), expr_part(&a.right)],
        syn::Expr::Async(a) => vec![block_part(&a.block)],
        syn::Expr::Await(a) => vec![expr_part(&a.base)],
        syn::Expr::Break(b) => b.expr.iter().map(|x| expr_part(x)).collect(),
        syn::Expr::Cast(c) => vec![expr_part(&c.expr), type_part(&c.ty)],
        syn::Expr::Closure(c) => closure_parts(c),
        other => expr_parts_more(other),
    }
}

/// The parts of an expression (second group of variants).
#[verifier::external_body]
fn expr_parts_more(e: &syn::Expr) -> Vec<Part> {
    match e {
        syn::Expr::Const(c) => vec![block_part(&c.block)],
        syn::Expr::Field(f) => vec![expr_part(&f.base)],
        syn::Expr::ForLoop(f) => joined(pat_parts(&f.pat), vec![expr_part(&f.expr), block_part(&f.body)]),
        syn::Expr::Group(g) => vec![expr_part(&g.expr)],
        syn::Expr::Index(i) => vec![expr_part(&i.expr), expr_part(&i.index)],
        syn::Expr::Let(l) => joined(pat_parts(&l.pat), vec![expr_part(&l.expr)]),
        other => expr_parts_rest(other),
    }
}

/// The parts of an expression (third group of variants).
#[verifier::external_body]
fn expr_parts_rest(e: &syn::Expr) -> Vec<Part> {
    match e {
        syn::Expr::Loop(l) => vec![block_part(&l.body)],
        syn::Expr::Paren(p) => vec![expr_part(&p.expr)],
        syn::Expr::Range(r) => r.start.iter().chain(r.end.iter()).map(|x| expr_part(x)).collect(),
        syn::Expr::RawAddr(r) => vec![expr_part(&r.expr)],
        syn::Expr::Reference(r) => vec![expr_part(&r.expr)],
        syn::Expr::Repeat(r) => vec![expr_part(&r.expr), expr_part(&r.len)],
        other => expr_parts_next(other),
    }
}

/// The parts of an expression (fourth group of variants).
#[verifier::external_body]
fn expr_parts_next(e: &syn::Expr) -> Vec<Part> {
    match e {
        syn::Expr::Return(r) => r.expr.iter().map(|x| expr_part(x)).collect(),
        syn::Expr::Struct(s) => struct_expr_parts(s),
        syn::Expr::Try(t) => vec![expr_part(&t.expr)],
        syn::Expr::TryBlock(t) => vec![block_part(&t.block)],
        syn::Expr::Tuple(t) => t.elems.iter().map(expr_part).collect(),
        syn::Expr::Unary(u) => vec![expr_part(&u.expr)],
        other => expr_parts_last(other),
    }
}

/// The parts of an expression (last group of variants).
#[verifier::external_body]
fn expr_parts_last(e: &syn::Expr) -> Vec<Part> {
    match e {
        syn::Expr::Unsafe(u) => vec![block_part(&u.block)],
        syn::Expr::While(w) => vec![expr_part(&w.cond), block_part(&w.body)],
        syn::Expr::Yield(y) => y.expr.iter().map(|x| expr_part(x)).collect(),
        _ => Vec::new(),
    }
}

/// The parts of a `syn::ExprClosure`: its input patterns, output type and
/// body.
#[verifier::external_body]
fn closure_parts(c: &syn::ExprClosure) -> Vec<Part> {
    let mut parts: Vec<Part> = c.inputs.iter().flat_map(pat_parts).collect();
    parts.extend(return_parts(&c.output));
    parts.push(expr_part(&c.body));
    parts
}

/// The parts of a `syn::ExprStruct`: its path, field values and base.
#[verifier::external_body]
fn struct_expr_parts(s: &syn::ExprStruct) -> Vec<Part> {
    let mut parts = qpath_parts(&s.qself, &s.path);
    parts.extend(s.fields.iter().map(|f| expr_part(&f.expr)));
    parts.extend(s.rest.iter().map(|r| expr_part(r)));
    parts
}

/// The parts of a `syn::Pat` (first group of variants).
#[verifier::external_body]
fn pat_parts(p: &syn::Pat) -> Vec<Part> {
    match p {
        syn::Pat::Const(c) => vec![block_part(&c.block)],
        syn::Pat::Ident(i) => i.subpat.iter().flat_map(|(_, s)| pat_parts(s)).collect(),
        syn::Pat::Macro(m) => vec![macro_part(&m.mac)],
        syn::Pat::Or(o) => o.cases.iter().flat_map(pat_parts).collect(),
        syn::Pat::Paren(x) => pat_parts(&x.pat),
        syn::Pat::Path(x) => qpath_parts(&x.qself, &x.path),
        other => pat_parts_more(other),
    }
}

/// The parts of a `syn::Pat` (second group of variants).
#[verifier::external_body]
fn pat_parts_more(p: &syn::Pat) -> Vec<Part> {
    match p {
        syn::Pat::Range(r) => r.start.iter().chain(r.end.iter()).map(|x| expr_part(x)).collect(),
        syn::Pat::Reference(r) => pat_parts(&r.pat),
        syn::Pat::Slice(s) => s.elems.iter().flat_map(pat_parts).collect(),
        syn::Pat::Struct(s) => {
            joined(qpath_parts(&s.qself, &s.path), s.fields.iter().flat_map(|f| pat_parts(&f.pat)).collect())
        },
        other => pat_parts_last(other),
    }
}

/// The parts of a `syn::Pat` (last group of variants).
#[verifier::external_body]
fn pat_parts_last(p: &syn::Pat) -> Vec<Part> {
    match p {
        syn::Pat::Tuple(t) => t.elems.iter().flat_map(pat_parts).collect(),
        syn::Pat::TupleStruct(t) => {
            joined(qpath_parts(&t.qself, &t.path), t.elems.iter().flat_map(pat_parts).collect())
        },
        syn::Pat::Type(t) => joined(pat_parts(&t.pat), vec![type_part(&t.ty)]),
        _ => Vec::new(),
    }
}

/// Converts a `syn::ItemStruct`: attributes, name, generics parts and
/// field types.
#[verifier::external_body]
fn struct_model(s: &syn::ItemStruct) -> ItemNode {
    ItemNode::Struct {
        attrs: attrs_model(&s.attrs),
        name: s.ident.to_string(),
        generics: generics_parts(&s.generics),
        fields: fields_model(&s.fields),
    }
}

/// Converts a `syn::ItemEnum`: attributes, name, generics parts and
/// variants.
#[verifier::external_body]
fn enum_model(e: &syn::ItemEnum) -> ItemNode {
    ItemNode::Enum {
        attrs: attrs_model(&e.attrs),
        name: e.ident.to_string(),
        generics: generics_parts(&e.generics),
        variants: e.variants.iter().map(variant_model).collect(),
    }
}

/// Converts a `syn::Variant`: its field types and discriminant.
#[verifier::external_body]
fn variant_model(v: &syn::Variant) -> VariantNode {
    VariantNode {
        fields: fields_model(&v.fields),
        discriminant: v.discriminant.as_ref().map(|(_, d)| expr_model(d)),
    }
}

/// Converts `syn::Fields`: the type of each field, in order.
#[verifier::external_body]
fn fields_model(f: &syn::Fields) -> Vec<TypeNode> {
    f.iter().map(|x| type_model(&x.ty)).collect()
}

/// Converts attributes: whether each is a bare path, and its path's
/// identifiers.
#[verifier::external_body]
fn attrs_model(attrs: &Vec<syn::Attribute>) -> Vec<AttributeNode> {
    attrs.iter().map(|a| AttributeNode {
        is_bare_path: matches!(a.meta, syn::Meta::Path(_)),
        path: a.path().segments.iter().map(|s| s.ident.to_string()).collect(),
    }).collect()
}

/// The parts of an item the model does not take apart (constants,
/// statics and modules here).
#[verifier::external_body]
fn item_parts(i: &syn::Item) -> Vec<Part> {
    match i {
        syn::Item::Const(c) => joined(generics_parts(&c.generics), vec![type_part(&c.ty), expr_part(&c.expr)]),
        syn::Item::Static(s) => vec![type_part(&s.ty), expr_part(&s.expr)],
        syn::Item::Mod(m) => {
            m.content.iter().flat_map(|(_, is)| is.iter().map(|i| Part::Item(item_model(i)))).collect()
        },
        other => item_parts_more(other),
    }
}

/// The parts of an item (traits, type aliases and unions).
#[verifier::external_body]
fn item_parts_more(i: &syn::Item) -> Vec<Part> {
    match i {
        syn::Item::Trait(t) => trait_parts(t),
        syn::Item::Type(t) => joined(generics_parts(&t.generics), vec![type_part(&t.ty)]),
        syn::Item::Union(u) => {
            joined(generics_parts(&u.generics), u.fields.named.iter().map(|f| type_part(&f.ty)).collect())
        },
        _ => Vec::new(),
    }
}

/// The parts of a `syn::ItemTrait`: generics, supertraits, then its items.
#[verifier::external_body]
fn trait_parts(t: &syn::ItemTrait) -> Vec<Part> {
    let mut parts = generics_parts(&t.generics);
    parts.extend(t.supertraits.iter().flat_map(bound_parts));
    parts.extend(t.items.iter().flat_map(trait_item_parts));
    parts
}

/// The parts of a `syn::TraitItem` (constants and methods here).
#[verifier::external_body]
fn trait_item_parts(ti: &syn::TraitItem) -> Vec<Part> {
    match ti {
        syn::TraitItem::Const(c) => joined(
            joined(generics_parts(&c.generics), vec![type_part(&c.ty)]),
            c.default.iter().map(|(_, e)| expr_part(e)).collect(),
        ),
        syn::TraitItem::Fn(f) => joined(signature_parts(&f.sig), f.default.iter().map(block_part).collect()),
        other => trait_item_parts_more(other),
    }
}

/// The parts of a `syn::TraitItem` (associated types and macros).
#[verifier::external_body]
fn trait_item_parts_more(ti: &syn::TraitItem) -> Vec<Part> {
    match ti {
        syn::TraitItem::Type(t) => joined(
            joined(generics_parts(&t.generics), t.bounds.iter().flat_map(bound_parts).collect()),
            t.default.iter().map(|(_, d)| type_part(d)).collect(),
        ),
        syn::TraitItem::Macro(m) => vec![macro_part(&m.mac)],
        _ => Vec::new(),
    }
}

} // verus!
