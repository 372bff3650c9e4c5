//! A full walk of a source file's syntax tree, as the sequence of events
//! that the pattern scanners read: macro invocations, method calls, binary
//! operations, and entering and leaving functions.
use vstd::prelude::*;
use crate::occurs::{all_within, lemma_within_left, lemma_within_refl, lemma_within_right};
use crate::syntax::{
    is_str_lit, is_string_literal, path_is_ident, ArmNode, BinOpKind, BlockNode, ExprNode, FnDef, GenericArg,
    ImplItemNode, ItemNode, MacroCall, Part, SegmentNode, SegmentArgs, SourceFile, StmtNode, SynPath, TypeNode,
    VariantNode,
};

verus! {

/// What a walk of the syntax tree meets, in order.
pub enum VisitEvent {
    /// A macro invocation, whether its path is the identifier `panic`, and
    /// the line of its path.
    Macro { is_panic: bool, line: usize },
    /// A method call (met before its receiver and arguments).
    MethodCall { method: String, line: usize },
    /// A binary operation (met before its operands), and whether either
    /// operand is a string literal.
    Binary { op: BinOpKind, line: usize, string_operand: bool },
    /// Entering a function or method body.
    EnterFn(String),
    /// Leaving the function or method last entered.
    ExitFn,
}

/// The event of a macro invocation.
pub open spec fn ev_macro(m: MacroCall) -> Seq<VisitEvent> {
    seq![VisitEvent::Macro { is_panic: path_is_ident(m.path, "panic"@), line: m.line }]
}

/// The events of a function: entering it, its signature, its body, leaving.
pub open spec fn ev_fn(f: FnDef) -> Seq<VisitEvent>
    decreases f,
{
    seq![VisitEvent::EnterFn(f.name)] + ev_parts(f.sig@) + ev_block(f.body) + seq![
        VisitEvent::ExitFn,
    ]
}

/// The events of an item.
pub open spec fn ev_item(it: ItemNode) -> Seq<VisitEvent>
    decreases it,
{
    match it {
        ItemNode::Impl { header, items } => ev_parts(header@) + ev_impl_items(items@),
        ItemNode::Fn(f) => ev_fn(f),
        ItemNode::Struct { attrs, name, generics, fields } => ev_parts(generics@) + ev_types(fields@),
        ItemNode::Enum { attrs, name, generics, variants } => ev_parts(generics@) + ev_variants(
            variants@,
        ),
        ItemNode::Macro(m) => ev_macro(m),
        ItemNode::Other(parts) => ev_parts(parts@),
    }
}

/// The events of an impl item.
pub open spec fn ev_impl_item(it: ImplItemNode) -> Seq<VisitEvent>
    decreases it,
{
    match it {
        ImplItemNode::Fn(f) => ev_fn(f),
        ImplItemNode::Other(parts) => ev_parts(parts@),
    }
}

/// The events of an enum variant: its field types, then its discriminant.
pub open spec fn ev_variant(v: VariantNode) -> Seq<VisitEvent>
    decreases v,
{
    ev_types(v.fields@) + match v.discriminant {
        Some(e) => ev_expr(e),
        None => seq![],
    }
}

/// The events of a type.
pub open spec fn ev_type(t: TypeNode) -> Seq<VisitEvent>
    decreases t,
{
    match t {
        TypeNode::Path { qself, path } => ev_parts(qself@) + ev_path(path),
        TypeNode::Array { elem, len } => ev_type(*elem) + ev_expr(*len),
        TypeNode::Other(parts) => ev_parts(parts@),
    }
}

/// The events of a path: those of its segments' arguments.
pub open spec fn ev_path(p: SynPath) -> Seq<VisitEvent>
    decreases p,
{
    ev_segments(p.segments@)
}

/// The events of a path segment's arguments.
pub open spec fn ev_segment(s: SegmentNode) -> Seq<VisitEvent>
    decreases s,
{
    match s.args {
        SegmentArgs::Bare => seq![],
        SegmentArgs::Angle(a) => ev_generic_args(a@),
        SegmentArgs::Paren(parts) => ev_parts(parts@),
    }
}

/// The events of a generic argument.
pub open spec fn ev_generic_arg(g: GenericArg) -> Seq<VisitEvent>
    decreases g,
{
    match g {
        GenericArg::Type(t) => ev_type(t),
        GenericArg::Other(parts) => ev_parts(parts@),
    }
}

/// The events of an expression.
pub open spec fn ev_expr(e: ExprNode) -> Seq<VisitEvent>
    decreases e,
{
    match e {
        ExprNode::Call { func, args } => ev_expr(*func) + ev_exprs(args@),
        ExprNode::Path { qself, path } => ev_parts(qself@) + ev_path(path),
        ExprNode::MethodCall(m) => seq![
            VisitEvent::MethodCall { method: m.method, line: m.method_line },
        ] + ev_expr(*m.receiver) + ev_parts(m.turbofish@) + ev_exprs(m.args@),
        ExprNode::Macro(m) => ev_macro(m),
        ExprNode::Block(b) => ev_block(b),
        ExprNode::If { cond, then_branch, else_branch } => ev_expr(*cond) + ev_block(then_branch)
            + match else_branch {
            Some(x) => ev_expr(*x),
            None => seq![],
        },
        ExprNode::Match { scrutinee, arms } => ev_expr(*scrutinee) + ev_arms(arms@),
        ExprNode::Binary { left, op, right, line } => seq![
            VisitEvent::Binary {
                op,
                line,
                string_operand: is_str_lit(*left) || is_str_lit(*right),
            },
        ] + ev_expr(*left) + ev_expr(*right),
        ExprNode::Lit(_) => seq![],
        ExprNode::Other(parts) => ev_parts(parts@),
    }
}

/// The events of a `match` arm: its pattern, guard and body.
pub open spec fn ev_arm(a: ArmNode) -> Seq<VisitEvent>
    decreases a,
{
    ev_parts(a.pat@) + match a.guard {
        Some(g) => ev_expr(g),
        None => seq![],
    } + ev_expr(a.body)
}

/// The events of a nested part.
pub open spec fn ev_part(p: Part) -> Seq<VisitEvent>
    decreases p,
{
    match p {
        Part::Expr(e) => ev_expr(e),
        Part::Block(b) => ev_block(b),
        Part::Item(it) => ev_item(it),
        Part::Macro(m) => ev_macro(m),
        Part::Type(t) => ev_type(t),
    }
}

/// The events of a statement.
pub open spec fn ev_stmt(s: StmtNode) -> Seq<VisitEvent>
    decreases s,
{
    match s {
        StmtNode::Local { pat, init, diverge } => ev_parts(pat@) + match init {
            Some(e) => ev_expr(e),
            None => seq![],
        } + match diverge {
            Some(e) => ev_expr(e),
            None => seq![],
        },
        StmtNode::Item(it) => ev_item(it),
        StmtNode::Expr(e) => ev_expr(e),
        StmtNode::Macro(m) => ev_macro(m),
    }
}

/// The events of a block.
pub open spec fn ev_block(b: BlockNode) -> Seq<VisitEvent>
    decreases b,
{
    ev_stmts(b.stmts@)
}

/// The events of a list of items, in order.
pub open spec fn ev_items(s: Seq<ItemNode>) -> Seq<VisitEvent>
    decreases s,
{
    if s.len() == 0 { seq![] } else { ev_items(s.drop_last()) + ev_item(s.last()) }
}

/// The events of a list of impl items, in order.
pub open spec fn ev_impl_items(s: Seq<ImplItemNode>) -> Seq<VisitEvent>
    decreases s,
{
    if s.len() == 0 { seq![] } else { ev_impl_items(s.drop_last()) + ev_impl_item(s.last()) }
}

/// The events of a list of enum variants, in order.
pub open spec fn ev_variants(s: Seq<VariantNode>) -> Seq<VisitEvent>
    decreases s,
{
    if s.len() == 0 { seq![] } else { ev_variants(s.drop_last()) + ev_variant(s.last()) }
}

/// The events of a list of types, in order.
pub open spec fn ev_types(s: Seq<TypeNode>) -> Seq<VisitEvent>
    decreases s,
{
    if s.len() == 0 { seq![] } else { ev_types(s.drop_last()) + ev_type(s.last()) }
}

/// The events of a list of path segments, in order.
pub open spec fn ev_segments(s: Seq<SegmentNode>) -> Seq<VisitEvent>
    decreases s,
{
    if s.len() == 0 { seq![] } else { ev_segments(s.drop_last()) + ev_segment(s.last()) }
}

/// The events of a list of generic arguments, in order.
pub open spec fn ev_generic_args(s: Seq<GenericArg>) -> Seq<VisitEvent>
    decreases s,
{
    if s.len() == 0 { seq![] } else { ev_generic_args(s.drop_last()) + ev_generic_arg(s.last()) }
}

/// The events of a list of expressions, in order.
pub open spec fn ev_exprs(s: Seq<ExprNode>) -> Seq<VisitEvent>
    decreases s,
{
    if s.len() == 0 { seq![] } else { ev_exprs(s.drop_last()) + ev_expr(s.last()) }
}

/// The events of a list of `match` arms, in order.
pub open spec fn ev_arms(s: Seq<ArmNode>) -> Seq<VisitEvent>
    decreases s,
{
    if s.len() == 0 { seq![] } else { ev_arms(s.drop_last()) + ev_arm(s.last()) }
}

/// The events of a list of nested parts, in order.
pub open spec fn ev_parts(s: Seq<Part>) -> Seq<VisitEvent>
    decreases s,
{
    if s.len() == 0 { seq![] } else { ev_parts(s.drop_last()) + ev_part(s.last()) }
}

/// The events of a list of statements, in order.
pub open spec fn ev_stmts(s: Seq<StmtNode>) -> Seq<VisitEvent>
    decreases s,
{
    if s.len() == 0 { seq![] } else { ev_stmts(s.drop_last()) + ev_stmt(s.last()) }
}

/// The events of a whole file.
pub open spec fn ev_file(f: SourceFile) -> Seq<VisitEvent> {
    ev_items(f.items@)
}

fn push_macro(m: &MacroCall, out: &mut Vec<VisitEvent>)
    ensures
        final(out)@ == old(out)@ + ev_macro(*m),
{
    let is_panic = m.path.is_ident("panic");
    out.push(VisitEvent::Macro { is_panic, line: m.line });
    assert(out@ =~= old(out)@ + ev_macro(*m));
}

fn walk_fn(f: &FnDef, out: &mut Vec<VisitEvent>)
    ensures
        final(out)@ == old(out)@ + ev_fn(*f),
    decreases f, 0nat,
{
    out.push(VisitEvent::EnterFn(f.name.clone()));
    let ghost o1 = out@;
    walk_parts(&f.sig, out);
    walk_block(&f.body, out);
    out.push(VisitEvent::ExitFn);
    assert(out@ =~= old(out)@ + ev_fn(*f));
}

fn walk_item(it: &ItemNode, out: &mut Vec<VisitEvent>)
    ensures
        final(out)@ == old(out)@ + ev_item(*it),
    decreases it, 0nat,
{
    match it {
        ItemNode::Impl { header, items } => {
            walk_parts(header, out);
            walk_impl_items(items, out);
        },
        ItemNode::Fn(f) => walk_fn(f, out),
        ItemNode::Struct { attrs, name, generics, fields } => {
            walk_parts(generics, out);
            walk_types(fields, out);
        },
        ItemNode::Enum { attrs, name, generics, variants } => {
            walk_parts(generics, out);
            walk_variants(variants, out);
        },
        ItemNode::Macro(m) => push_macro(m, out),
        ItemNode::Other(parts) => walk_parts(parts, out),
    }
    assert(out@ =~= old(out)@ + ev_item(*it));
}

fn walk_type(t: &TypeNode, out: &mut Vec<VisitEvent>)
    ensures
        final(out)@ == old(out)@ + ev_type(*t),
    decreases t, 0nat,
{
    match t {
        TypeNode::Path { qself, path } => {
            walk_parts(qself, out);
            walk_segments(&path.segments, out);
            assert(ev_path(*path) == ev_segments(path.segments@));
        },
        TypeNode::Array { elem, len } => {
            walk_type(elem, out);
            walk_expr(len, out);
        },
        TypeNode::Other(parts) => walk_parts(parts, out),
    }
    assert(out@ =~= old(out)@ + ev_type(*t));
}

fn walk_segment(s: &SegmentNode, out: &mut Vec<VisitEvent>)
    ensures
        final(out)@ == old(out)@ + ev_segment(*s),
    decreases s, 0nat,
{
    match &s.args {
        SegmentArgs::Bare => {},
        SegmentArgs::Angle(a) => walk_generic_args(a, out),
        SegmentArgs::Paren(parts) => walk_parts(parts, out),
    }
    assert(out@ =~= old(out)@ + ev_segment(*s));
}

fn walk_expr(e: &ExprNode, out: &mut Vec<VisitEvent>)
    ensures
        final(out)@ == old(out)@ + ev_expr(*e),
    decreases e, 0nat,
{
    match e {
        ExprNode::Call { func, args } => {
            walk_expr(func, out);
            walk_exprs(args, out);
        },
        ExprNode::Path { qself, path } => {
            walk_parts(qself, out);
            walk_segments(&path.segments, out);
            assert(ev_path(*path) == ev_segments(path.segments@));
        },
        ExprNode::MethodCall(m) => {
            out.push(VisitEvent::MethodCall { method: m.method.clone(), line: m.method_line });
            walk_expr(&m.receiver, out);
            walk_parts(&m.turbofish, out);
            walk_exprs(&m.args, out);
        },
        ExprNode::Macro(m) => push_macro(m, out),
        ExprNode::Block(b) => walk_block(b, out),
        ExprNode::If { cond, then_branch, else_branch } => {
            walk_expr(cond, out);
            walk_block(then_branch, out);
            if let Some(x) = else_branch {
                walk_expr(x, out);
            }
        },
        ExprNode::Match { scrutinee, arms } => {
            walk_expr(scrutinee, out);
            walk_arms(arms, out);
        },
        ExprNode::Binary { left, op, right, line } => {
            let string_operand = is_string_literal(left) || is_string_literal(right);
            out.push(VisitEvent::Binary { op: *op, line: *line, string_operand });
            walk_expr(left, out);
            walk_expr(right, out);
        },
        ExprNode::Lit(_) => {},
        ExprNode::Other(parts) => walk_parts(parts, out),
    }
    assert(out@ =~= old(out)@ + ev_expr(*e));
}

fn walk_part(p: &Part, out: &mut Vec<VisitEvent>)
    ensures
        final(out)@ == old(out)@ + ev_part(*p),
    decreases p, 0nat,
{
    match p {
        Part::Expr(e) => walk_expr(e, out),
        Part::Block(b) => walk_block(b, out),
        Part::Item(it) => walk_item(it, out),
        Part::Macro(m) => push_macro(m, out),
        Part::Type(t) => walk_type(t, out),
    }
}

fn walk_stmt(s: &StmtNode, out: &mut Vec<VisitEvent>)
    ensures
        final(out)@ == old(out)@ + ev_stmt(*s),
    decreases s, 0nat,
{
    match s {
        StmtNode::Local { pat, init, diverge } => {
            walk_parts(pat, out);
            if let Some(e) = init {
                walk_expr(e, out);
            }
            if let Some(e) = diverge {
                walk_expr(e, out);
            }
        },
        StmtNode::Item(it) => walk_item(it, out),
        StmtNode::Expr(e) => walk_expr(e, out),
        StmtNode::Macro(m) => push_macro(m, out),
    }
    assert(out@ =~= old(out)@ + ev_stmt(*s));
}

fn walk_block(b: &BlockNode, out: &mut Vec<VisitEvent>)
    ensures
        final(out)@ == old(out)@ + ev_block(*b),
    decreases b, 0nat,
{
    walk_stmts(&b.stmts, out);
}

fn walk_impl_items(v: &Vec<ImplItemNode>, out: &mut Vec<VisitEvent>)
    ensures
        final(out)@ == old(out)@ + ev_impl_items(v@),
    decreases v, 0nat,
{
    let mut i: usize = 0;
    while i < v.len()
        invariant
            i <= v@.len(),
            out@ == old(out)@ + ev_impl_items(v@.take(i as int)),
        decreases v.len() - i,
    {
        assert(v@.take(i + 1).drop_last() =~= v@.take(i as int));
        assert(v@.take(i + 1).last() == v@[i as int]);
        assert(decreases_to!(*v => v@[i as int]));
        let ghost o = out@;
        match &v[i] {
            ImplItemNode::Fn(f) => walk_fn(f, out),
            ImplItemNode::Other(parts) => walk_parts(parts, out),
        }
        assert(out@ =~= o + ev_impl_item(v@[i as int]));
        i += 1;
    }
    assert(v@.take(v@.len() as int) =~= v@);
}

fn walk_variants(v: &Vec<VariantNode>, out: &mut Vec<VisitEvent>)
    ensures
        final(out)@ == old(out)@ + ev_variants(v@),
    decreases v, 0nat,
{
    let mut i: usize = 0;
    while i < v.len()
        invariant
            i <= v@.len(),
            out@ == old(out)@ + ev_variants(v@.take(i as int)),
        decreases v.len() - i,
    {
        assert(v@.take(i + 1).drop_last() =~= v@.take(i as int));
        assert(v@.take(i + 1).last() == v@[i as int]);
        assert(decreases_to!(*v => v@[i as int]));
        let ghost o = out@;
        walk_types(&v[i].fields, out);
        if let Some(d) = &v[i].discriminant {
            walk_expr(d, out);
        }
        assert(out@ =~= o + ev_variant(v@[i as int]));
        i += 1;
    }
    assert(v@.take(v@.len() as int) =~= v@);
}

fn walk_types(v: &Vec<TypeNode>, out: &mut Vec<VisitEvent>)
    ensures
        final(out)@ == old(out)@ + ev_types(v@),
    decreases v, 0nat,
{
    let mut i: usize = 0;
    while i < v.len()
        invariant
            i <= v@.len(),
            out@ == old(out)@ + ev_types(v@.take(i as int)),
        decreases v.len() - i,
    {
        assert(v@.take(i + 1).drop_last() =~= v@.take(i as int));
        assert(v@.take(i + 1).last() == v@[i as int]);
        assert(decreases_to!(*v => v@[i as int]));
        walk_type(&v[i], out);
        i += 1;
    }
    assert(v@.take(v@.len() as int) =~= v@);
}

fn walk_segments(v: &Vec<SegmentNode>, out: &mut Vec<VisitEvent>)
    ensures
        final(out)@ == old(out)@ + ev_segments(v@),
    decreases v, 0nat,
{
    let mut i: usize = 0;
    while i < v.len()
        invariant
            i <= v@.len(),
            out@ == old(out)@ + ev_segments(v@.take(i as int)),
        decreases v.len() - i,
    {
        assert(v@.take(i + 1).drop_last() =~= v@.take(i as int));
        assert(v@.take(i + 1).last() == v@[i as int]);
        assert(decreases_to!(*v => v@[i as int]));
        walk_segment(&v[i], out);
        i += 1;
    }
    assert(v@.take(v@.len() as int) =~= v@);
}

fn walk_generic_args(v: &Vec<GenericArg>, out: &mut Vec<VisitEvent>)
    ensures
        final(out)@ == old(out)@ + ev_generic_args(v@),
    decreases v, 0nat,
{
    let mut i: usize = 0;
    while i < v.len()
        invariant
            i <= v@.len(),
            out@ == old(out)@ + ev_generic_args(v@.take(i as int)),
        decreases v.len() - i,
    {
        assert(v@.take(i + 1).drop_last() =~= v@.take(i as int));
        assert(v@.take(i + 1).last() == v@[i as int]);
        assert(decreases_to!(*v => v@[i as int]));
        let ghost o = out@;
        match &v[i] {
            GenericArg::Type(t) => walk_type(t, out),
            GenericArg::Other(parts) => walk_parts(parts, out),
        }
        assert(out@ =~= o + ev_generic_arg(v@[i as int]));
        i += 1;
    }
    assert(v@.take(v@.len() as int) =~= v@);
}

fn walk_exprs(v: &Vec<ExprNode>, out: &mut Vec<VisitEvent>)
    ensures
        final(out)@ == old(out)@ + ev_exprs(v@),
    decreases v, 0nat,
{
    let mut i: usize = 0;
    while i < v.len()
        invariant
            i <= v@.len(),
            out@ == old(out)@ + ev_exprs(v@.take(i as int)),
        decreases v.len() - i,
    {
        assert(v@.take(i + 1).drop_last() =~= v@.take(i as int));
        assert(v@.take(i + 1).last() == v@[i as int]);
        assert(decreases_to!(*v => v@[i as int]));
        walk_expr(&v[i], out);
        i += 1;
    }
    assert(v@.take(v@.len() as int) =~= v@);
}

fn walk_arms(v: &Vec<ArmNode>, out: &mut Vec<VisitEvent>)
    ensures
        final(out)@ == old(out)@ + ev_arms(v@),
    decreases v, 0nat,
{
    let mut i: usize = 0;
    while i < v.len()
        invariant
            i <= v@.len(),
            out@ == old(out)@ + ev_arms(v@.take(i as int)),
        decreases v.len() - i,
    {
        assert(v@.take(i + 1).drop_last() =~= v@.take(i as int));
        assert(v@.take(i + 1).last() == v@[i as int]);
        assert(decreases_to!(*v => v@[i as int]));
        let ghost o = out@;
        walk_parts(&v[i].pat, out);
        if let Some(g) = &v[i].guard {
            walk_expr(g, out);
        }
        walk_expr(&v[i].body, out);
        assert(out@ =~= o + ev_arm(v@[i as int]));
        i += 1;
    }
    assert(v@.take(v@.len() as int) =~= v@);
}

fn walk_parts(v: &Vec<Part>, out: &mut Vec<VisitEvent>)
    ensures
        final(out)@ == old(out)@ + ev_parts(v@),
    decreases v, 0nat,
{
    let mut i: usize = 0;
    while i < v.len()
        invariant
            i <= v@.len(),
            out@ == old(out)@ + ev_parts(v@.take(i as int)),
        decreases v.len() - i,
    {
        assert(v@.take(i + 1).drop_last() =~= v@.take(i as int));
        assert(v@.take(i + 1).last() == v@[i as int]);
        assert(decreases_to!(*v => v@[i as int]));
        walk_part(&v[i], out);
        i += 1;
    }
    assert(v@.take(v@.len() as int) =~= v@);
}

fn walk_stmts(v: &Vec<StmtNode>, out: &mut Vec<VisitEvent>)
    ensures
        final(out)@ == old(out)@ + ev_stmts(v@),
    decreases v, 0nat,
{
    let mut i: usize = 0;
    while i < v.len()
        invariant
            i <= v@.len(),
            out@ == old(out)@ + ev_stmts(v@.take(i as int)),
        decreases v.len() - i,
    {
        assert(v@.take(i + 1).drop_last() =~= v@.take(i as int));
        assert(v@.take(i + 1).last() == v@[i as int]);
        assert(decreases_to!(*v => v@[i as int]));
        walk_stmt(&v[i], out);
        i += 1;
    }
    assert(v@.take(v@.len() as int) =~= v@);
}

/// The events of a whole file, in walk order.
pub fn file_events(file: &SourceFile) -> (evs: Vec<VisitEvent>)
    ensures
        evs@ == ev_file(*file),
{
    let mut out: Vec<VisitEvent> = Vec::new();
    let mut i: usize = 0;
    while i < file.items.len()
        invariant
            i <= file.items@.len(),
            out@ == ev_items(file.items@.take(i as int)),
        decreases file.items.len() - i,
    {
        assert(file.items@.take(i + 1).drop_last() =~= file.items@.take(i as int));
        assert(file.items@.take(i + 1).last() == file.items@[i as int]);
        walk_item(&file.items[i], &mut out);
        i += 1;
    }
    assert(file.items@.take(file.items@.len() as int) =~= file.items@);
    out
}


proof fn lemma_ev_exprs_within(s: Seq<ExprNode>, i: int)
    requires
        0 <= i < s.len(),
    ensures
        all_within(ev_expr(s[i]), ev_exprs(s)),
    decreases s.len(),
{
    if i == s.len() - 1 {
        lemma_within_refl(ev_expr(s[i]));
        lemma_within_right(ev_expr(s[i]), ev_exprs(s.drop_last()), ev_expr(s.last()));
    } else {
        lemma_ev_exprs_within(s.drop_last(), i);
        lemma_within_left(ev_expr(s[i]), ev_exprs(s.drop_last()), ev_expr(s.last()));
    }
}

proof fn lemma_ev_stmts_within(s: Seq<StmtNode>, i: int)
    requires
        0 <= i < s.len(),
    ensures
        all_within(ev_stmt(s[i]), ev_stmts(s)),
    decreases s.len(),
{
    if i == s.len() - 1 {
        lemma_within_refl(ev_stmt(s[i]));
        lemma_within_right(ev_stmt(s[i]), ev_stmts(s.drop_last()), ev_stmt(s.last()));
    } else {
        lemma_ev_stmts_within(s.drop_last(), i);
        lemma_within_left(ev_stmt(s[i]), ev_stmts(s.drop_last()), ev_stmt(s.last()));
    }
}

proof fn lemma_ev_arms_within(s: Seq<ArmNode>, i: int)
    requires
        0 <= i < s.len(),
    ensures
        all_within(ev_expr(s[i].body), ev_arms(s)),
    decreases s.len(),
{
    let a = s[i];
    let pre = ev_parts(a.pat@) + match a.guard {
        Some(g) => ev_expr(g),
        None => seq![],
    };
    lemma_within_refl(ev_expr(a.body));
    lemma_within_right(ev_expr(a.body), pre, ev_expr(a.body));
    assert(ev_arm(a) == pre + ev_expr(a.body));
    if i == s.len() - 1 {
        lemma_within_right(ev_expr(a.body), ev_arms(s.drop_last()), ev_arm(s.last()));
    } else {
        lemma_ev_arms_within(s.drop_last(), i);
        lemma_within_left(ev_expr(a.body), ev_arms(s.drop_last()), ev_arm(s.last()));
    }
}

/// The walk of an expression reaches every expression inside it: the
/// called expression and each argument of a call; the receiver and each
/// argument of a method call; both operands of a binary operation; the
/// condition, the `then` block and the `else` branch of an `if`; the
/// scrutinee and each arm body of a `match`; each statement of a block.
/// Every event of such a part is an event of the whole.
pub proof fn walk_reaches_subexpressions(e: ExprNode)
    ensures
        match e {
            ExprNode::Call { func, args } => all_within(ev_expr(*func), ev_expr(e)) && forall|i: int|
                0 <= i < args@.len() ==> all_within(ev_expr(#[trigger] args@[i]), ev_expr(e)),
            ExprNode::MethodCall(m) => all_within(ev_expr(*m.receiver), ev_expr(e)) && forall|i: int|
                0 <= i < m.args@.len() ==> all_within(ev_expr(#[trigger] m.args@[i]), ev_expr(e)),
            ExprNode::Binary { left, op, right, line } => all_within(ev_expr(*left), ev_expr(e))
                && all_within(ev_expr(*right), ev_expr(e)),
            ExprNode::If { cond, then_branch, else_branch } => all_within(ev_expr(*cond), ev_expr(e))
                && all_within(ev_block(then_branch), ev_expr(e)) && (else_branch matches Some(x)
                ==> all_within(ev_expr(*x), ev_expr(e))),
            ExprNode::Match { scrutinee, arms } => all_within(ev_expr(*scrutinee), ev_expr(e))
                && forall|i: int|
                0 <= i < arms@.len() ==> all_within(ev_expr(#[trigger] arms@[i].body), ev_expr(e)),
            ExprNode::Block(b) => forall|i: int|
                0 <= i < b.stmts@.len() ==> all_within(ev_stmt(#[trigger] b.stmts@[i]), ev_expr(e)),
            _ => true,
        },
{
    match e {
        ExprNode::Call { func, args } => {
            lemma_within_refl(ev_expr(*func));
            lemma_within_left(ev_expr(*func), ev_expr(*func), ev_exprs(args@));
            assert forall|i: int| 0 <= i < args@.len() implies all_within(
                ev_expr(#[trigger] args@[i]),
                ev_expr(e),
            ) by {
                lemma_ev_exprs_within(args@, i);
                lemma_within_right(ev_expr(args@[i]), ev_expr(*func), ev_exprs(args@));
            }
        },
        ExprNode::MethodCall(m) => {
            let head = seq![VisitEvent::MethodCall { method: m.method, line: m.method_line }];
            let r = ev_expr(*m.receiver);
            let t = ev_parts(m.turbofish@);
            let a = ev_exprs(m.args@);
            assert(ev_expr(e) == head + r + t + a);
            lemma_within_refl(r);
            lemma_within_right(r, head, r);
            lemma_within_left(r, head + r, t);
            lemma_within_left(r, head + r + t, a);
            assert forall|i: int| 0 <= i < m.args@.len() implies all_within(
                ev_expr(#[trigger] m.args@[i]),
                ev_expr(e),
            ) by {
                lemma_ev_exprs_within(m.args@, i);
                lemma_within_right(ev_expr(m.args@[i]), head + r + t, a);
            }
        },
        ExprNode::Binary { left, op, right, line } => {
            let head = seq![
                VisitEvent::Binary {
                    op,
                    line,
                    string_operand: is_str_lit(*left) || is_str_lit(*right),
                },
            ];
            let l = ev_expr(*left);
            let r = ev_expr(*right);
            assert(ev_expr(e) == head + l + r);
            lemma_within_refl(l);
            lemma_within_right(l, head, l);
            lemma_within_left(l, head + l, r);
            lemma_within_refl(r);
            lemma_within_right(r, head + l, r);
        },
        ExprNode::If { cond, then_branch, else_branch } => {
            let c = ev_expr(*cond);
            let t = ev_block(then_branch);
            let x = match else_branch {
                Some(x) => ev_expr(*x),
                None => seq![],
            };
            assert(ev_expr(e) == c + t + x);
            lemma_within_refl(c);
            lemma_within_left(c, c, t);
            lemma_within_left(c, c + t, x);
            lemma_within_refl(t);
            lemma_within_right(t, c, t);
            lemma_within_left(t, c + t, x);
            lemma_within_refl(x);
            lemma_within_right(x, c + t, x);
        },
        ExprNode::Match { scrutinee, arms } => {
            let sc = ev_expr(*scrutinee);
            lemma_within_refl(sc);
            lemma_within_left(sc, sc, ev_arms(arms@));
            assert forall|i: int| 0 <= i < arms@.len() implies all_within(
                ev_expr(#[trigger] arms@[i].body),
                ev_expr(e),
            ) by {
                lemma_ev_arms_within(arms@, i);
                lemma_within_right(ev_expr(arms@[i].body), sc, ev_arms(arms@));
            }
        },
        ExprNode::Block(b) => {
            assert forall|i: int| 0 <= i < b.stmts@.len() implies all_within(
                ev_stmt(#[trigger] b.stmts@[i]),
                ev_expr(e),
            ) by {
                lemma_ev_stmts_within(b.stmts@, i);
                assert(ev_expr(e) == ev_block(b));
                assert(ev_block(b) == ev_stmts(b.stmts@));
            }
        },
        _ => {},
    }
}

} // verus!
