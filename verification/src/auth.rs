//! Authorization gaps: public contract methods that write to storage without
//! first requiring authorization.
use vstd::prelude::*;
use crate::analyzer::Analyzer;
use crate::parse::{parse_file, parsed_file};
use crate::syntax::{path_is_ident, ArmNode, BlockNode, ExprNode, FnDef, ImplItemNode, ItemNode, SourceFile, StmtNode};
use crate::text::{chars_of, contains_text, same_text, text_contains};

verus! {

/// `require_auth` or `require_auth_for_args`.
pub open spec fn is_auth_name(s: Seq<char>) -> bool {
    s == "require_auth"@ || s == "require_auth_for_args"@
}

/// `set`, `update` or `remove`.
pub open spec fn is_write_method(s: Seq<char>) -> bool {
    s == "set"@ || s == "update"@ || s == "remove"@
}

/// Whether a text mentions a storage tier: `storage`, `persistent`,
/// `temporary` or `instance`.
pub open spec fn mentions_storage(t: Seq<char>) -> bool {
    contains_text(t, "storage"@) || contains_text(t, "persistent"@) || contains_text(
        t,
        "temporary"@,
    ) || contains_text(t, "instance"@)
}

/// Whether a called expression is a path whose last segment names an
/// authorization function.
pub open spec fn names_auth_fn(func: ExprNode) -> bool {
    match func {
        ExprNode::Path { qself, path } => path.segments@.len() > 0 && is_auth_name(
            path.segments@.last().ident@,
        ),
        _ => false,
    }
}

/// What a scan of part of a function body finds: whether a storage write
/// comes, in evaluation order, before any authorization in that part, and
/// whether the part requires authorization somewhere.
pub open spec fn followed_by(a: (bool, bool), b: (bool, bool)) -> (bool, bool) {
    (a.0 || (!a.1 && b.0), a.1 || b.1)
}

/// What the scan finds in an expression, in evaluation order: a call's
/// arguments before the call itself, a method call's receiver and arguments
/// before the method; calls, method calls, blocks, `if` and `match` are
/// looked into (a call's arguments, not the called expression; a `match`'s
/// arm bodies, not their guards); other expressions are not.
pub open spec fn expr_auth_scan(e: ExprNode) -> (bool, bool)
    decreases e,
{
    match e {
        ExprNode::Call { func, args } => followed_by(exprs_auth_scan(args@), (false, names_auth_fn(*func))),
        ExprNode::MethodCall(m) => followed_by(
            followed_by(expr_auth_scan(*m.receiver), exprs_auth_scan(m.args@)),
            (
                is_write_method(m.method@) && mentions_storage(m.tokens_text@),
                is_auth_name(m.method@),
            ),
        ),
        ExprNode::Block(b) => block_auth_scan(b),
        ExprNode::If { cond, then_branch, else_branch } => followed_by(
            followed_by(expr_auth_scan(*cond), block_auth_scan(then_branch)),
            match else_branch {
                Some(x) => expr_auth_scan(*x),
                None => (false, false),
            },
        ),
        ExprNode::Match { scrutinee, arms } => followed_by(
            expr_auth_scan(*scrutinee),
            arms_auth_scan(arms@),
        ),
        _ => (false, false),
    }
}

/// The scan of a list of expressions, in order.
pub open spec fn exprs_auth_scan(s: Seq<ExprNode>) -> (bool, bool)
    decreases s,
{
    if s.len() == 0 {
        (false, false)
    } else {
        followed_by(exprs_auth_scan(s.drop_last()), expr_auth_scan(s.last()))
    }
}

/// The scan of the bodies of `match` arms, in order.
pub open spec fn arms_auth_scan(s: Seq<ArmNode>) -> (bool, bool)
    decreases s,
{
    if s.len() == 0 {
        (false, false)
    } else {
        followed_by(arms_auth_scan(s.drop_last()), expr_auth_scan(s.last().body))
    }
}

/// The scan of a statement: expressions and `let` initializers are looked
/// into; a statement macro `require_auth!` or `require_auth_for_args!`
/// counts as an authorization; nested items are not looked into.
pub open spec fn stmt_auth_scan(s: StmtNode) -> (bool, bool)
    decreases s,
{
    match s {
        StmtNode::Expr(e) => expr_auth_scan(e),
        StmtNode::Local { pat, init, diverge } => match init {
            Some(e) => expr_auth_scan(e),
            None => (false, false),
        },
        StmtNode::Macro(m) => (
            false,
            path_is_ident(m.path, "require_auth"@) || path_is_ident(m.path, "require_auth_for_args"@),
        ),
        StmtNode::Item(_) => (false, false),
    }
}

/// The scan of a list of statements, in order.
pub open spec fn stmts_auth_scan(s: Seq<StmtNode>) -> (bool, bool)
    decreases s,
{
    if s.len() == 0 {
        (false, false)
    } else {
        followed_by(stmts_auth_scan(s.drop_last()), stmt_auth_scan(s.last()))
    }
}

/// The scan of a block.
pub open spec fn block_auth_scan(b: BlockNode) -> (bool, bool)
    decreases b,
{
    stmts_auth_scan(b.stmts@)
}

/// Whether a function writes to storage without first requiring
/// authorization: some storage write comes, in evaluation order, before the
/// first authorization of its body (or there is none).
pub open spec fn fn_has_auth_gap(f: FnDef) -> bool {
    block_auth_scan(f.body).0
}

proof fn lemma_prefix_without_writes(s: Seq<StmtNode>, k: int)
    requires
        0 <= k <= s.len(),
        forall|j: int| 0 <= j < k ==> !(#[trigger] stmt_auth_scan(s[j])).0,
    ensures
        !stmts_auth_scan(s.take(k)).0,
    decreases k,
{
    if k > 0 {
        lemma_prefix_without_writes(s, k - 1);
        assert(s.take(k).drop_last() =~= s.take(k - 1));
        assert(s.take(k).last() == s[k - 1]);
        let last = stmt_auth_scan(s[k - 1]);
    }
}

proof fn lemma_prefix_without_auth(s: Seq<StmtNode>, k: int)
    requires
        0 <= k <= s.len(),
        forall|j: int| 0 <= j < k ==> !(#[trigger] stmt_auth_scan(s[j])).1,
    ensures
        !stmts_auth_scan(s.take(k)).1,
    decreases k,
{
    if k > 0 {
        lemma_prefix_without_auth(s, k - 1);
        assert(s.take(k).drop_last() =~= s.take(k - 1));
        assert(s.take(k).last() == s[k - 1]);
        let last = stmt_auth_scan(s[k - 1]);
    }
}

proof fn lemma_prefix_decides(s: Seq<StmtNode>, k: int)
    requires
        0 < k <= s.len(),
        stmts_auth_scan(s.take(k)) == (false, true) || stmts_auth_scan(s.take(k)).0,
    ensures
        stmts_auth_scan(s.take(k)) == (false, true) ==> stmts_auth_scan(s) == (false, true),
        stmts_auth_scan(s.take(k)).0 ==> stmts_auth_scan(s).0,
    decreases s.len(),
{
    if s.len() == k {
        assert(s.take(k) =~= s);
    } else {
        assert(s.drop_last().take(k) =~= s.take(k));
        lemma_prefix_decides(s.drop_last(), k);
    }
}

/// A method whose body, at its top level, requires authorization in some
/// statement, with no storage write before that authorization (neither in
/// earlier statements nor earlier in that statement), is never reported as
/// an auth gap, whatever the statements after it do.
pub proof fn authorization_first_closes_gap(f: FnDef, i: int)
    requires
        0 <= i < f.body.stmts@.len(),
        forall|j: int| 0 <= j < i ==> !(#[trigger] stmt_auth_scan(f.body.stmts@[j])).0,
        stmt_auth_scan(f.body.stmts@[i]) == (false, true),
    ensures
        !fn_has_auth_gap(f),
{
    let s = f.body.stmts@;
    lemma_prefix_without_writes(s, i);
    assert(s.take(i + 1).drop_last() =~= s.take(i));
    assert(s.take(i + 1).last() == s[i]);
    lemma_prefix_decides(s, i + 1);
}

/// A method whose body, at its top level, writes to storage in some
/// statement before any authorization in it, with no authorization in the
/// statements before it, is reported as an auth gap, whatever the
/// statements after it do (an authorization after the write does not
/// close the gap).
pub proof fn write_before_authorization_is_gap(f: FnDef, i: int)
    requires
        0 <= i < f.body.stmts@.len(),
        forall|j: int| 0 <= j < i ==> !(#[trigger] stmt_auth_scan(f.body.stmts@[j])).1,
        stmt_auth_scan(f.body.stmts@[i]).0,
    ensures
        fn_has_auth_gap(f),
{
    let s = f.body.stmts@;
    lemma_prefix_without_auth(s, i);
    assert(s.take(i + 1).drop_last() =~= s.take(i));
    assert(s.take(i + 1).last() == s[i]);
    lemma_prefix_decides(s, i + 1);
}

/// Scanning more code never lowers what was already found: once a write
/// before authorization or an authorization has been seen, it stays seen
/// after any further expression, and the scan of an expression is what
/// `check_expr` adds to the flags it is given.
pub proof fn auth_flags_never_cleared(m0: bool, a0: bool, e: ExprNode)
    ensures
        m0 ==> followed_by((m0, a0), expr_auth_scan(e)).0,
        a0 ==> followed_by((m0, a0), expr_auth_scan(e)).1,
        a0 ==> followed_by((m0, a0), expr_auth_scan(e)).0 == m0,
{
}

proof fn lemma_exprs_no_auth(s: Seq<ExprNode>)
    requires
        forall|j: int| 0 <= j < s.len() ==> !(#[trigger] expr_auth_scan(s[j])).1,
    ensures
        !exprs_auth_scan(s).1,
    decreases s.len(),
{
    if s.len() > 0 {
        lemma_exprs_no_auth(s.drop_last());
        assert(s.last() == s[s.len() - 1]);
        let l = expr_auth_scan(s[s.len() - 1]);
    }
}

proof fn lemma_exprs_auth_part(s: Seq<ExprNode>, i: int)
    requires
        0 <= i < s.len(),
    ensures
        expr_auth_scan(s[i]).1 ==> exprs_auth_scan(s).1,
        expr_auth_scan(s[i]).0 && (forall|j: int| 0 <= j < i ==> !(#[trigger] expr_auth_scan(s[j])).1)
            ==> exprs_auth_scan(s).0,
    decreases s.len(),
{
    let init = s.drop_last();
    if i == s.len() - 1 {
        assert(s.last() == s[i]);
        if expr_auth_scan(s[i]).0 && (forall|j: int| 0 <= j < i ==> !(#[trigger] expr_auth_scan(s[j])).1) {
            assert forall|j: int| 0 <= j < init.len() implies !(#[trigger] expr_auth_scan(init[j])).1 by {
                assert(init[j] == s[j]);
            }
            lemma_exprs_no_auth(init);
        }
    } else {
        lemma_exprs_auth_part(init, i);
        assert(init[i] == s[i]);
        if expr_auth_scan(s[i]).0 && (forall|j: int| 0 <= j < i ==> !(#[trigger] expr_auth_scan(s[j])).1) {
            assert forall|j: int| 0 <= j < i implies !(#[trigger] expr_auth_scan(init[j])).1 by {
                assert(init[j] == s[j]);
            }
        }
    }
}

proof fn lemma_arms_no_auth(s: Seq<ArmNode>)
    requires
        forall|j: int| 0 <= j < s.len() ==> !(#[trigger] expr_auth_scan(s[j].body)).1,
    ensures
        !arms_auth_scan(s).1,
    decreases s.len(),
{
    if s.len() > 0 {
        lemma_arms_no_auth(s.drop_last());
        assert(s.last() == s[s.len() - 1]);
        let l = expr_auth_scan(s[s.len() - 1].body);
    }
}

proof fn lemma_arms_auth_part(s: Seq<ArmNode>, i: int)
    requires
        0 <= i < s.len(),
    ensures
        expr_auth_scan(s[i].body).1 ==> arms_auth_scan(s).1,
        expr_auth_scan(s[i].body).0 && (forall|j: int|
            0 <= j < i ==> !(#[trigger] expr_auth_scan(s[j].body)).1) ==> arms_auth_scan(s).0,
    decreases s.len(),
{
    let init = s.drop_last();
    if i == s.len() - 1 {
        assert(s.last() == s[i]);
        if expr_auth_scan(s[i].body).0 && (forall|j: int|
            0 <= j < i ==> !(#[trigger] expr_auth_scan(s[j].body)).1) {
            assert forall|j: int| 0 <= j < init.len() implies !(#[trigger] expr_auth_scan(init[j].body)).1 by {
                assert(init[j] == s[j]);
            }
            lemma_arms_no_auth(init);
        }
    } else {
        lemma_arms_auth_part(init, i);
        assert(init[i] == s[i]);
        if expr_auth_scan(s[i].body).0 && (forall|j: int|
            0 <= j < i ==> !(#[trigger] expr_auth_scan(s[j].body)).1) {
            assert forall|j: int| 0 <= j < i implies !(#[trigger] expr_auth_scan(init[j].body)).1 by {
                assert(init[j] == s[j]);
            }
        }
    }
}

/// The auth scan misses nothing it looks into, in evaluation order.  For
/// an `if`: an authorization in the condition, the `then` block or the
/// `else` branch is an authorization of the `if`, and a storage write in
/// any of them, with no authorization in an earlier part, is a write before
/// authorization of the `if` (so a write in the `else` branch of an `if`
/// whose condition and `then` block do not authorize is seen).  For a call:
/// the same for its arguments, in order, and calling an authorization
/// function authorizes.  For a method call: the same for its receiver,
/// then its arguments; a storage write method with no authorization in the
/// receiver and arguments is a write before authorization, and an
/// authorization method authorizes.  For a `match`: the same for its
/// scrutinee, then its arm bodies.
pub proof fn auth_scan_reaches_subexpressions(e: ExprNode)
    ensures
        match e {
            ExprNode::If { cond, then_branch, else_branch } => {
                let c = expr_auth_scan(*cond);
                let t = block_auth_scan(then_branch);
                &&& (c.1 || t.1) ==> expr_auth_scan(e).1
                &&& c.0 ==> expr_auth_scan(e).0
                &&& (!c.1 && t.0) ==> expr_auth_scan(e).0
                &&& (else_branch matches Some(x) ==> (expr_auth_scan(*x).1 ==> expr_auth_scan(e).1))
                &&& (else_branch matches Some(x) ==> (!c.1 && !t.1 && expr_auth_scan(*x).0
                    ==> expr_auth_scan(e).0))
            },
            ExprNode::Call { func, args } => {
                &&& names_auth_fn(*func) ==> expr_auth_scan(e).1
                &&& forall|i: int|
                    0 <= i < args@.len() ==> (expr_auth_scan(#[trigger] args@[i]).1
                        ==> expr_auth_scan(e).1)
                &&& forall|i: int|
                    0 <= i < args@.len() ==> (expr_auth_scan(#[trigger] args@[i]).0 && (forall|j: int|
                        0 <= j < i ==> !(#[trigger] expr_auth_scan(args@[j])).1) ==> expr_auth_scan(e).0)
            },
            ExprNode::MethodCall(m) => {
                let r = expr_auth_scan(*m.receiver);
                &&& r.1 ==> expr_auth_scan(e).1
                &&& r.0 ==> expr_auth_scan(e).0
                &&& is_auth_name(m.method@) ==> expr_auth_scan(e).1
                &&& forall|i: int|
                    0 <= i < m.args@.len() ==> (expr_auth_scan(#[trigger] m.args@[i]).1
                        ==> expr_auth_scan(e).1)
                &&& forall|i: int|
                    0 <= i < m.args@.len() ==> (!r.1 && expr_auth_scan(#[trigger] m.args@[i]).0 && (
                    forall|j: int| 0 <= j < i ==> !(#[trigger] expr_auth_scan(m.args@[j])).1)
                        ==> expr_auth_scan(e).0)
                &&& (is_write_method(m.method@) && mentions_storage(m.tokens_text@) && !r.1 && (forall|
                    j: int|
                    0 <= j < m.args@.len() ==> !(#[trigger] expr_auth_scan(m.args@[j])).1))
                    ==> expr_auth_scan(e).0
            },
            ExprNode::Match { scrutinee, arms } => {
                let sc = expr_auth_scan(*scrutinee);
                &&& sc.1 ==> expr_auth_scan(e).1
                &&& sc.0 ==> expr_auth_scan(e).0
                &&& forall|i: int|
                    0 <= i < arms@.len() ==> (expr_auth_scan(#[trigger] arms@[i].body).1
                        ==> expr_auth_scan(e).1)
                &&& forall|i: int|
                    0 <= i < arms@.len() ==> (!sc.1 && expr_auth_scan(#[trigger] arms@[i].body).0 && (
                    forall|j: int| 0 <= j < i ==> !(#[trigger] expr_auth_scan(arms@[j].body)).1)
                        ==> expr_auth_scan(e).0)
            },
            _ => true,
        },
{
    match e {
        ExprNode::Call { func, args } => {
            assert forall|i: int| 0 <= i < args@.len() implies (expr_auth_scan(#[trigger] args@[i]).1
                ==> expr_auth_scan(e).1) by {
                lemma_exprs_auth_part(args@, i);
            }
            assert forall|i: int| 0 <= i < args@.len() implies (expr_auth_scan(#[trigger] args@[i]).0
                && (forall|j: int| 0 <= j < i ==> !(#[trigger] expr_auth_scan(args@[j])).1)
                ==> expr_auth_scan(e).0) by {
                lemma_exprs_auth_part(args@, i);
            }
        },
        ExprNode::MethodCall(m) => {
            assert forall|i: int| 0 <= i < m.args@.len() implies (expr_auth_scan(#[trigger] m.args@[i]).1
                ==> expr_auth_scan(e).1) by {
                lemma_exprs_auth_part(m.args@, i);
            }
            assert forall|i: int| 0 <= i < m.args@.len() implies (!expr_auth_scan(*m.receiver).1
                && expr_auth_scan(#[trigger] m.args@[i]).0 && (forall|j: int|
                0 <= j < i ==> !(#[trigger] expr_auth_scan(m.args@[j])).1) ==> expr_auth_scan(e).0) by {
                lemma_exprs_auth_part(m.args@, i);
            }
            if forall|j: int| 0 <= j < m.args@.len() ==> !(#[trigger] expr_auth_scan(m.args@[j])).1 {
                lemma_exprs_no_auth(m.args@);
            }
        },
        ExprNode::Match { scrutinee, arms } => {
            assert forall|i: int| 0 <= i < arms@.len() implies (expr_auth_scan(#[trigger] arms@[i].body).1
                ==> expr_auth_scan(e).1) by {
                lemma_arms_auth_part(arms@, i);
            }
            assert forall|i: int| 0 <= i < arms@.len() implies (!expr_auth_scan(*scrutinee).1
                && expr_auth_scan(#[trigger] arms@[i].body).0 && (forall|j: int|
                0 <= j < i ==> !(#[trigger] expr_auth_scan(arms@[j].body)).1) ==> expr_auth_scan(e).0) by {
                lemma_arms_auth_part(arms@, i);
            }
        },
        _ => {},
    }
}


/// The names of the public methods of an impl block that have an auth gap.
pub open spec fn impl_items_auth_gaps(items: Seq<ImplItemNode>) -> Seq<Seq<char>>
    decreases items.len(),
{
    if items.len() == 0 {
        seq![]
    } else {
        impl_items_auth_gaps(items.drop_last()) + match items.last() {
            ImplItemNode::Fn(f) => if f.is_pub && fn_has_auth_gap(f) {
                seq![f.name@]
            } else {
                seq![]
            },
            ImplItemNode::Other(_) => seq![],
        }
    }
}

/// The names of the public methods, in the impl blocks at the top level of
/// a file, that write to storage without requiring authorization.
pub open spec fn auth_gaps(items: Seq<ItemNode>) -> Seq<Seq<char>>
    decreases items.len(),
{
    if items.len() == 0 {
        seq![]
    } else {
        auth_gaps(items.drop_last()) + match items.last() {
            ItemNode::Impl { header, items: impl_items } => impl_items_auth_gaps(impl_items@),
            _ => seq![],
        }
    }
}

proof fn lemma_impl_gap_listed(its: Seq<ImplItemNode>, j: int, f: FnDef)
    requires
        0 <= j < its.len(),
        its[j] == ImplItemNode::Fn(f),
        f.is_pub,
        fn_has_auth_gap(f),
    ensures
        impl_items_auth_gaps(its).contains(f.name@),
    decreases its.len(),
{
    let init = its.drop_last();
    let tail = match its.last() {
        ImplItemNode::Fn(g) => if g.is_pub && fn_has_auth_gap(g) {
            seq![g.name@]
        } else {
            seq![]
        },
        ImplItemNode::Other(_) => seq![],
    };
    assert(impl_items_auth_gaps(its) == impl_items_auth_gaps(init) + tail);
    if j == its.len() - 1 {
        assert(its.last() == its[j]);
        assert(tail[0] == f.name@);
        assert((impl_items_auth_gaps(init) + tail)[impl_items_auth_gaps(init).len() as int] == f.name@);
    } else {
        assert(init[j] == its[j]);
        lemma_impl_gap_listed(init, j, f);
        let k = choose|k: int| 0 <= k < impl_items_auth_gaps(init).len() && impl_items_auth_gaps(init)[k] == f.name@;
        assert((impl_items_auth_gaps(init) + tail)[k] == f.name@);
    }
}

/// Every public method, in an impl block at the top level of a file, that
/// writes to storage before requiring authorization is reported by name.
pub proof fn gap_methods_are_reported(
    items: Seq<ItemNode>,
    i: int,
    header: Vec<crate::syntax::Part>,
    impl_items: Vec<ImplItemNode>,
    j: int,
    f: FnDef,
)
    requires
        0 <= i < items.len(),
        items[i] == (ItemNode::Impl { header, items: impl_items }),
        0 <= j < impl_items@.len(),
        impl_items@[j] == ImplItemNode::Fn(f),
        f.is_pub,
        fn_has_auth_gap(f),
    ensures
        auth_gaps(items).contains(f.name@),
    decreases items.len(),
{
    let init = items.drop_last();
    let tail = match items.last() {
        ItemNode::Impl { header, items: its } => impl_items_auth_gaps(its@),
        _ => seq![],
    };
    assert(auth_gaps(items) == auth_gaps(init) + tail);
    if i == items.len() - 1 {
        assert(items.last() == items[i]);
        lemma_impl_gap_listed(impl_items@, j, f);
        let k = choose|k: int| 0 <= k < tail.len() && tail[k] == f.name@;
        assert((auth_gaps(init) + tail)[auth_gaps(init).len() + k] == f.name@);
    } else {
        assert(init[i] == items[i]);
        gap_methods_are_reported(init, i, header, impl_items, j, f);
        let k = choose|k: int| 0 <= k < auth_gaps(init).len() && auth_gaps(init)[k] == f.name@;
        assert((auth_gaps(init) + tail)[k] == f.name@);
    }
}

fn is_auth_fn_name(s: &String) -> (r: bool)
    ensures
        r == is_auth_name(s@),
{
    same_text(s.as_str(), "require_auth") || same_text(s.as_str(), "require_auth_for_args")
}

fn mentions_storage_tier(t: &String) -> (r: bool)
    ensures
        r == mentions_storage(t@),
{
    let chars = chars_of(t.as_str());
    text_contains(&chars, &chars_of("storage")) || text_contains(&chars, &chars_of("persistent"))
        || text_contains(&chars, &chars_of("temporary")) || text_contains(
        &chars,
        &chars_of("instance"),
    )
}

impl Analyzer {
    /// Names of the public methods, in top-level impl blocks of the Rust
    /// source `source`, that write to storage without first requiring
    /// authorization; none when the text does not parse.
    pub fn scan_auth_gaps(&self, source: &str) -> (gaps: Vec<String>)
        ensures
            match parsed_file(source@) {
                Some(f) => gaps@.map_values(|g: String| g@) == auth_gaps(f.items@),
                None => gaps@.len() == 0,
            },
    {
        match parse_file(source) {
            Some(file) => self.scan_auth_gaps_file(&file),
            None => Vec::new(),
        }
    }

    /// Names of the public methods, in top-level impl blocks of `file`, that
    /// write to storage (`set`, `update` or `remove` on an expression that
    /// mentions a storage tier) without first requiring authorization.
    pub fn scan_auth_gaps_file(&self, file: &SourceFile) -> (gaps: Vec<String>)
        ensures
            gaps@.map_values(|g: String| g@) == auth_gaps(file.items@),
    {
        let mut gaps: Vec<String> = Vec::new();
        let mut i: usize = 0;
        while i < file.items.len()
            invariant
                i <= file.items@.len(),
                gaps@.map_values(|g: String| g@) == auth_gaps(file.items@.take(i as int)),
            decreases file.items.len() - i,
        {
            assert(file.items@.take(i + 1).drop_last() =~= file.items@.take(i as int));
            if let ItemNode::Impl { header, items } = &file.items[i] {
                let mut j: usize = 0;
                let ghost before = gaps@.map_values(|g: String| g@);
                while j < items.len()
                    invariant
                        j <= items@.len(),
                        gaps@.map_values(|g: String| g@) == before + impl_items_auth_gaps(
                            items@.take(j as int),
                        ),
                    decreases items.len() - j,
                {
                    assert(items@.take(j + 1).drop_last() =~= items@.take(j as int));
                    if let ImplItemNode::Fn(f) = &items[j] {
                        if f.is_pub {
                            let mut write_before_auth = false;
                            let mut has_auth = false;
                            self.check_fn_body(&f.body, &mut write_before_auth, &mut has_auth);
                            if write_before_auth {
                                let ghost g0 = gaps@;
                                gaps.push(f.name.clone());
                                assert(gaps@.map_values(|g: String| g@) =~= g0.map_values(
                                    |g: String| g@,
                                ).push(f.name@));
                            }
                        }
                    }
                    j += 1;
                }
                assert(items@.take(items@.len() as int) =~= items@);
            }
            i += 1;
        }
        assert(file.items@.take(file.items@.len() as int) =~= file.items@);
        gaps
    }

    /// Records a storage write: it counts when no authorization came before.
    fn note_write(write_before_auth: &mut bool, has_auth: &bool)
        ensures
            (*final(write_before_auth), *has_auth) == followed_by(
                (*old(write_before_auth), *has_auth),
                (true, false),
            ),
    {
        if !*has_auth {
            *write_before_auth = true;
        }
    }

    /// Scans a block, in order, for storage writes and authorization:
    /// `write_before_auth` is raised by a write while `has_auth` is still
    /// down, and `has_auth` by an authorization; neither flag is ever
    /// lowered.
    #[verifier::loop_isolation(false)]
    fn check_fn_body(&self, block: &BlockNode, write_before_auth: &mut bool, has_auth: &mut bool)
        ensures
            (*final(write_before_auth), *final(has_auth)) == followed_by(
                (*old(write_before_auth), *old(has_auth)),
                block_auth_scan(*block),
            ),
            *old(write_before_auth) ==> *final(write_before_auth),
            *old(has_auth) ==> *final(has_auth),
        decreases block,
    {
        let mut i: usize = 0;
        while i < block.stmts.len()
            invariant
                i <= block.stmts@.len(),
                (*write_before_auth, *has_auth) == followed_by(
                    (*old(write_before_auth), *old(has_auth)),
                    stmts_auth_scan(block.stmts@.take(i as int)),
                ),
            decreases block.stmts.len() - i,
        {
            assert(block.stmts@.take(i + 1).drop_last() =~= block.stmts@.take(i as int));
            assert(block.stmts@.take(i + 1).last() == block.stmts@[i as int]);
            let stmt = &block.stmts[i];
            assert(stmts_auth_scan(block.stmts@.take(i + 1)) == followed_by(
                stmts_auth_scan(block.stmts@.take(i as int)),
                stmt_auth_scan(*stmt),
            ));
            assert(decreases_to!(*block => block.stmts@[i as int]));
            match stmt {
                StmtNode::Expr(expr) => self.check_expr(expr, write_before_auth, has_auth),
                StmtNode::Local { pat, init, diverge } => {
                    if let Some(e) = init {
                        self.check_expr(e, write_before_auth, has_auth);
                    }
                },
                StmtNode::Macro(m) => {
                    if m.path.is_ident("require_auth") || m.path.is_ident("require_auth_for_args") {
                        *has_auth = true;
                    }
                },
                StmtNode::Item(_) => {},
            }
            i += 1;
        }
        assert(block.stmts@.take(block.stmts@.len() as int) =~= block.stmts@);
    }

    /// Scans an expression, in evaluation order, for storage writes and
    /// authorization, as `check_fn_body` does for a block.
    #[verifier::loop_isolation(false)]
    fn check_expr(&self, expr: &ExprNode, write_before_auth: &mut bool, has_auth: &mut bool)
        ensures
            (*final(write_before_auth), *final(has_auth)) == followed_by(
                (*old(write_before_auth), *old(has_auth)),
                expr_auth_scan(*expr),
            ),
            *old(write_before_auth) ==> *final(write_before_auth),
            *old(has_auth) ==> *final(has_auth),
        decreases expr,
    {
        match expr {
            ExprNode::Call { func, args } => {
                let ghost m0 = *write_before_auth;
                let ghost a0 = *has_auth;
                let mut i: usize = 0;
                while i < args.len()
                    invariant
                        i <= args@.len(),
                        (*write_before_auth, *has_auth) == followed_by(
                            (m0, a0),
                            exprs_auth_scan(args@.take(i as int)),
                        ),
                    decreases args.len() - i,
                {
                    assert(args@.take(i + 1).drop_last() =~= args@.take(i as int));
                    assert(decreases_to!(*expr => args@[i as int]));
                    self.check_expr(&args[i], write_before_auth, has_auth);
                    i += 1;
                }
                assert(args@.take(args@.len() as int) =~= args@);
                if let ExprNode::Path { qself, path } = &**func {
                    if path.segments.len() > 0 {
                        if is_auth_fn_name(&path.segments[path.segments.len() - 1].ident) {
                            *has_auth = true;
                        }
                    }
                }
            },
            ExprNode::MethodCall(m) => {
                self.check_expr(&m.receiver, write_before_auth, has_auth);
                let ghost m0 = *write_before_auth;
                let ghost a0 = *has_auth;
                let mut i: usize = 0;
                while i < m.args.len()
                    invariant
                        i <= m.args@.len(),
                        (*write_before_auth, *has_auth) == followed_by(
                            (m0, a0),
                            exprs_auth_scan(m.args@.take(i as int)),
                        ),
                    decreases m.args.len() - i,
                {
                    assert(m.args@.take(i + 1).drop_last() =~= m.args@.take(i as int));
                    assert(decreases_to!(*expr => m.args@[i as int]));
                    self.check_expr(&m.args[i], write_before_auth, has_auth);
                    i += 1;
                }
                assert(m.args@.take(m.args@.len() as int) =~= m.args@);
                if is_write_method_name(&m.method) {
                    if mentions_storage_tier(&m.tokens_text) {
                        Self::note_write(write_before_auth, has_auth);
                    }
                }
                if is_auth_fn_name(&m.method) {
                    *has_auth = true;
                }
            },
            ExprNode::Block(b) => self.check_fn_body(b, write_before_auth, has_auth),
            ExprNode::If { cond, then_branch, else_branch } => {
                self.check_expr(cond, write_before_auth, has_auth);
                self.check_fn_body(then_branch, write_before_auth, has_auth);
                if let Some(e) = else_branch {
                    self.check_expr(e, write_before_auth, has_auth);
                }
            },
            ExprNode::Match { scrutinee, arms } => {
                self.check_expr(scrutinee, write_before_auth, has_auth);
                let ghost m0 = *write_before_auth;
                let ghost a0 = *has_auth;
                let mut i: usize = 0;
                while i < arms.len()
                    invariant
                        i <= arms@.len(),
                        (*write_before_auth, *has_auth) == followed_by(
                            (m0, a0),
                            arms_auth_scan(arms@.take(i as int)),
                        ),
                    decreases arms.len() - i,
                {
                    assert(arms@.take(i + 1).drop_last() =~= arms@.take(i as int));
                    assert(decreases_to!(*expr => arms@[i as int].body));
                    self.check_expr(&arms[i].body, write_before_auth, has_auth);
                    i += 1;
                }
                assert(arms@.take(arms@.len() as int) =~= arms@);
            },
            _ => {},
        }
    }
}

fn is_write_method_name(s: &String) -> (r: bool)
    ensures
        r == is_write_method(s@),
{
    same_text(s.as_str(), "set") || same_text(s.as_str(), "update") || same_text(
        s.as_str(),
        "remove",
    )
}

} // verus!
