//! Panicking constructs in contract methods: `panic!`, `.unwrap()` and
//! `.expect()`.
use vstd::prelude::*;
use crate::parse::{parse_file, parsed_file};
use crate::analyzer::Analyzer;
use crate::findings::{PanicIssue, PanicIssueView};
use crate::syntax::{path_is_ident, FnDef, BlockNode, ExprNode, ImplItemNode, ItemNode, SourceFile, StmtNode};
use crate::text::same_text;
use crate::occurs::{all_within, lemma_within_left, lemma_within_refl, lemma_within_right};

verus! {

/// The kinds of panicking constructs in an expression, in the order in
/// which the scan meets them: `panic!` for a `panic!` macro, the method name
/// for `.unwrap()` and `.expect()` (recorded before its receiver and
/// arguments are scanned).  Calls (their arguments), method calls, blocks,
/// `if` and `match` (arm bodies) are looked into; other expressions are not.
pub open spec fn expr_panics(e: ExprNode) -> Seq<Seq<char>>
    decreases e,
{
    match e {
        ExprNode::Macro(m) => if path_is_ident(m.path, "panic"@) {
            seq!["panic!"@]
        } else {
            seq![]
        },
        ExprNode::MethodCall(m) => (if m.method@ == "unwrap"@ || m.method@ == "expect"@ {
            seq![m.method@]
        } else {
            seq![]
        }) + expr_panics(*m.receiver) + exprs_panics(m.args@),
        ExprNode::Call { func, args } => exprs_panics(args@),
        ExprNode::Block(b) => block_panics(b),
        ExprNode::If { cond, then_branch, else_branch } => expr_panics(*cond) + block_panics(
            then_branch,
        ) + match else_branch {
            Some(x) => expr_panics(*x),
            None => seq![],
        },
        ExprNode::Match { scrutinee, arms } => expr_panics(*scrutinee) + arms_panics(arms@),
        _ => seq![],
    }
}

/// The panicking constructs of a list of expressions.
pub open spec fn exprs_panics(s: Seq<ExprNode>) -> Seq<Seq<char>>
    decreases s,
{
    if s.len() == 0 {
        seq![]
    } else {
        exprs_panics(s.drop_last()) + expr_panics(s.last())
    }
}

/// The panicking constructs of the bodies of `match` arms.
pub open spec fn arms_panics(s: Seq<crate::syntax::ArmNode>) -> Seq<Seq<char>>
    decreases s,
{
    if s.len() == 0 {
        seq![]
    } else {
        arms_panics(s.drop_last()) + expr_panics(s.last().body)
    }
}

/// The panicking constructs of a statement: of an expression statement, of
/// a `let` initializer, and a statement macro `panic!`.
pub open spec fn stmt_panics(s: StmtNode) -> Seq<Seq<char>>
    decreases s,
{
    match s {
        StmtNode::Expr(e) => expr_panics(e),
        StmtNode::Local { pat, init, diverge } => match init {
            Some(e) => expr_panics(e),
            None => seq![],
        },
        StmtNode::Macro(m) => if path_is_ident(m.path, "panic"@) {
            seq!["panic!"@]
        } else {
            seq![]
        },
        StmtNode::Item(_) => seq![],
    }
}

/// The panicking constructs of a list of statements.
pub open spec fn stmts_panics(s: Seq<StmtNode>) -> Seq<Seq<char>>
    decreases s,
{
    if s.len() == 0 {
        seq![]
    } else {
        stmts_panics(s.drop_last()) + stmt_panics(s.last())
    }
}

/// The panicking constructs of a block.
pub open spec fn block_panics(b: BlockNode) -> Seq<Seq<char>>
    decreases b,
{
    stmts_panics(b.stmts@)
}

/// The issues for the panicking constructs `kinds` of function `name`.
pub open spec fn issues_for(name: Seq<char>, kinds: Seq<Seq<char>>) -> Seq<PanicIssueView> {
    kinds.map_values(
        |k: Seq<char>| PanicIssueView { function_name: name, issue_type: k, location: name },
    )
}

/// The issues of the methods of an impl block.
pub open spec fn impl_items_panics(items: Seq<ImplItemNode>) -> Seq<PanicIssueView>
    decreases items.len(),
{
    if items.len() == 0 {
        seq![]
    } else {
        impl_items_panics(items.drop_last()) + match items.last() {
            ImplItemNode::Fn(f) => issues_for(f.name@, block_panics(f.body)),
            ImplItemNode::Other(_) => seq![],
        }
    }
}

/// The issues of all methods, public or not, of the impl blocks at the top
/// level of a file.
pub open spec fn panic_issues(items: Seq<ItemNode>) -> Seq<PanicIssueView>
    decreases items.len(),
{
    if items.len() == 0 {
        seq![]
    } else {
        panic_issues(items.drop_last()) + match items.last() {
            ItemNode::Impl { header, items: impl_items } => impl_items_panics(impl_items@),
            _ => seq![],
        }
    }
}

/// The plain content of a list of issues.
pub open spec fn panic_views(v: Seq<PanicIssue>) -> Seq<PanicIssueView> {
    v.map_values(|p: PanicIssue| p@)
}

proof fn lemma_issues_for_add(name: Seq<char>, a: Seq<Seq<char>>, b: Seq<Seq<char>>)
    ensures
        issues_for(name, a + b) == issues_for(name, a) + issues_for(name, b),
{
    assert(issues_for(name, a + b) =~= issues_for(name, a) + issues_for(name, b));
}

proof fn lemma_exprs_panics_within(s: Seq<ExprNode>, i: int)
    requires
        0 <= i < s.len(),
    ensures
        all_within(expr_panics(s[i]), exprs_panics(s)),
    decreases s.len(),
{
    if i == s.len() - 1 {
        lemma_within_refl(expr_panics(s[i]));
        lemma_within_right(expr_panics(s[i]), exprs_panics(s.drop_last()), expr_panics(s.last()));
    } else {
        lemma_exprs_panics_within(s.drop_last(), i);
        lemma_within_left(expr_panics(s[i]), exprs_panics(s.drop_last()), expr_panics(s.last()));
    }
}

proof fn lemma_arms_panics_within(s: Seq<crate::syntax::ArmNode>, i: int)
    requires
        0 <= i < s.len(),
    ensures
        all_within(expr_panics(s[i].body), arms_panics(s)),
    decreases s.len(),
{
    if i == s.len() - 1 {
        lemma_within_refl(expr_panics(s[i].body));
        lemma_within_right(expr_panics(s[i].body), arms_panics(s.drop_last()), expr_panics(s.last().body));
    } else {
        lemma_arms_panics_within(s.drop_last(), i);
        lemma_within_left(expr_panics(s[i].body), arms_panics(s.drop_last()), expr_panics(s.last().body));
    }
}

proof fn lemma_stmts_panics_within(s: Seq<StmtNode>, i: int)
    requires
        0 <= i < s.len(),
    ensures
        all_within(stmt_panics(s[i]), stmts_panics(s)),
    decreases s.len(),
{
    if i == s.len() - 1 {
        lemma_within_refl(stmt_panics(s[i]));
        lemma_within_right(stmt_panics(s[i]), stmts_panics(s.drop_last()), stmt_panics(s.last()));
    } else {
        lemma_stmts_panics_within(s.drop_last(), i);
        lemma_within_left(stmt_panics(s[i]), stmts_panics(s.drop_last()), stmt_panics(s.last()));
    }
}

/// The panic scan misses nothing inside the expressions it looks into:
/// every panicking construct of a call's argument, of a method call's
/// receiver or argument, of an `if`'s condition, `then` block or `else`
/// branch, of a `match`'s scrutinee or arm body, and of a block's
/// statement, is one of the whole expression's; and a method call of
/// `unwrap` or `expect` is itself one.
pub proof fn panic_scan_reaches_subexpressions(e: ExprNode)
    ensures
        match e {
            ExprNode::Call { func, args } => forall|i: int|
                0 <= i < args@.len() ==> all_within(expr_panics(#[trigger] args@[i]), expr_panics(e)),
            ExprNode::MethodCall(m) => all_within(expr_panics(*m.receiver), expr_panics(e)) && (forall|i: int|
                0 <= i < m.args@.len() ==> all_within(expr_panics(#[trigger] m.args@[i]), expr_panics(e)))
                && ((m.method@ == "unwrap"@ || m.method@ == "expect"@) ==> expr_panics(e).contains(m.method@)),
            ExprNode::If { cond, then_branch, else_branch } => all_within(expr_panics(*cond), expr_panics(e))
                && all_within(block_panics(then_branch), expr_panics(e)) && (else_branch matches Some(x)
                ==> all_within(expr_panics(*x), expr_panics(e))),
            ExprNode::Match { scrutinee, arms } => all_within(expr_panics(*scrutinee), expr_panics(e))
                && forall|i: int|
                0 <= i < arms@.len() ==> all_within(expr_panics(#[trigger] arms@[i].body), expr_panics(e)),
            ExprNode::Block(b) => forall|i: int|
                0 <= i < b.stmts@.len() ==> all_within(stmt_panics(#[trigger] b.stmts@[i]), expr_panics(e)),
            _ => true,
        },
{
    match e {
        ExprNode::Call { func, args } => {
            assert forall|i: int| 0 <= i < args@.len() implies all_within(
                expr_panics(#[trigger] args@[i]),
                expr_panics(e),
            ) by {
                lemma_exprs_panics_within(args@, i);
            }
        },
        ExprNode::MethodCall(m) => {
            let head = if m.method@ == "unwrap"@ || m.method@ == "expect"@ {
                seq![m.method@]
            } else {
                seq![]
            };
            let r = expr_panics(*m.receiver);
            let a = exprs_panics(m.args@);
            assert(expr_panics(e) == head + r + a);
            lemma_within_refl(r);
            lemma_within_right(r, head, r);
            lemma_within_left(r, head + r, a);
            assert forall|i: int| 0 <= i < m.args@.len() implies all_within(
                expr_panics(#[trigger] m.args@[i]),
                expr_panics(e),
            ) by {
                lemma_exprs_panics_within(m.args@, i);
                lemma_within_right(expr_panics(m.args@[i]), head + r, a);
            }
            if m.method@ == "unwrap"@ || m.method@ == "expect"@ {
                assert(expr_panics(e)[0] == m.method@);
            }
        },
        ExprNode::If { cond, then_branch, else_branch } => {
            let c = expr_panics(*cond);
            let t = block_panics(then_branch);
            let x = match else_branch {
                Some(x) => expr_panics(*x),
                None => seq![],
            };
            assert(expr_panics(e) == c + t + x);
            lemma_within_refl(c);
            lemma_within_left(c, c, t);
            lemma_within_left(c, c + t, x);
            lemma_within_refl(t);
            lemma_within_right(t, c, t);
            lemma_within_left(t, c + t, x);
            lemma_within_refl(x);
            lemma_within_right(x, c + t, x);
        },
        ExprNode::Match { scrutinee, arms } => {
            let sc = expr_panics(*scrutinee);
            lemma_within_refl(sc);
            lemma_within_left(sc, sc, arms_panics(arms@));
            assert forall|i: int| 0 <= i < arms@.len() implies all_within(
                expr_panics(#[trigger] arms@[i].body),
                expr_panics(e),
            ) by {
                lemma_arms_panics_within(arms@, i);
                lemma_within_right(expr_panics(arms@[i].body), sc, arms_panics(arms@));
            }
        },
        ExprNode::Block(b) => {
            assert forall|i: int| 0 <= i < b.stmts@.len() implies all_within(
                stmt_panics(#[trigger] b.stmts@[i]),
                expr_panics(e),
            ) by {
                lemma_stmts_panics_within(b.stmts@, i);
                assert(expr_panics(e) == block_panics(b));
            }
        },
        _ => {},
    }
}

/// Every panicking construct found in a method's body is reported as an
/// issue of that method, named by the method, with the construct's kind.
pub proof fn method_panics_are_issues(name: Seq<char>, kinds: Seq<Seq<char>>, k: Seq<char>)
    requires
        kinds.contains(k),
    ensures
        issues_for(name, kinds).contains(
            PanicIssueView { function_name: name, issue_type: k, location: name },
        ),
{
    let j = choose|j: int| 0 <= j < kinds.len() && kinds[j] == k;
    assert(issues_for(name, kinds)[j] == PanicIssueView { function_name: name, issue_type: k, location: name });
}

proof fn lemma_impl_panics_listed(its: Seq<ImplItemNode>, j: int, f: FnDef, x: PanicIssueView)
    requires
        0 <= j < its.len(),
        its[j] == ImplItemNode::Fn(f),
        issues_for(f.name@, block_panics(f.body)).contains(x),
    ensures
        impl_items_panics(its).contains(x),
    decreases its.len(),
{
    let init = its.drop_last();
    let tail = match its.last() {
        ImplItemNode::Fn(g) => issues_for(g.name@, block_panics(g.body)),
        ImplItemNode::Other(_) => seq![],
    };
    assert(impl_items_panics(its) == impl_items_panics(init) + tail);
    if j == its.len() - 1 {
        assert(its.last() == its[j]);
        let k = choose|k: int| 0 <= k < tail.len() && tail[k] == x;
        assert((impl_items_panics(init) + tail)[impl_items_panics(init).len() + k] == x);
    } else {
        assert(init[j] == its[j]);
        lemma_impl_panics_listed(init, j, f, x);
        let k = choose|k: int| 0 <= k < impl_items_panics(init).len() && impl_items_panics(init)[k] == x;
        assert((impl_items_panics(init) + tail)[k] == x);
    }
}

/// Every panicking construct found in the body of a method, public or
/// not, of an impl block at the top level of a file is reported as an
/// issue of that method.
pub proof fn method_panics_are_reported(
    items: Seq<ItemNode>,
    i: int,
    header: Vec<crate::syntax::Part>,
    impl_items: Vec<ImplItemNode>,
    j: int,
    f: FnDef,
    kind: Seq<char>,
)
    requires
        0 <= i < items.len(),
        items[i] == (ItemNode::Impl { header, items: impl_items }),
        0 <= j < impl_items@.len(),
        impl_items@[j] == ImplItemNode::Fn(f),
        block_panics(f.body).contains(kind),
    ensures
        panic_issues(items).contains(
            PanicIssueView { function_name: f.name@, issue_type: kind, location: f.name@ },
        ),
    decreases items.len(),
{
    let x = PanicIssueView { function_name: f.name@, issue_type: kind, location: f.name@ };
    method_panics_are_issues(f.name@, block_panics(f.body), kind);
    let init = items.drop_last();
    let tail = match items.last() {
        ItemNode::Impl { header, items: its } => impl_items_panics(its@),
        _ => seq![],
    };
    assert(panic_issues(items) == panic_issues(init) + tail);
    if i == items.len() - 1 {
        assert(items.last() == items[i]);
        lemma_impl_panics_listed(impl_items@, j, f, x);
        let k = choose|k: int| 0 <= k < tail.len() && tail[k] == x;
        assert((panic_issues(init) + tail)[panic_issues(init).len() + k] == x);
    } else {
        assert(init[i] == items[i]);
        method_panics_are_reported(init, i, header, impl_items, j, f, kind);
        let k = choose|k: int| 0 <= k < panic_issues(init).len() && panic_issues(init)[k] == x;
        assert((panic_issues(init) + tail)[k] == x);
    }
}

fn push_issue(issues: &mut Vec<PanicIssue>, fn_name: &str, kind: &str)
    ensures
        panic_views(final(issues)@) == panic_views(old(issues)@) + issues_for(fn_name@, seq![kind@]),
{
    issues.push(
        PanicIssue {
            function_name: String::from_str(fn_name),
            issue_type: String::from_str(kind),
            location: String::from_str(fn_name),
        },
    );
    assert(panic_views(issues@) =~= panic_views(old(issues)@) + issues_for(fn_name@, seq![kind@]));
}

impl Analyzer {
    /// The panic scan of the Rust source `source`: for each method of a
    /// top-level impl block, its `panic!`, `.unwrap()` and `.expect()`
    /// calls; none when the text does not parse.
    pub fn scan_panics(&self, source: &str) -> (issues: Vec<PanicIssue>)
        ensures
            match parsed_file(source@) {
                Some(f) => panic_views(issues@) == panic_issues(f.items@),
                None => issues@.len() == 0,
            },
    {
        match parse_file(source) {
            Some(file) => self.scan_panics_file(&file),
            None => Vec::new(),
        }
    }

    /// Panicking constructs in the methods of the impl blocks at the top
    /// level of `file`, method by method.
    pub fn scan_panics_file(&self, file: &SourceFile) -> (issues: Vec<PanicIssue>)
        ensures
            panic_views(issues@) == panic_issues(file.items@),
    {
        let mut issues: Vec<PanicIssue> = Vec::new();
        let mut i: usize = 0;
        while i < file.items.len()
            invariant
                i <= file.items@.len(),
                panic_views(issues@) == panic_issues(file.items@.take(i as int)),
            decreases file.items.len() - i,
        {
            assert(file.items@.take(i + 1).drop_last() =~= file.items@.take(i as int));
            if let ItemNode::Impl { header, items } = &file.items[i] {
                let mut j: usize = 0;
                let ghost before = panic_views(issues@);
                while j < items.len()
                    invariant
                        j <= items@.len(),
                        panic_views(issues@) == before + impl_items_panics(items@.take(j as int)),
                    decreases items.len() - j,
                {
                    assert(items@.take(j + 1).drop_last() =~= items@.take(j as int));
                    if let ImplItemNode::Fn(f) = &items[j] {
                        self.check_fn_panics(&f.body, f.name.as_str(), &mut issues);
                    }
                    j += 1;
                }
                assert(items@.take(items@.len() as int) =~= items@);
            }
            i += 1;
        }
        assert(file.items@.take(file.items@.len() as int) =~= file.items@);
        issues
    }

    /// Appends the issues of a block of function `fn_name`.
    #[verifier::loop_isolation(false)]
    fn check_fn_panics(&self, block: &BlockNode, fn_name: &str, issues: &mut Vec<PanicIssue>)
        ensures
            panic_views(final(issues)@) == panic_views(old(issues)@) + issues_for(
                fn_name@,
                block_panics(*block),
            ),
        decreases block,
    {
        let mut i: usize = 0;
        while i < block.stmts.len()
            invariant
                i <= block.stmts@.len(),
                panic_views(issues@) == panic_views(old(issues)@) + issues_for(
                    fn_name@,
                    stmts_panics(block.stmts@.take(i as int)),
                ),
            decreases block.stmts.len() - i,
        {
            assert(block.stmts@.take(i + 1).drop_last() =~= block.stmts@.take(i as int));
            assert(block.stmts@.take(i + 1).last() == block.stmts@[i as int]);
            let stmt = &block.stmts[i];
            proof {
                lemma_issues_for_add(
                    fn_name@,
                    stmts_panics(block.stmts@.take(i as int)),
                    stmt_panics(*stmt),
                );
            }
            assert(decreases_to!(*block => block.stmts@[i as int]));
            match stmt {
                StmtNode::Expr(expr) => self.check_expr_panics(expr, fn_name, issues),
                StmtNode::Local { pat, init, diverge } => {
                    if let Some(e) = init {
                        self.check_expr_panics(e, fn_name, issues);
                    }
                },
                StmtNode::Macro(m) => {
                    if m.path.is_ident("panic") {
                        push_issue(issues, fn_name, "panic!");
                    }
                },
                StmtNode::Item(_) => {},
            }
            i += 1;
        }
        assert(block.stmts@.take(block.stmts@.len() as int) =~= block.stmts@);
    }

    /// Appends the issues of an expression of function `fn_name`.
    #[verifier::loop_isolation(false)]
    fn check_expr_panics(&self, expr: &ExprNode, fn_name: &str, issues: &mut Vec<PanicIssue>)
        ensures
            panic_views(final(issues)@) == panic_views(old(issues)@) + issues_for(
                fn_name@,
                expr_panics(*expr),
            ),
        decreases expr,
    {
        match expr {
            ExprNode::Macro(m) => {
                if m.path.is_ident("panic") {
                    push_issue(issues, fn_name, "panic!");
                }
            },
            ExprNode::MethodCall(m) => {
                let is_unwrap = same_text(m.method.as_str(), "unwrap");
                let is_expect = same_text(m.method.as_str(), "expect");
                if is_unwrap || is_expect {
                    push_issue(issues, fn_name, m.method.as_str());
                }
                let ghost own: Seq<Seq<char>> = if is_unwrap || is_expect {
                    seq![m.method@]
                } else {
                    seq![]
                };
                assert(panic_views(issues@) =~= panic_views(old(issues)@) + issues_for(fn_name@, own));
                self.check_expr_panics(&m.receiver, fn_name, issues);
                proof {
                    lemma_issues_for_add(fn_name@, own, expr_panics(*m.receiver));
                }
                let ghost start = panic_views(issues@);
                let mut i: usize = 0;
                while i < m.args.len()
                    invariant
                        i <= m.args@.len(),
                        panic_views(issues@) == start + issues_for(
                            fn_name@,
                            exprs_panics(m.args@.take(i as int)),
                        ),
                    decreases m.args.len() - i,
                {
                    assert(m.args@.take(i + 1).drop_last() =~= m.args@.take(i as int));
                    proof {
                        lemma_issues_for_add(
                            fn_name@,
                            exprs_panics(m.args@.take(i as int)),
                            expr_panics(m.args@[i as int]),
                        );
                    }
                    assert(decreases_to!(*expr => m.args@[i as int]));
                    self.check_expr_panics(&m.args[i], fn_name, issues);
                    i += 1;
                }
                assert(m.args@.take(m.args@.len() as int) =~= m.args@);
                proof {
                    lemma_issues_for_add(fn_name@, own + expr_panics(*m.receiver), exprs_panics(m.args@));
                }
            },
            ExprNode::Call { func, args } => {
                let mut i: usize = 0;
                while i < args.len()
                    invariant
                        i <= args@.len(),
                        panic_views(issues@) == panic_views(old(issues)@) + issues_for(
                            fn_name@,
                            exprs_panics(args@.take(i as int)),
                        ),
                    decreases args.len() - i,
                {
                    assert(args@.take(i + 1).drop_last() =~= args@.take(i as int));
                    proof {
                        lemma_issues_for_add(
                            fn_name@,
                            exprs_panics(args@.take(i as int)),
                            expr_panics(args@[i as int]),
                        );
                    }
                    assert(decreases_to!(*expr => args@[i as int]));
                    self.check_expr_panics(&args[i], fn_name, issues);
                    i += 1;
                }
                assert(args@.take(args@.len() as int) =~= args@);
            },
            ExprNode::Block(b) => self.check_fn_panics(b, fn_name, issues),
            ExprNode::If { cond, then_branch, else_branch } => {
                self.check_expr_panics(cond, fn_name, issues);
                self.check_fn_panics(then_branch, fn_name, issues);
                proof {
                    lemma_issues_for_add(fn_name@, expr_panics(**cond), block_panics(*then_branch));
                }
                let ghost tail: Seq<Seq<char>> = match else_branch {
                    Some(x) => expr_panics(**x),
                    None => seq![],
                };
                if let Some(e) = else_branch {
                    self.check_expr_panics(e, fn_name, issues);
                } else {
                    assert(panic_views(issues@) =~= panic_views(issues@) + issues_for(fn_name@, tail));
                }
                proof {
                    lemma_issues_for_add(
                        fn_name@,
                        expr_panics(**cond) + block_panics(*then_branch),
                        tail,
                    );
                }
            },
            ExprNode::Match { scrutinee, arms } => {
                self.check_expr_panics(scrutinee, fn_name, issues);
                let ghost start = panic_views(issues@);
                let mut i: usize = 0;
                while i < arms.len()
                    invariant
                        i <= arms@.len(),
                        panic_views(issues@) == start + issues_for(
                            fn_name@,
                            arms_panics(arms@.take(i as int)),
                        ),
                    decreases arms.len() - i,
                {
                    assert(arms@.take(i + 1).drop_last() =~= arms@.take(i as int));
                    proof {
                        lemma_issues_for_add(
                            fn_name@,
                            arms_panics(arms@.take(i as int)),
                            expr_panics(arms@[i as int].body),
                        );
                    }
                    assert(decreases_to!(*expr => arms@[i as int].body));
                    self.check_expr_panics(&arms[i].body, fn_name, issues);
                    i += 1;
                }
                assert(arms@.take(arms@.len() as int) =~= arms@);
                proof {
                    lemma_issues_for_add(fn_name@, expr_panics(**scrutinee), arms_panics(arms@));
                }
            },
            _ => {
                assert(panic_views(issues@) =~= panic_views(old(issues)@) + issues_for(
                    fn_name@,
                    seq![],
                ));
            },
        }
    }
}

} // verus!
