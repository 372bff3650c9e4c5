//! Scanners over the walk of a file: panicking constructs anywhere in the
//! source, and unchecked arithmetic inside functions.
use vstd::prelude::*;
use crate::parse::{parse_file, parsed_file};
use crate::analyzer::Analyzer;
use crate::findings::{
    ArithmeticIssue, ArithmeticIssueView, PatternType, UnsafePattern, UnsafePatternView,
};
use crate::syntax::{BinOpKind, BlockNode, ExprNode, MethodCall, SourceFile};
use crate::occurs::{all_within, lemma_within_left, lemma_within_refl, lemma_within_right};
use crate::text::{contains_text, decimal, push_decimal, same_text};
use crate::visit::{ev_block, ev_expr, ev_file, file_events, walk_reaches_subexpressions, VisitEvent};

verus! {

/// The pattern an event stands for, if any: a `panic!` macro, or a call of
/// `.unwrap()` or `.expect()`.
pub open spec fn unsafe_of(ev: VisitEvent) -> Seq<UnsafePatternView> {
    match ev {
        VisitEvent::Macro { is_panic, line } => if is_panic {
            seq![
                UnsafePatternView {
                    pattern_type: PatternType::Panic,
                    line: line as nat,
                    snippet: "panic!()"@,
                },
            ]
        } else {
            seq![]
        },
        VisitEvent::MethodCall { method, line } => if method@ == "unwrap"@ {
            seq![
                UnsafePatternView {
                    pattern_type: PatternType::Unwrap,
                    line: line as nat,
                    snippet: "."@ + method@ + "()"@,
                },
            ]
        } else if method@ == "expect"@ {
            seq![
                UnsafePatternView {
                    pattern_type: PatternType::Expect,
                    line: line as nat,
                    snippet: "."@ + method@ + "()"@,
                },
            ]
        } else {
            seq![]
        },
        _ => seq![],
    }
}

/// The patterns of a sequence of events, in order.
pub open spec fn unsafe_patterns_of(evs: Seq<VisitEvent>) -> Seq<UnsafePatternView>
    decreases evs.len(),
{
    if evs.len() == 0 {
        seq![]
    } else {
        unsafe_patterns_of(evs.drop_last()) + unsafe_of(evs.last())
    }
}

/// Collects panicking constructs as the walk meets them.
pub struct UnsafeVisitor {
    pub patterns: Vec<UnsafePattern>,
}

/// The plain content of a list of patterns.
pub open spec fn pattern_views(v: Seq<UnsafePattern>) -> Seq<UnsafePatternView> {
    v.map_values(|p: UnsafePattern| p@)
}

impl UnsafeVisitor {
    /// Records the pattern that `ev` stands for, if any.
    pub fn visit(&mut self, ev: &VisitEvent)
        ensures
            pattern_views(final(self).patterns@) == pattern_views(old(self).patterns@) + unsafe_of(
                *ev,
            ),
    {
        let ghost p0 = self.patterns@;
        match ev {
            VisitEvent::Macro { is_panic, line } => {
                if *is_panic {
                    self.patterns.push(
                        UnsafePattern {
                            pattern_type: PatternType::Panic,
                            line: *line,
                            snippet: String::from_str("panic!()"),
                        },
                    );
                }
            },
            VisitEvent::MethodCall { method, line } => {
                let is_unwrap = same_text(method.as_str(), "unwrap");
                if is_unwrap || same_text(method.as_str(), "expect") {
                    let pattern_type = if is_unwrap {
                        PatternType::Unwrap
                    } else {
                        PatternType::Expect
                    };
                    let snippet = String::from_str(".").concat(method.as_str()).concat("()");
                    self.patterns.push(UnsafePattern { pattern_type, line: *line, snippet });
                }
            },
            _ => {},
        }
        assert(pattern_views(self.patterns@) =~= pattern_views(p0) + unsafe_of(*ev));
    }
}

/// The operator text and the suggested fix for an operator that can
/// overflow: `+`, `-`, `*` and their compound assignments.
pub open spec fn op_info(op: BinOpKind) -> Option<(Seq<char>, Seq<char>)> {
    match op {
        BinOpKind::Add => Some(("+"@, "Use `.checked_add(rhs)` or `.saturating_add(rhs)`"@)),
        BinOpKind::Sub => Some(("-"@, "Use `.checked_sub(rhs)` or `.saturating_sub(rhs)`"@)),
        BinOpKind::Mul => Some(("*"@, "Use `.checked_mul(rhs)` or `.saturating_mul(rhs)`"@)),
        BinOpKind::AddAssign => Some(
            ("+="@, "Replace with `a = a.checked_add(b).expect(\"overflow\")`"@),
        ),
        BinOpKind::SubAssign => Some(
            ("-="@, "Replace with `a = a.checked_sub(b).expect(\"underflow\")`"@),
        ),
        BinOpKind::MulAssign => Some(
            ("*="@, "Replace with `a = a.checked_mul(b).expect(\"overflow\")`"@),
        ),
        BinOpKind::Other => None,
    }
}

/// The operator text and suggestion for an operator that can overflow.
pub fn classify_op(op: BinOpKind) -> (r: Option<(String, String)>)
    ensures
        match r {
            Some((o, s)) => op_info(op) == Some((o@, s@)),
            None => op_info(op) is None,
        },
{
    match op {
        BinOpKind::Add => Some(
            (
                String::from_str("+"),
                String::from_str("Use `.checked_add(rhs)` or `.saturating_add(rhs)`"),
            ),
        ),
        BinOpKind::Sub => Some(
            (
                String::from_str("-"),
                String::from_str("Use `.checked_sub(rhs)` or `.saturating_sub(rhs)`"),
            ),
        ),
        BinOpKind::Mul => Some(
            (
                String::from_str("*"),
                String::from_str("Use `.checked_mul(rhs)` or `.saturating_mul(rhs)`"),
            ),
        ),
        BinOpKind::AddAssign => Some(
            (
                String::from_str("+="),
                String::from_str("Replace with `a = a.checked_add(b).expect(\"overflow\")`"),
            ),
        ),
        BinOpKind::SubAssign => Some(
            (
                String::from_str("-="),
                String::from_str("Replace with `a = a.checked_sub(b).expect(\"underflow\")`"),
            ),
        ),
        BinOpKind::MulAssign => Some(
            (
                String::from_str("*="),
                String::from_str("Replace with `a = a.checked_mul(b).expect(\"overflow\")`"),
            ),
        ),
        BinOpKind::Other => None,
    }
}

/// The checked method that replaces the arithmetic operation whose operator
/// text starts with `c`.
pub open spec fn checked_method(c: char) -> Seq<char> {
    if c == '+' {
        "checked_add"@
    } else if c == '-' {
        "checked_sub"@
    } else {
        "checked_mul"@
    }
}

/// The operators that are reported are exactly `+`, `-`, `*`, `+=`, `-=`
/// and `*=`: every operator but the others has a text and a suggestion;
/// no two operators share a text; a text ends in `=` exactly for the
/// compound assignments; a text starts with `+`, `-` or `*`, and its
/// suggestion names the checked method of that operation.
pub proof fn overflowing_operators(op: BinOpKind, other: BinOpKind)
    ensures
        (op_info(op) is Some) <==> op != BinOpKind::Other,
        op_info(op) is Some && op_info(other) is Some && op_info(op).unwrap().0 == op_info(
            other,
        ).unwrap().0 ==> op == other,
        op_info(op) is Some ==> (op_info(op).unwrap().0.last() == '=' <==> (op
            == BinOpKind::AddAssign || op == BinOpKind::SubAssign || op == BinOpKind::MulAssign)),
        op_info(op) is Some ==> {
            let (o, sugg) = op_info(op).unwrap();
            &&& o.len() > 0
            &&& (o[0] == '+' || o[0] == '-' || o[0] == '*')
            &&& contains_text(sugg, checked_method(o[0]))
        },
{
    reveal_strlit("+");
    reveal_strlit("-");
    reveal_strlit("*");
    reveal_strlit("+=");
    reveal_strlit("-=");
    reveal_strlit("*=");
    reveal_strlit("checked_add");
    reveal_strlit("checked_sub");
    reveal_strlit("checked_mul");
    reveal_strlit("Use `.checked_add(rhs)` or `.saturating_add(rhs)`");
    reveal_strlit("Use `.checked_sub(rhs)` or `.saturating_sub(rhs)`");
    reveal_strlit("Use `.checked_mul(rhs)` or `.saturating_mul(rhs)`");
    reveal_strlit("Replace with `a = a.checked_add(b).expect(\"overflow\")`");
    reveal_strlit("Replace with `a = a.checked_sub(b).expect(\"underflow\")`");
    reveal_strlit("Replace with `a = a.checked_mul(b).expect(\"overflow\")`");
    if op_info(op) is Some {
        let (o, sugg) = op_info(op).unwrap();
        let at: int = if op == BinOpKind::Add || op == BinOpKind::Sub || op == BinOpKind::Mul {
            6
        } else {
            20
        };
        assert(sugg.subrange(at, at + 11) =~= checked_method(o[0]));
    }
    if op_info(op) is Some && op_info(other) is Some {
        let a = op_info(op).unwrap().0;
        let b = op_info(other).unwrap().0;
        if a == b && op != other {
            assert(a.len() == b.len() && a[0] == b[0]);
        }
    }
}

/// The state of the arithmetic scan: the function being walked, the
/// functions it is nested in, the (function, operator) pairs already
/// reported, and the issues so far.
pub struct ArithState {
    pub current_fn: Option<Seq<char>>,
    pub outer: Seq<Option<Seq<char>>>,
    pub seen: Set<(Seq<char>, Seq<char>)>,
    pub issues: Seq<ArithmeticIssueView>,
}

/// The state before the walk.
pub open spec fn arith_init() -> ArithState {
    ArithState { current_fn: None, outer: seq![], seen: Set::empty(), issues: seq![] }
}

/// One step of the arithmetic scan.  Entering a function makes it the
/// current one until it is left.  An overflowing operator inside a function,
/// with no string-literal operand, is reported the first time its
/// (function name, operator) pair occurs, at `name:line`.
pub open spec fn arith_step(st: ArithState, ev: VisitEvent) -> ArithState {
    match ev {
        VisitEvent::EnterFn(name) => ArithState {
            current_fn: Some(name@),
            outer: st.outer.push(st.current_fn),
            ..st
        },
        VisitEvent::ExitFn => if st.outer.len() > 0 {
            ArithState { current_fn: st.outer.last(), outer: st.outer.drop_last(), ..st }
        } else {
            ArithState { current_fn: None, ..st }
        },
        VisitEvent::Binary { op, line, string_operand } => match (st.current_fn, op_info(op)) {
            (Some(f), Some((o, sugg))) => if !string_operand && !st.seen.contains((f, o)) {
                ArithState {
                    seen: st.seen.insert((f, o)),
                    issues: st.issues.push(
                        ArithmeticIssueView {
                            function_name: f,
                            operation: o,
                            suggestion: sugg,
                            location: f + ":"@ + decimal(line as nat),
                        },
                    ),
                    ..st
                }
            } else {
                st
            },
            _ => st,
        },
        _ => st,
    }
}

/// The state after a sequence of events.
pub open spec fn arith_run(evs: Seq<VisitEvent>) -> ArithState
    decreases evs.len(),
{
    if evs.len() == 0 {
        arith_init()
    } else {
        arith_step(arith_run(evs.drop_last()), evs.last())
    }
}

proof fn lemma_push_to_set<A>(s: Seq<A>, x: A)
    ensures
        s.push(x).to_set() == s.to_set().insert(x),
{
    assert forall|y: A| s.push(x).to_set().contains(y) <==> s.to_set().insert(x).contains(y) by {
        if s.contains(y) {
            let k = choose|k: int| 0 <= k < s.len() && s[k] == y;
            assert(s.push(x)[k] == y);
        }
        if y == x {
            assert(s.push(x)[s.len() as int] == x);
        }
    }
    assert(s.push(x).to_set() =~= s.to_set().insert(x));
}

/// An optional string as optional text.
pub open spec fn opt_text(o: Option<String>) -> Option<Seq<char>> {
    match o {
        Some(s) => Some(s@),
        None => None,
    }
}

/// Collects unchecked arithmetic as the walk meets it.
pub struct ArithVisitor {
    pub issues: Vec<ArithmeticIssue>,
    pub current_fn: Option<String>,
    /// The current functions of the enclosing functions, innermost last.
    pub outer: Vec<Option<String>>,
    /// The (function, operator) pairs already reported.
    pub seen: Vec<(String, String)>,
}

impl ArithVisitor {
    /// The plain state of the scan.
    pub open spec fn state(&self) -> ArithState {
        ArithState {
            current_fn: opt_text(self.current_fn),
            outer: self.outer@.map_values(|o: Option<String>| opt_text(o)),
            seen: self.seen@.map_values(|p: (String, String)| (p.0@, p.1@)).to_set(),
            issues: self.issues@.map_values(|i: ArithmeticIssue| i@),
        }
    }

    /// A scan that has met nothing yet.
    pub fn new() -> (v: Self)
        ensures
            v.state() == arith_init(),
    {
        let v = ArithVisitor {
            issues: Vec::new(),
            current_fn: None,
            outer: Vec::new(),
            seen: Vec::new(),
        };
        assert(v.state().outer =~= seq![]);
        assert(v.state().seen =~= Set::empty());
        assert(v.state().issues =~= seq![]);
        v
    }

    fn has_seen(&self, f: &String, o: &String) -> (r: bool)
        ensures
            r == self.state().seen.contains((f@, o@)),
    {
        let ghost pairs = self.seen@.map_values(|p: (String, String)| (p.0@, p.1@));
        let mut i: usize = 0;
        while i < self.seen.len()
            invariant
                i <= self.seen@.len(),
                pairs == self.seen@.map_values(|p: (String, String)| (p.0@, p.1@)),
                forall|k: int| 0 <= k < i ==> #[trigger] pairs[k] != (f@, o@),
            decreases self.seen.len() - i,
        {
            if self.seen[i].0 == *f && self.seen[i].1 == *o {
                assert(pairs[i as int] == (f@, o@));
                assert(pairs.contains((f@, o@)));
                return true;
            }
            i += 1;
        }
        assert(!pairs.contains((f@, o@)));
        false
    }

    /// Takes one event of the walk.
    pub fn visit(&mut self, ev: &VisitEvent)
        ensures
            final(self).state() == arith_step(old(self).state(), *ev),
    {
        match ev {
            VisitEvent::EnterFn(name) => {
                let prev = match &self.current_fn {
                    Some(f) => Some(f.clone()),
                    None => None,
                };
                self.outer.push(prev);
                self.current_fn = Some(name.clone());
                assert(self.state().outer =~= old(self).state().outer.push(
                    old(self).state().current_fn,
                ));
            },
            VisitEvent::ExitFn => {
                match self.outer.pop() {
                    Some(prev) => {
                        self.current_fn = prev;
                        assert(self.state().outer =~= old(self).state().outer.drop_last());
                    },
                    None => {
                        self.current_fn = None;
                    },
                }
            },
            VisitEvent::Binary { op, line, string_operand } => {
                let cur = match &self.current_fn {
                    Some(f) => Some(f.clone()),
                    None => None,
                };
                if let Some(f) = cur {
                    if let Some((o, sugg)) = classify_op(*op) {
                        if !*string_operand && !self.has_seen(&f, &o) {
                            let ghost s0 = self.seen@;
                            let ghost i0 = self.issues@;
                            self.seen.push((f.clone(), o.clone()));
                            let mut location = f.clone();
                            location.append(":");
                            push_decimal(&mut location, *line);
                            self.issues.push(
                                ArithmeticIssue {
                                    function_name: f,
                                    operation: o,
                                    suggestion: sugg,
                                    location,
                                },
                            );
                            assert(self.seen@.map_values(|p: (String, String)| (p.0@, p.1@))
                                =~= s0.map_values(|p: (String, String)| (p.0@, p.1@)).push(
                                (f@, o@),
                            ));
                            proof {
                                lemma_push_to_set(
                                    s0.map_values(|p: (String, String)| (p.0@, p.1@)),
                                    (f@, o@),
                                );
                            }
                            assert(self.state().seen =~= old(self).state().seen.insert(
                                (old(self).state().current_fn.unwrap(), op_info(*op).unwrap().0),
                            ));
                            assert(self.state().issues =~= old(self).state().issues.push(
                                self.issues@.last()@,
                            ));
                        }
                    }
                }
            },
            _ => {},
        }
    }
}

/// The (function, operator) pair an issue is reported for.
pub open spec fn issue_key(i: ArithmeticIssueView) -> (Seq<char>, Seq<char>) {
    (i.function_name, i.operation)
}

/// Every issue's pair is marked seen, and no two issues share a pair.
pub open spec fn arith_consistent(st: ArithState) -> bool {
    &&& forall|k: int| 0 <= k < st.issues.len() ==> st.seen.contains(#[trigger] issue_key(st.issues[k]))
    &&& forall|a: int, b: int|
        0 <= a < b < st.issues.len() ==> #[trigger] issue_key(st.issues[a]) != #[trigger] issue_key(
            st.issues[b],
        )
}

proof fn lemma_arith_step_consistent(st: ArithState, ev: VisitEvent)
    requires
        arith_consistent(st),
    ensures
        arith_consistent(arith_step(st, ev)),
{
    let next = arith_step(st, ev);
    if next.issues.len() > st.issues.len() {
        let n = st.issues.len() as int;
        assert forall|k: int| 0 <= k < next.issues.len() implies next.seen.contains(
            #[trigger] issue_key(next.issues[k]),
        ) by {
            if k < n {
                assert(next.issues[k] == st.issues[k]);
            }
        }
        assert forall|a: int, b: int| 0 <= a < b < next.issues.len() implies #[trigger] issue_key(
            next.issues[a],
        ) != #[trigger] issue_key(next.issues[b]) by {
            assert(next.issues[a] == st.issues[a]);
            if b < n {
                assert(next.issues[b] == st.issues[b]);
            } else {
                assert(st.seen.contains(issue_key(st.issues[a])));
            }
        }
    }
}

proof fn lemma_arith_run_consistent(evs: Seq<VisitEvent>)
    ensures
        arith_consistent(arith_run(evs)),
    decreases evs.len(),
{
    if evs.len() > 0 {
        lemma_arith_run_consistent(evs.drop_last());
        lemma_arith_step_consistent(arith_run(evs.drop_last()), evs.last());
    }
}

/// Whether every pair marked seen has an issue.
pub open spec fn seen_reported(st: ArithState) -> bool {
    forall|key: (Seq<char>, Seq<char>)|
        #[trigger] st.seen.contains(key) ==> exists|k: int|
            0 <= k < st.issues.len() && #[trigger] issue_key(st.issues[k]) == key
}

proof fn lemma_arith_run_seen_reported(evs: Seq<VisitEvent>)
    ensures
        seen_reported(arith_run(evs)),
    decreases evs.len(),
{
    if evs.len() > 0 {
        lemma_arith_run_seen_reported(evs.drop_last());
        let st = arith_run(evs.drop_last());
        let next = arith_step(st, evs.last());
        assert forall|key: (Seq<char>, Seq<char>)| #[trigger] next.seen.contains(key) implies exists|k: int|
            0 <= k < next.issues.len() && #[trigger] issue_key(next.issues[k]) == key by {
            if st.seen.contains(key) {
                let k = choose|k: int| 0 <= k < st.issues.len() && #[trigger] issue_key(st.issues[k]) == key;
                if next.issues.len() > st.issues.len() {
                    assert(next.issues[k] == st.issues[k]);
                }
                assert(issue_key(next.issues[k]) == key);
            } else {
                let n = st.issues.len() as int;
                assert(issue_key(next.issues[n]) == key);
            }
        }
    }
}

/// Whenever the scan meets an overflowing operator with no string-literal
/// operand inside a function, an issue for that function and that
/// operator's text is among the issues afterwards: reported the first time,
/// already there after that.  So `a - b` in `fn burn` gives an issue for
/// (`burn`, `-`).
pub proof fn overflowing_operator_is_reported(
    evs: Seq<VisitEvent>,
    op: BinOpKind,
    line: usize,
)
    requires
        arith_run(evs).current_fn is Some,
        op != BinOpKind::Other,
    ensures
        ({
            let after = arith_run(evs.push(VisitEvent::Binary { op, line, string_operand: false }));
            exists|k: int|
                0 <= k < after.issues.len() && #[trigger] issue_key(after.issues[k]) == (
                    arith_run(evs).current_fn.unwrap(),
                    op_info(op).unwrap().0,
                )
        }),
{
    let ev = VisitEvent::Binary { op, line, string_operand: false };
    assert(evs.push(ev).drop_last() =~= evs);
    lemma_arith_run_seen_reported(evs.push(ev));
    let after = arith_run(evs.push(ev));
    let key = (arith_run(evs).current_fn.unwrap(), op_info(op).unwrap().0);
    assert(after.seen.contains(key));
}

/// The arithmetic scan of a file reports each (function name, operator)
/// pair at most once.
pub proof fn arithmetic_reported_once_per_pair(file: SourceFile)
    ensures
        forall|a: int, b: int|
            0 <= a < b < arith_run(ev_file(file)).issues.len() ==> #[trigger] issue_key(
                arith_run(ev_file(file)).issues[a],
            ) != #[trigger] issue_key(arith_run(ev_file(file)).issues[b]),
{
    lemma_arith_run_consistent(ev_file(file));
}

impl Analyzer {
    /// The unsafe patterns of the Rust source `source`: those of
    /// `analyze_unsafe_patterns_file` on the parsed file; none when the text
    /// does not parse.
    pub fn analyze_unsafe_patterns(&self, source: &str) -> (r: Vec<UnsafePattern>)
        ensures
            match parsed_file(source@) {
                Some(f) => pattern_views(r@) == unsafe_patterns_of(ev_file(f)),
                None => r@.len() == 0,
            },
    {
        match parse_file(source) {
            Some(file) => self.analyze_unsafe_patterns_file(&file),
            None => Vec::new(),
        }
    }

    /// Every `panic!` macro and every `.unwrap()` and `.expect()` call in
    /// `file`, in walk order, with their lines.
    pub fn analyze_unsafe_patterns_file(&self, file: &SourceFile) -> (r: Vec<UnsafePattern>)
        ensures
            pattern_views(r@) == unsafe_patterns_of(ev_file(*file)),
    {
        let evs = file_events(file);
        let mut visitor = UnsafeVisitor { patterns: Vec::new() };
        let mut i: usize = 0;
        while i < evs.len()
            invariant
                i <= evs@.len(),
                pattern_views(visitor.patterns@) == unsafe_patterns_of(evs@.take(i as int)),
            decreases evs.len() - i,
        {
            assert(evs@.take(i + 1).drop_last() =~= evs@.take(i as int));
            assert(evs@.take(i + 1).last() == evs@[i as int]);
            visitor.visit(&evs[i]);
            i += 1;
        }
        assert(evs@.take(evs@.len() as int) =~= evs@);
        visitor.patterns
    }

    /// The unchecked arithmetic of the Rust source `source`: that of
    /// `scan_arithmetic_overflow_file` on the parsed file; none when the text
    /// does not parse.
    pub fn scan_arithmetic_overflow(&self, source: &str) -> (r: Vec<ArithmeticIssue>)
        ensures
            match parsed_file(source@) {
                Some(f) => r@.map_values(|i: ArithmeticIssue| i@) == arith_run(ev_file(f)).issues,
                None => r@.len() == 0,
            },
    {
        match parse_file(source) {
            Some(file) => self.scan_arithmetic_overflow_file(&file),
            None => Vec::new(),
        }
    }

    /// Unchecked `+`, `-`, `*`, `+=`, `-=`, `*=` inside functions of `file`,
    /// without string-literal operands: the first occurrence of each
    /// operator per function name, with a suggested fix and its location.
    pub fn scan_arithmetic_overflow_file(&self, file: &SourceFile) -> (r: Vec<ArithmeticIssue>)
        ensures
            r@.map_values(|i: ArithmeticIssue| i@) == arith_run(ev_file(*file)).issues,
    {
        let evs = file_events(file);
        let mut visitor = ArithVisitor::new();
        let mut i: usize = 0;
        while i < evs.len()
            invariant
                i <= evs@.len(),
                visitor.state() == arith_run(evs@.take(i as int)),
            decreases evs.len() - i,
        {
            assert(evs@.take(i + 1).drop_last() =~= evs@.take(i as int));
            assert(evs@.take(i + 1).last() == evs@[i as int]);
            visitor.visit(&evs[i]);
            i += 1;
        }
        assert(evs@.take(evs@.len() as int) =~= evs@);
        visitor.issues
    }
}


proof fn lemma_unsafe_concat(a: Seq<VisitEvent>, b: Seq<VisitEvent>)
    ensures
        unsafe_patterns_of(a + b) == unsafe_patterns_of(a) + unsafe_patterns_of(b),
    decreases b.len(),
{
    if b.len() == 0 {
        assert(a + b =~= a);
        assert(unsafe_patterns_of(a) + unsafe_patterns_of(b) =~= unsafe_patterns_of(a));
    } else {
        lemma_unsafe_concat(a, b.drop_last());
        assert((a + b).drop_last() =~= a + b.drop_last());
        assert((a + b).last() == b.last());
        assert(unsafe_patterns_of(a + b) =~= unsafe_patterns_of(a) + unsafe_patterns_of(b));
    }
}

proof fn lemma_event_patterns_within(evs: Seq<VisitEvent>, j: int)
    requires
        0 <= j < evs.len(),
    ensures
        all_within(unsafe_of(evs[j]), unsafe_patterns_of(evs)),
{
    let pre = evs.take(j);
    let one = seq![evs[j]];
    let post = evs.skip(j + 1);
    assert(evs =~= pre + one + post);
    lemma_unsafe_concat(pre + one, post);
    lemma_unsafe_concat(pre, one);
    assert(one.drop_last() =~= Seq::<VisitEvent>::empty());
    assert(unsafe_patterns_of(one.drop_last()) =~= Seq::<UnsafePatternView>::empty());
    assert(one.last() == evs[j]);
    assert(unsafe_patterns_of(one) =~= unsafe_of(evs[j]));
    lemma_within_refl(unsafe_of(evs[j]));
    lemma_within_right(unsafe_of(evs[j]), unsafe_patterns_of(pre), unsafe_patterns_of(one));
    lemma_within_left(
        unsafe_of(evs[j]),
        unsafe_patterns_of(pre) + unsafe_patterns_of(one),
        unsafe_patterns_of(post),
    );
}

proof fn lemma_pattern_has_event(evs: Seq<VisitEvent>, k: int)
    requires
        0 <= k < unsafe_patterns_of(evs).len(),
    ensures
        exists|j: int| 0 <= j < evs.len() && #[trigger] unsafe_of(evs[j]).contains(unsafe_patterns_of(evs)[k]),
    decreases evs.len(),
{
    let prev = unsafe_patterns_of(evs.drop_last());
    let last = unsafe_of(evs.last());
    assert(unsafe_patterns_of(evs) == prev + last);
    if k < prev.len() {
        lemma_pattern_has_event(evs.drop_last(), k);
        let j = choose|j: int| 0 <= j < evs.drop_last().len() && #[trigger] unsafe_of(evs.drop_last()[j]).contains(prev[k]);
        assert(evs[j] == evs.drop_last()[j]);
        assert(unsafe_of(evs[j]).contains(unsafe_patterns_of(evs)[k]));
    } else {
        assert(last[k - prev.len()] == unsafe_patterns_of(evs)[k]);
        assert(unsafe_of(evs[evs.len() - 1]).contains(unsafe_patterns_of(evs)[k]));
    }
}

/// Whatever events occur in a walk, their patterns occur among the walk's
/// patterns: no `panic!`, `.unwrap()` or `.expect()` that the walk meets is
/// dropped.
pub proof fn patterns_of_events_within(a: Seq<VisitEvent>, b: Seq<VisitEvent>)
    requires
        all_within(a, b),
    ensures
        all_within(unsafe_patterns_of(a), unsafe_patterns_of(b)),
{
    assert forall|k: int| 0 <= k < unsafe_patterns_of(a).len() implies unsafe_patterns_of(b).contains(
        #[trigger] unsafe_patterns_of(a)[k],
    ) by {
        lemma_pattern_has_event(a, k);
        let j = choose|j: int| 0 <= j < a.len() && #[trigger] unsafe_of(a[j]).contains(unsafe_patterns_of(a)[k]);
        assert(b.contains(a[j]));
        let jb = choose|jb: int| 0 <= jb < b.len() && b[jb] == a[j];
        lemma_event_patterns_within(b, jb);
        let x = unsafe_patterns_of(a)[k];
        let i = choose|i: int| 0 <= i < unsafe_of(a[j]).len() && unsafe_of(a[j])[i] == x;
        assert(unsafe_patterns_of(b).contains(unsafe_of(b[jb])[i]));
    }
}

/// A method call of `unwrap` or `expect` yields its pattern, at the line of
/// the method name.
pub proof fn method_call_pattern_is_reported(m: MethodCall)
    ensures
        m.method@ == "unwrap"@ ==> unsafe_patterns_of(ev_expr(ExprNode::MethodCall(m))).contains(
            UnsafePatternView {
                pattern_type: PatternType::Unwrap,
                line: m.method_line as nat,
                snippet: ".unwrap()"@,
            },
        ),
        m.method@ == "expect"@ ==> unsafe_patterns_of(ev_expr(ExprNode::MethodCall(m))).contains(
            UnsafePatternView {
                pattern_type: PatternType::Expect,
                line: m.method_line as nat,
                snippet: ".expect()"@,
            },
        ),
{
    let evs = ev_expr(ExprNode::MethodCall(m));
    let ev = VisitEvent::MethodCall { method: m.method, line: m.method_line };
    assert(evs[0] == ev);
    lemma_event_patterns_within(evs, 0);
    reveal_strlit(".");
    reveal_strlit("()");
    reveal_strlit("unwrap");
    reveal_strlit("expect");
    reveal_strlit(".unwrap()");
    reveal_strlit(".expect()");
    assert("."@ + "unwrap"@ + "()"@ =~= ".unwrap()"@);
    assert("."@ + "expect"@ + "()"@ =~= ".expect()"@);
    if m.method@ == "unwrap"@ {
        assert(unsafe_of(ev)[0] == UnsafePatternView {
            pattern_type: PatternType::Unwrap,
            line: m.method_line as nat,
            snippet: ".unwrap()"@,
        });
        assert(unsafe_patterns_of(evs).contains(unsafe_of(ev)[0]));
    }
    if m.method@ == "expect"@ {
        assert(m.method@[0] != "unwrap"@[0]);
        assert(unsafe_of(ev)[0] == UnsafePatternView {
            pattern_type: PatternType::Expect,
            line: m.method_line as nat,
            snippet: ".expect()"@,
        });
        assert(unsafe_patterns_of(evs).contains(unsafe_of(ev)[0]));
    }
}

/// Every pattern inside an argument of a call, and inside the called
/// expression, is a pattern of the call: `Some(x.unwrap())` reports the
/// `.unwrap()`.
pub proof fn call_argument_patterns_are_reported(func: ExprNode, args: Vec<ExprNode>, i: int)
    requires
        0 <= i < args@.len(),
    ensures
        all_within(
            unsafe_patterns_of(ev_expr(args@[i])),
            unsafe_patterns_of(ev_expr(ExprNode::Call { func: Box::new(func), args })),
        ),
        all_within(
            unsafe_patterns_of(ev_expr(func)),
            unsafe_patterns_of(ev_expr(ExprNode::Call { func: Box::new(func), args })),
        ),
{
    let e = ExprNode::Call { func: Box::new(func), args };
    walk_reaches_subexpressions(e);
    assert(all_within(ev_expr(args@[i]), ev_expr(e)));
    patterns_of_events_within(ev_expr(args@[i]), ev_expr(e));
    patterns_of_events_within(ev_expr(func), ev_expr(e));
}

/// Every pattern inside any part of an `if` (condition, `then` block,
/// `else` branch) is a pattern of the `if`.
pub proof fn if_branch_patterns_are_reported(cond: ExprNode, then_branch: BlockNode, x: ExprNode)
    ensures
        all_within(
            unsafe_patterns_of(ev_expr(x)),
            unsafe_patterns_of(ev_expr(ExprNode::If {
                cond: Box::new(cond),
                then_branch,
                else_branch: Some(Box::new(x)),
            })),
        ),
        all_within(
            unsafe_patterns_of(ev_block(then_branch)),
            unsafe_patterns_of(ev_expr(ExprNode::If {
                cond: Box::new(cond),
                then_branch,
                else_branch: Some(Box::new(x)),
            })),
        ),
{
    let e = ExprNode::If { cond: Box::new(cond), then_branch, else_branch: Some(Box::new(x)) };
    walk_reaches_subexpressions(e);
    patterns_of_events_within(ev_expr(x), ev_expr(e));
    patterns_of_events_within(ev_block(then_branch), ev_expr(e));
}

} // verus!
