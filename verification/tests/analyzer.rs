use sanctifier_core::analyzer::Analyzer;
use sanctifier_core::classify_size;
use sanctifier_core::config::{CustomRule, SanctifyConfig};
use sanctifier_core::findings::{PatternType, SizeWarningLevel};
use sanctifier_core::syntax::{
    ArmNode, AttributeNode, BinOpKind, BlockNode, ExprNode, FnDef, GenericArg, ImplItemNode, ItemNode, LitNode, MacroCall,
    MethodCall, Part, SegmentNode, SegmentArgs, SourceFile, StmtNode, SynPath, TypeNode, VariantNode,
};

fn path(segs: &[&str]) -> SynPath {
    SynPath {
        leading_colon: false,
        segments: segs
            .iter()
            .map(|s| SegmentNode { ident: s.to_string(), args: SegmentArgs::Bare })
            .collect(),
    }
}

fn path_expr(segs: &[&str]) -> ExprNode {
    ExprNode::Path { qself: vec![], path: path(segs) }
}

fn ty(name: &str) -> TypeNode {
    TypeNode::Path { qself: vec![], path: path(&[name]) }
}

fn generic_ty(name: &str, args: Vec<TypeNode>) -> TypeNode {
    TypeNode::Path {
        qself: vec![],
        path: SynPath {
            leading_colon: false,
            segments: vec![SegmentNode {
                ident: name.to_string(),
                args: SegmentArgs::Angle(args.into_iter().map(GenericArg::Type).collect()),
            }],
        },
    }
}

fn call_method(receiver: ExprNode, method: &str, line: usize, args: Vec<ExprNode>, text: &str) -> ExprNode {
    ExprNode::MethodCall(MethodCall {
        receiver: Box::new(receiver),
        method: method.to_string(),
        method_line: line,
        turbofish: vec![],
        args,
        tokens_text: text.to_string(),
    })
}

fn reference(e: ExprNode) -> ExprNode {
    ExprNode::Other(vec![Part::Expr(e)])
}

fn mac(name: &str, line: usize) -> MacroCall {
    MacroCall { path: path(&[name]), line }
}

fn method(name: &str, is_pub: bool, stmts: Vec<StmtNode>) -> ImplItemNode {
    ImplItemNode::Fn(FnDef {
        name: name.to_string(),
        is_pub,
        sig: vec![Part::Type(ty("Env"))],
        body: BlockNode { stmts },
    })
}

fn impl_block(self_ty: &str, items: Vec<ImplItemNode>) -> ItemNode {
    ItemNode::Impl { header: vec![Part::Type(ty(self_ty))], items }
}

fn contracttype() -> AttributeNode {
    AttributeNode { is_bare_path: true, path: vec!["contracttype".to_string()] }
}

fn contract_struct(name: &str, fields: Vec<TypeNode>) -> ItemNode {
    ItemNode::Struct { attrs: vec![contracttype()], name: name.to_string(), generics: vec![], fields }
}

/// `env.storage().instance().set(&DataKey::Val, &val);`
fn storage_set_stmt() -> StmtNode {
    let storage = call_method(path_expr(&["env"]), "storage", 5, vec![], "env . storage () . receiver");
    let instance = call_method(
        storage,
        "instance",
        5,
        vec![],
        "env . storage () . instance () . receiver",
    );
    StmtNode::Expr(call_method(
        instance,
        "set",
        5,
        vec![reference(path_expr(&["DataKey", "Val"])), reference(path_expr(&["val"]))],
        "env . storage () . instance () . set (& DataKey :: Val , & val) . receiver",
    ))
}

#[test]
fn test_analyze_with_limit() {
    let mut config = SanctifyConfig::default();
    config.ledger_limit = 50;
    let analyzer = Analyzer::new(config);
    let source = r#"
            #[contracttype]
            pub struct ExceedsLimit {
                pub buffer: Bytes,
            }
        "#;
    let warnings = analyzer.analyze_ledger_size(source, 40);
    assert_eq!(warnings.len(), 1);
    assert_eq!(warnings[0].struct_name, "ExceedsLimit");
    assert_eq!(warnings[0].level, SizeWarningLevel::ExceedsLimit);
}

#[test]
fn test_complex_macro_no_panic() {
    let analyzer = Analyzer::new(SanctifyConfig::default());
    let source = r#"
            #[contractimpl]
            impl Contract {
                pub fn test(_env: Env) {
                    let _x = 1u32;
                }
            }
        "#;
    // Must not panic
    let _ = analyzer.analyze_ledger_size(source, 52428);
    let _ = analyzer.scan_auth_gaps(source);
}

#[test]
fn test_scan_auth_gaps() {
    let analyzer = Analyzer::new(SanctifyConfig::default());
    let source = r#"
            #[contractimpl]
            impl MyContract {
                pub fn set_data(env: Env, val: u32) {
                    env.storage().instance().set(&DataKey::Val, &val);
                }
            }
        "#;
    let gaps = analyzer.scan_auth_gaps(source);
    assert_eq!(gaps.len(), 1);
    assert_eq!(gaps[0], "set_data");
}

#[test]
fn auth_after_the_write_leaves_the_gap() {
    let analyzer = Analyzer::new(SanctifyConfig::default());
    let source = "impl C { pub fn f(env: Env, o: Address) { env.storage().instance().set(&K, &1u32); o.require_auth(); } }";
    assert_eq!(analyzer.scan_auth_gaps(source), vec!["f".to_string()]);
}

#[test]
fn auth_before_the_write_closes_the_gap() {
    let analyzer = Analyzer::new(SanctifyConfig::default());
    let source = r#"
        impl Vault {
            pub fn withdraw_safe(env: Env, account: Address, amount: i128) {
                account.require_auth();
                env.storage().persistent().set(&account, &amount);
            }
            pub fn withdraw_unsafe(env: Env, account: Address, amount: i128) {
                env.storage().persistent().set(&account, &amount);
            }
            pub fn balance(env: Env, account: Address) -> i128 {
                env.storage().persistent().get(&account).unwrap_or(0)
            }
        }
    "#;
    assert_eq!(analyzer.scan_auth_gaps(source), vec!["withdraw_unsafe".to_string()]);
}

#[test]
fn write_in_the_receiver_comes_before_the_auth_call() {
    let analyzer = Analyzer::new(SanctifyConfig::default());
    // The write is an argument of the authorization call, so it is evaluated
    // first.
    let source = "impl C { pub fn g(env: Env) { require_auth(env.storage().temporary().remove(&K)); } }";
    assert_eq!(analyzer.scan_auth_gaps(source), vec!["g".to_string()]);
}

#[test]
fn unparsable_source_gives_no_findings() {
    let analyzer = Analyzer::new(SanctifyConfig::default());
    let source = "impl { fn";
    assert!(analyzer.scan_auth_gaps(source).is_empty());
    assert!(analyzer.scan_panics(source).is_empty());
    assert!(analyzer.analyze_ledger_size(source, 10).is_empty());
    assert!(analyzer.analyze_unsafe_patterns(source).is_empty());
    assert!(analyzer.scan_arithmetic_overflow(source).is_empty());
    assert!(analyzer.scan_gas_estimation(source, |_b: &BlockNode| 1).is_empty());
}

#[test]
fn source_scans_find_panics_patterns_and_arithmetic() {
    let analyzer = Analyzer::new(SanctifyConfig::default());
    let source = "impl C {
    pub fn run(x: Option<u32>, y: u32) -> u32 {
        let v = x.unwrap();
        let w = [1u32, 2].iter().map(|z| z.checked_add(1).expect(\"e\")).sum::<u32>();
        if v > 3 { panic!(\"big\"); }
        v + y * w
    }
}";
    let panics = analyzer.scan_panics(source);
    let kinds: Vec<String> = panics.iter().map(|p| p.issue_type.clone()).collect();
    assert_eq!(kinds, vec!["unwrap".to_string(), "panic!".to_string()]);
    let patterns = analyzer.analyze_unsafe_patterns(source);
    let lines: Vec<usize> = patterns.iter().map(|p| p.line).collect();
    assert_eq!(lines, vec![3, 4, 5]);
    assert_eq!(patterns[1].pattern_type, PatternType::Expect);
    let arith = analyzer.scan_arithmetic_overflow(source);
    let ops: Vec<String> = arith.iter().map(|a| a.operation.clone()).collect();
    assert_eq!(ops, vec!["+".to_string(), "*".to_string()]);
    assert_eq!(arith[0].location, "run:6");
    let gas = analyzer.scan_gas_estimation(source, |b: &BlockNode| b.stmts.len() as u64);
    assert_eq!(gas.len(), 1);
    assert_eq!(gas[0].function_name, "run");
    assert_eq!(gas[0].estimated_gas, 4);
}

#[test]
fn auth_call_closes_the_gap() {
    let analyzer = Analyzer::new(SanctifyConfig::default());
    // caller.require_auth(); then the storage write
    let auth = StmtNode::Expr(call_method(
        path_expr(&["caller"]),
        "require_auth",
        4,
        vec![],
        "caller . require_auth () . receiver",
    ));
    let file = SourceFile {
        items: vec![impl_block(
            "Good",
            vec![
                method("guarded", true, vec![auth, storage_set_stmt()]),
                method("private_write", false, vec![storage_set_stmt()]),
            ],
        )],
    };
    assert!(analyzer.scan_auth_gaps_file(&file).is_empty());
}

#[test]
fn auth_macro_and_free_call_count() {
    let analyzer = Analyzer::new(SanctifyConfig::default());
    let by_macro = method("m", true, vec![StmtNode::Macro(mac("require_auth", 3)), storage_set_stmt()]);
    let by_call = method(
        "c",
        true,
        vec![
            StmtNode::Expr(ExprNode::Call {
                func: Box::new(path_expr(&["auth", "require_auth_for_args"])),
                args: vec![],
            }),
            storage_set_stmt(),
        ],
    );
    let gap_in_if = method(
        "i",
        true,
        vec![StmtNode::Expr(ExprNode::If {
            cond: Box::new(path_expr(&["flag"])),
            then_branch: BlockNode { stmts: vec![storage_set_stmt()] },
            else_branch: None,
        })],
    );
    let file = SourceFile { items: vec![impl_block("C", vec![by_macro, by_call, gap_in_if])] };
    assert_eq!(analyzer.scan_auth_gaps_file(&file), vec!["i".to_string()]);
}

#[test]
fn panics_are_reported_per_method() {
    let analyzer = Analyzer::new(SanctifyConfig::default());
    // let v = x.unwrap(); panic!(..); y.expect("e")
    let body = vec![
        StmtNode::Local {
            pat: vec![],
            init: Some(call_method(path_expr(&["x"]), "unwrap", 2, vec![], "x . unwrap () . receiver")),
            diverge: None,
        },
        StmtNode::Macro(mac("panic", 3)),
        StmtNode::Expr(call_method(
            path_expr(&["y"]),
            "expect",
            4,
            vec![ExprNode::Lit(LitNode::Str)],
            "y . expect (\"e\") . receiver",
        )),
    ];
    let file = SourceFile { items: vec![impl_block("C", vec![method("run", false, body)])] };
    let issues = analyzer.scan_panics_file(&file);
    let kinds: Vec<&str> = issues.iter().map(|i| i.issue_type.as_str()).collect();
    assert_eq!(kinds, vec!["unwrap", "panic!", "expect"]);
    assert!(issues.iter().all(|i| i.function_name == "run" && i.location == "run"));
}

#[test]
fn panics_inside_match_arms_are_found() {
    let analyzer = Analyzer::new(SanctifyConfig::default());
    let m = ExprNode::Match {
        scrutinee: Box::new(path_expr(&["v"])),
        arms: vec![ArmNode {
            pat: vec![],
            guard: None,
            body: ExprNode::Macro(mac("panic", 9)),
        }],
    };
    let file = SourceFile { items: vec![impl_block("C", vec![method("f", true, vec![StmtNode::Expr(m)])])] };
    let issues = analyzer.scan_panics_file(&file);
    assert_eq!(issues.len(), 1);
    assert_eq!(issues[0].issue_type, "panic!");
}

#[test]
fn unsafe_patterns_are_found_everywhere() {
    let analyzer = Analyzer::new(SanctifyConfig::default());
    let free_fn = ItemNode::Fn(FnDef {
        name: "helper".to_string(),
        is_pub: false,
        sig: vec![],
        body: BlockNode {
            stmts: vec![
                StmtNode::Expr(call_method(path_expr(&["a"]), "unwrap", 7, vec![], "a . unwrap () . receiver")),
                StmtNode::Macro(mac("panic", 8)),
                StmtNode::Macro(mac("println", 9)),
                StmtNode::Expr(call_method(path_expr(&["b"]), "expect", 10, vec![], "b . expect () . receiver")),
            ],
        },
    });
    let file = SourceFile { items: vec![free_fn] };
    let patterns = analyzer.analyze_unsafe_patterns_file(&file);
    assert_eq!(patterns.len(), 3);
    assert_eq!(patterns[0].pattern_type, PatternType::Unwrap);
    assert_eq!(patterns[0].line, 7);
    assert_eq!(patterns[0].snippet, ".unwrap()");
    assert_eq!(patterns[1].pattern_type, PatternType::Panic);
    assert_eq!(patterns[1].line, 8);
    assert_eq!(patterns[1].snippet, "panic!()");
    assert_eq!(patterns[2].pattern_type, PatternType::Expect);
    assert_eq!(patterns[2].snippet, ".expect()");
}

fn binary(left: ExprNode, op: BinOpKind, right: ExprNode, line: usize) -> ExprNode {
    ExprNode::Binary { left: Box::new(left), op, right: Box::new(right), line }
}

#[test]
fn arithmetic_is_reported_once_per_function_and_operator() {
    let analyzer = Analyzer::new(SanctifyConfig::default());
    let body = vec![
        StmtNode::Expr(binary(path_expr(&["a"]), BinOpKind::Add, path_expr(&["b"]), 12)),
        StmtNode::Expr(binary(path_expr(&["c"]), BinOpKind::Add, path_expr(&["d"]), 13)),
        StmtNode::Expr(binary(path_expr(&["c"]), BinOpKind::SubAssign, path_expr(&["d"]), 14)),
        StmtNode::Expr(binary(ExprNode::Lit(LitNode::Str), BinOpKind::Mul, path_expr(&["d"]), 15)),
        StmtNode::Expr(binary(path_expr(&["c"]), BinOpKind::Other, path_expr(&["d"]), 16)),
    ];
    let file = SourceFile { items: vec![impl_block("C", vec![method("sum", true, body)])] };
    let issues = analyzer.scan_arithmetic_overflow_file(&file);
    assert_eq!(issues.len(), 2);
    assert_eq!(issues[0].function_name, "sum");
    assert_eq!(issues[0].operation, "+");
    assert_eq!(issues[0].suggestion, "Use `.checked_add(rhs)` or `.saturating_add(rhs)`");
    assert_eq!(issues[0].location, "sum:12");
    assert_eq!(issues[1].operation, "-=");
    assert_eq!(
        issues[1].suggestion,
        "Replace with `a = a.checked_sub(b).expect(\"underflow\")`"
    );
    assert_eq!(issues[1].location, "sum:14");
}

#[test]
fn arithmetic_outside_functions_is_not_reported() {
    let analyzer = Analyzer::new(SanctifyConfig::default());
    // const N: u32 = 1 + 2;
    let konst = ItemNode::Other(vec![
        Part::Type(ty("u32")),
        Part::Expr(binary(ExprNode::Lit(LitNode::Int { value: Some(1) }), BinOpKind::Add, ExprNode::Lit(LitNode::Int { value: Some(2) }), 1)),
    ]);
    // fn outer() { fn inner() { x * y } ; a * b }
    let inner = ItemNode::Fn(FnDef {
        name: "inner".to_string(),
        is_pub: false,
        sig: vec![],
        body: BlockNode { stmts: vec![StmtNode::Expr(binary(path_expr(&["x"]), BinOpKind::Mul, path_expr(&["y"]), 3))] },
    });
    let outer = ItemNode::Fn(FnDef {
        name: "outer".to_string(),
        is_pub: false,
        sig: vec![],
        body: BlockNode {
            stmts: vec![
                StmtNode::Item(inner),
                StmtNode::Expr(binary(path_expr(&["a"]), BinOpKind::Mul, path_expr(&["b"]), 4)),
            ],
        },
    });
    let file = SourceFile { items: vec![konst, outer] };
    let issues = analyzer.scan_arithmetic_overflow_file(&file);
    let got: Vec<(String, String)> =
        issues.iter().map(|i| (i.function_name.clone(), i.location.clone())).collect();
    assert_eq!(
        got,
        vec![("inner".to_string(), "inner:3".to_string()), ("outer".to_string(), "outer:4".to_string())]
    );
}

#[test]
fn ledger_sizes_follow_the_type_table() {
    let mut config = SanctifyConfig::default();
    config.ledger_limit = 100;
    let analyzer = Analyzer::new(config);
    // Vec<u32> = 8 + 4; Map<u32, u64> = 16 + 2 * 12; Option<Address> = 1 + 32
    let s = contract_struct(
        "Mixed",
        vec![
            generic_ty("Vec", vec![ty("u32")]),
            generic_ty("Map", vec![ty("u32"), ty("u64")]),
            generic_ty("Option", vec![ty("Address")]),
        ],
    );
    let file = SourceFile { items: vec![s] };
    let w = analyzer.analyze_ledger_size_file(&file, 80);
    assert_eq!(w.len(), 1);
    assert_eq!(w[0].estimated_size, 12 + 40 + 33);
    assert_eq!(w[0].level, SizeWarningLevel::ApproachingLimit);
    assert_eq!(w[0].limit, 100);
}

#[test]
fn ledger_enum_and_array_sizes() {
    let mut config = SanctifyConfig::default();
    config.ledger_limit = 100;
    let analyzer = Analyzer::new(config);
    // [u64; 20] = 160 > 100
    let arr = contract_struct(
        "Arr",
        vec![TypeNode::Array {
            elem: Box::new(ty("u64")),
            len: Box::new(ExprNode::Lit(LitNode::Int { value: Some(20) })),
        }],
    );
    // enum E { A(i128), B(Bytes, u32) } = 4 + max(16, 68) = 72
    let e = ItemNode::Enum {
        attrs: vec![contracttype()],
        name: "E".to_string(),
        generics: vec![],
        variants: vec![
            VariantNode { fields: vec![ty("i128")], discriminant: None },
            VariantNode { fields: vec![ty("Bytes"), ty("u32")], discriminant: None },
        ],
    };
    // a struct without #[contracttype] is not estimated
    let plain = ItemNode::Struct {
        attrs: vec![],
        name: "Plain".to_string(),
        generics: vec![],
        fields: vec![ty("Bytes"), ty("Bytes")],
    };
    let file = SourceFile { items: vec![arr, e, plain] };
    let w = analyzer.analyze_ledger_size_file(&file, 70);
    assert_eq!(w.len(), 2);
    assert_eq!((w[0].struct_name.as_str(), w[0].estimated_size), ("Arr", 160));
    assert_eq!(w[0].level, SizeWarningLevel::ExceedsLimit);
    assert_eq!((w[1].struct_name.as_str(), w[1].estimated_size), ("E", 72));
    assert_eq!(w[1].level, SizeWarningLevel::ApproachingLimit);
}

#[test]
fn ledger_strict_mode_uses_half_the_limit() {
    let mut config = SanctifyConfig::default();
    config.ledger_limit = 100;
    config.strict_mode = true;
    let analyzer = Analyzer::new(config);
    let file = SourceFile { items: vec![contract_struct("S", vec![ty("Bytes")])] };
    let w = analyzer.analyze_ledger_size_file(&file, 80);
    assert_eq!(w.len(), 1);
    assert_eq!(w[0].level, SizeWarningLevel::ApproachingLimit);
}

#[test]
fn ledger_overflowing_estimate_reports_nothing() {
    let analyzer = Analyzer::new(SanctifyConfig::default());
    let huge = contract_struct(
        "Huge",
        vec![TypeNode::Array {
            elem: Box::new(ty("Bytes")),
            len: Box::new(ExprNode::Lit(LitNode::Int { value: Some(usize::MAX) })),
        }],
    );
    let big = contract_struct("Big", vec![TypeNode::Array {
        elem: Box::new(ty("Bytes")),
        len: Box::new(ExprNode::Lit(LitNode::Int { value: Some(2000) })),
    }]);
    let file = SourceFile { items: vec![big, huge] };
    assert!(analyzer.analyze_ledger_size_file(&file, 52428).is_empty());
}

#[test]
fn classify_size_levels() {
    assert_eq!(classify_size(51, 50, 40, false, 25), Some(SizeWarningLevel::ExceedsLimit));
    assert_eq!(classify_size(50, 50, 40, false, 25), Some(SizeWarningLevel::ApproachingLimit));
    assert_eq!(classify_size(40, 50, 40, false, 25), None);
    assert_eq!(classify_size(30, 50, 40, true, 25), Some(SizeWarningLevel::ApproachingLimit));
    assert_eq!(classify_size(30, 50, 40, false, 25), None);
}

#[test]
fn custom_rules_match_lines() {
    let mut config = SanctifyConfig::default();
    config.rules = vec![
        CustomRule {
            name: "no-unwrap".to_string(),
            pattern: r"\.unwrap\(\)".to_string(),
            description: String::new(),
        },
        CustomRule { name: "broken".to_string(), pattern: "foo(bar".to_string(), description: String::new() },
        CustomRule { name: "todo".to_string(), pattern: "TODO".to_string(), description: String::new() },
    ];
    let analyzer = Analyzer::new(config);
    let source = "fn a() {\r\n    let x = y.unwrap();  \n}\n  // TODO: fix\n";
    let m = analyzer.analyze_custom_rules(source);
    assert_eq!(m.len(), 2);
    assert_eq!(m[0].rule_name, "no-unwrap");
    assert_eq!(m[0].line, 2);
    assert_eq!(m[0].snippet, "let x = y.unwrap();");
    assert_eq!(m[1].rule_name, "todo");
    assert_eq!(m[1].line, 4);
    assert_eq!(m[1].snippet, "// TODO: fix");
}

#[test]
fn gas_estimates_cover_public_methods() {
    let analyzer = Analyzer::new(SanctifyConfig::default());
    let file = SourceFile {
        items: vec![impl_block(
            "C",
            vec![
                method("a", true, vec![storage_set_stmt()]),
                method("hidden", false, vec![]),
                method("b", true, vec![]),
            ],
        )],
    };
    let est = analyzer.scan_gas_estimation_file(&file, |b: &BlockNode| 100 + 10 * b.stmts.len() as u64);
    let got: Vec<(String, u64, usize)> =
        est.iter().map(|e| (e.function_name.clone(), e.estimated_gas, e.complexity_score)).collect();
    assert_eq!(got, vec![("a".to_string(), 110, 0), ("b".to_string(), 100, 0)]);
}

#[test]
fn storage_collisions_never_reported() {
    let analyzer = Analyzer::new(SanctifyConfig::default());
    assert!(!analyzer.check_storage_collisions(vec!["k".to_string(), "k".to_string()]));
}
