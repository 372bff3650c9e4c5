use sanctifier_core::config::{
    default_enabled_rules, default_ignore_paths, default_ledger_limit, SanctifyConfig,
    DEFAULT_LEDGER_ENTRY_LIMIT,
};
use sanctifier_core::findings::Error;
use sanctifier_core::syntax::{has_contracttype, AttributeNode, SegmentNode, SegmentArgs, SynPath};
use sanctifier_core::text::{chars_of, line_bounds, same_text, to_hex_lower, trimmed_string};

#[test]
fn defaults() {
    assert_eq!(default_ignore_paths(), vec!["target".to_string(), ".git".to_string()]);
    assert_eq!(default_enabled_rules(), vec!["auth_gaps", "panics", "arithmetic", "ledger_size"]);
    assert_eq!(default_ledger_limit(), 65536);
    assert_eq!(DEFAULT_LEDGER_ENTRY_LIMIT, 64 * 1024);
    let c = SanctifyConfig::default();
    assert_eq!(c.ledger_limit, 65536);
    assert!(!c.strict_mode);
    assert!(c.rules.is_empty());
    assert_eq!(c.ignore_paths.len(), 2);
}

#[test]
fn error_messages() {
    assert_eq!(Error::InvariantViolation("x < 0".to_string()).message(), "invariant violation: x < 0");
    assert_eq!(Error::Internal("boom".to_string()).message(), "internal error: boom");
}

#[test]
fn lines_like_std() {
    for s in ["", "a", "a\n", "a\r\nb", "\n\n", "a\rb\n", "x\r", "\r\n"] {
        let chars = chars_of(s);
        let got: Vec<String> = line_bounds(&chars)
            .iter()
            .map(|&(lo, hi)| chars[lo..hi].iter().collect())
            .collect();
        let want: Vec<String> = s.lines().map(|l| l.to_string()).collect();
        assert_eq!(got, want, "lines of {:?}", s);
    }
}

#[test]
fn trim_like_std() {
    for s in ["", "  ", " a b ", "\t\u{3000}x\u{85}", "y"] {
        let chars = chars_of(s);
        assert_eq!(trimmed_string(&chars, 0, chars.len()), s.trim());
    }
}

#[test]
fn hex_and_text() {
    assert_eq!(to_hex_lower(&[0x00, 0xab, 0x0f, 0xff]), "00ab0fff");
    assert!(same_text("abc", "abc"));
    assert!(!same_text("abc", "abd"));
    assert!(!same_text("ab", "abc"));
}

#[test]
fn path_is_ident() {
    let p = SynPath {
        leading_colon: false,
        segments: vec![SegmentNode { ident: "panic".to_string(), args: SegmentArgs::Bare }],
    };
    assert!(p.is_ident("panic"));
    assert!(!p.is_ident("pani"));
    let q = SynPath {
        leading_colon: false,
        segments: vec![
            SegmentNode { ident: "std".to_string(), args: SegmentArgs::Bare },
            SegmentNode { ident: "panic".to_string(), args: SegmentArgs::Bare },
        ],
    };
    assert!(!q.is_ident("panic"));
    let r = SynPath {
        leading_colon: true,
        segments: vec![SegmentNode { ident: "panic".to_string(), args: SegmentArgs::Bare }],
    };
    assert!(!r.is_ident("panic"));
}

#[test]
fn contracttype_attribute() {
    let bare = |p: &[&str]| AttributeNode { is_bare_path: true, path: p.iter().map(|s| s.to_string()).collect() };
    assert!(has_contracttype(&vec![bare(&["derive"]), bare(&["soroban_sdk", "contracttype"])]));
    assert!(!has_contracttype(&vec![AttributeNode { is_bare_path: false, path: vec!["contracttype".to_string()] }]));
    assert!(!has_contracttype(&vec![bare(&["contract"])]));
}
