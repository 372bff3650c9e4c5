//! Verified core of a static analyzer for Soroban smart contracts, and the
//! logic of the reference contracts it is tried on.
//!
//! The analyses read Rust source text, parsed by `syn` into the library's own
//! syntax model (`parse`, `syntax`): authorization gaps (`auth`), panicking constructs (`panics`,
//! `patterns`), unchecked arithmetic (`patterns`), ledger entry sizes
//! (`ledger`), user-defined regular-expression rules (`custom_rules`) and
//! gas estimates (`analyzer`).  `serve` holds the decisions of the analysis
//! service, and `contracts` the logic of the reference contracts.
pub mod analyzer;
pub mod auth;
pub mod config;
pub mod contracts;
pub mod custom_rules;
pub mod findings;
pub mod ledger;
pub mod occurs;
pub mod panics;
pub mod parse;
pub mod patterns;
pub mod serve;
pub mod syntax;
pub mod text;
pub mod visit;

pub use analyzer::Analyzer;
pub use config::{
    default_enabled_rules, default_ignore_paths, default_ledger_limit, CustomRule, SanctifyConfig,
    DEFAULT_LEDGER_ENTRY_LIMIT,
};
pub use findings::{
    ArithmeticIssue, CustomRuleMatch, Error, Finding, GasEstimation, PanicIssue, PatternType,
    SizeWarning, SizeWarningLevel, UnsafePattern,
};
pub use ledger::classify_size;
