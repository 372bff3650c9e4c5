//! What the analyses report.
use vstd::prelude::*;

verus! {

/// How far a ledger entry is over or near its size limit.
#[derive(PartialEq, Eq, Structural, Clone, Copy, Debug)]
pub enum SizeWarningLevel {
    ExceedsLimit,
    ApproachingLimit,
}

/// A `#[contracttype]` struct or enum whose estimated size is over or near
/// the ledger entry limit.
pub struct SizeWarning {
    pub struct_name: String,
    pub estimated_size: usize,
    pub limit: usize,
    pub level: SizeWarningLevel,
}

/// The plain content of a `SizeWarning`.
pub struct SizeWarningView {
    pub struct_name: Seq<char>,
    pub estimated_size: nat,
    pub limit: nat,
    pub level: SizeWarningLevel,
}

impl View for SizeWarning {
    type V = SizeWarningView;

    open spec fn view(&self) -> SizeWarningView {
        SizeWarningView {
            struct_name: self.struct_name@,
            estimated_size: self.estimated_size as nat,
            limit: self.limit as nat,
            level: self.level,
        }
    }
}

/// The kind of a panicking construct.
#[derive(PartialEq, Eq, Structural, Clone, Copy, Debug)]
pub enum PatternType {
    Panic,
    Unwrap,
    Expect,
}

/// A `panic!`, `.unwrap()` or `.expect()` found in the source.
pub struct UnsafePattern {
    pub pattern_type: PatternType,
    pub line: usize,
    pub snippet: String,
}

/// The plain content of an `UnsafePattern`.
pub struct UnsafePatternView {
    pub pattern_type: PatternType,
    pub line: nat,
    pub snippet: Seq<char>,
}

impl View for UnsafePattern {
    type V = UnsafePatternView;

    open spec fn view(&self) -> UnsafePatternView {
        UnsafePatternView {
            pattern_type: self.pattern_type,
            line: self.line as nat,
            snippet: self.snippet@,
        }
    }
}

/// A construct in an impl method that can panic.
pub struct PanicIssue {
    pub function_name: String,
    pub issue_type: String,
    pub location: String,
}

/// The plain content of a `PanicIssue`.
pub struct PanicIssueView {
    pub function_name: Seq<char>,
    pub issue_type: Seq<char>,
    pub location: Seq<char>,
}

impl View for PanicIssue {
    type V = PanicIssueView;

    open spec fn view(&self) -> PanicIssueView {
        PanicIssueView {
            function_name: self.function_name@,
            issue_type: self.issue_type@,
            location: self.location@,
        }
    }
}

/// Unchecked arithmetic in a function.
pub struct ArithmeticIssue {
    pub function_name: String,
    pub operation: String,
    pub suggestion: String,
    pub location: String,
}

/// The plain content of an `ArithmeticIssue`.
pub struct ArithmeticIssueView {
    pub function_name: Seq<char>,
    pub operation: Seq<char>,
    pub suggestion: Seq<char>,
    pub location: Seq<char>,
}

impl View for ArithmeticIssue {
    type V = ArithmeticIssueView;

    open spec fn view(&self) -> ArithmeticIssueView {
        ArithmeticIssueView {
            function_name: self.function_name@,
            operation: self.operation@,
            suggestion: self.suggestion@,
            location: self.location@,
        }
    }
}

/// A line matched by a custom rule.
pub struct CustomRuleMatch {
    pub rule_name: String,
    pub line: usize,
    pub snippet: String,
}

/// The plain content of a `CustomRuleMatch`.
pub struct CustomRuleMatchView {
    pub rule_name: Seq<char>,
    pub line: nat,
    pub snippet: Seq<char>,
}

impl View for CustomRuleMatch {
    type V = CustomRuleMatchView;

    open spec fn view(&self) -> CustomRuleMatchView {
        CustomRuleMatchView { rule_name: self.rule_name@, line: self.line as nat, snippet: self.snippet@ }
    }
}

/// The estimated gas cost of a public contract function.
pub struct GasEstimation {
    pub function_name: String,
    pub estimated_gas: u64,
    pub complexity_score: usize,
}

/// A failure reported by a runtime guard.
pub enum Error {
    InvariantViolation(String),
    Internal(String),
}

/// The message of an error: `invariant violation: ..` or `internal error: ..`.
pub open spec fn error_message(e: Error) -> Seq<char> {
    match e {
        Error::InvariantViolation(s) => "invariant violation: "@ + s@,
        Error::Internal(s) => "internal error: "@ + s@,
    }
}

impl Error {
    /// The human-readable message of this error.
    pub fn message(&self) -> (m: String)
        ensures
            m@ == error_message(*self),
    {
        match self {
            Error::InvariantViolation(s) => String::from_str("invariant violation: ").concat(s.as_str()),
            Error::Internal(s) => String::from_str("internal error: ").concat(s.as_str()),
        }
    }
}

/// A finding in a report: its severity, where it is, and what it says.
pub struct Finding {
    pub severity: String,
    pub file: String,
    pub line: usize,
    pub message: String,
}

} // verus!
