//! Analyzer configuration and its defaults.
use vstd::prelude::*;

verus! {

/// Default size limit of a ledger entry, in bytes (64 KiB).
pub const DEFAULT_LEDGER_ENTRY_LIMIT: usize = 65536;

/// A user-defined rule: lines of the source that the regular expression
/// `pattern` matches are reported under `name`.
pub struct CustomRule {
    pub name: String,
    pub pattern: String,
    pub description: String,
}

/// What the analyses are configured with.
///
/// The threshold above which an entry counts as approaching the ledger
/// limit is a fraction of `ledger_limit`; callers compute the size it
/// stands for and hand it to `Analyzer::analyze_ledger_size`.
pub struct SanctifyConfig {
    pub ignore_paths: Vec<String>,
    pub enabled_rules: Vec<String>,
    pub ledger_limit: usize,
    pub strict_mode: bool,
    /// Custom regular-expression rules.
    pub rules: Vec<CustomRule>,
}

/// The texts of a list of strings.
pub open spec fn texts(v: Seq<String>) -> Seq<Seq<char>> {
    v.map_values(|s: String| s@)
}

/// Paths skipped by default: `target` and `.git`.
pub fn default_ignore_paths() -> (r: Vec<String>)
    ensures
        texts(r@) == seq!["target"@, ".git"@],
{
    let mut r = Vec::new();
    r.push(String::from_str("target"));
    r.push(String::from_str(".git"));
    assert(texts(r@) =~= seq!["target"@, ".git"@]);
    r
}

/// Rules enabled by default: auth gaps, panics, arithmetic and ledger size.
pub fn default_enabled_rules() -> (r: Vec<String>)
    ensures
        texts(r@) == seq!["auth_gaps"@, "panics"@, "arithmetic"@, "ledger_size"@],
{
    let mut r = Vec::new();
    r.push(String::from_str("auth_gaps"));
    r.push(String::from_str("panics"));
    r.push(String::from_str("arithmetic"));
    r.push(String::from_str("ledger_size"));
    assert(texts(r@) =~= seq!["auth_gaps"@, "panics"@, "arithmetic"@, "ledger_size"@]);
    r
}

/// The default ledger entry limit.
pub fn default_ledger_limit() -> (r: usize)
    ensures
        r == DEFAULT_LEDGER_ENTRY_LIMIT,
{
    DEFAULT_LEDGER_ENTRY_LIMIT
}

impl Default for SanctifyConfig {
    fn default() -> (c: Self)
        ensures
            texts(c.ignore_paths@) == seq!["target"@, ".git"@],
            texts(c.enabled_rules@) == seq!["auth_gaps"@, "panics"@, "arithmetic"@, "ledger_size"@],
            c.ledger_limit == DEFAULT_LEDGER_ENTRY_LIMIT,
            !c.strict_mode,
            c.rules@.len() == 0,
    {
        SanctifyConfig {
            ignore_paths: default_ignore_paths(),
            enabled_rules: default_enabled_rules(),
            ledger_limit: default_ledger_limit(),
            strict_mode: false,
            rules: Vec::new(),
        }
    }
}

} // verus!
