//! User-defined rules: regular expressions matched line by line against the
//! source text.
use vstd::prelude::*;
use crate::analyzer::Analyzer;
use crate::config::CustomRule;
use crate::findings::{CustomRuleMatch, CustomRuleMatchView};
use crate::text::{are_line_bounds, chars_of, line_bounds, lines, string_from_chars, trim, trimmed_string};

verus! {

#[verifier::external_type_specification]
#[verifier::external_body]
pub struct ExRegex(regex::Regex);

/// Whether `regex::Regex::new` accepts `pattern` (it is valid syntax and
/// within the default size limit).
pub uninterp spec fn regex_compiles(pattern: Seq<char>) -> bool;

/// Whether the regular expression `pattern` has a match anywhere in
/// `haystack` (`regex::Regex::find` returns `Some`).
pub uninterp spec fn regex_finds(pattern: Seq<char>, haystack: Seq<char>) -> bool;

/// A compiled regular expression together with the pattern it was compiled
/// from.
pub struct CompiledPattern {
    re: regex::Regex,
    source: String,
}

impl CompiledPattern {
    /// The pattern this regular expression was compiled from.
    pub closed spec fn pattern(&self) -> Seq<char> {
        self.source@
    }
}

/// Compiles `pattern` with `regex::Regex::new`: `Some` exactly when the
/// crate accepts the pattern, holding the pattern it was compiled from.
#[verifier::external_body]
fn compile_pattern(pattern: &str) -> (r: Option<CompiledPattern>)
    ensures
        r is Some == regex_compiles(pattern@),
        r matches Some(c) ==> c.pattern() == pattern@,
{
    match regex::Regex::new(pattern) {
        Ok(re) => Some(CompiledPattern { re, source: pattern.to_string() }),
        Err(_) => None,
    }
}

/// Whether `regex::Regex::find` finds a match of the compiled pattern in
/// `haystack`.
#[verifier::external_body]
fn find_in(c: &CompiledPattern, haystack: &str) -> (r: bool)
    ensures
        r == regex_finds(c.pattern(), haystack@),
{
    c.re.find(haystack).is_some()
}

/// The matches of rule `name` with pattern `pat` among the first `n` lines,
/// numbered from 1, each with its trimmed text.
pub open spec fn line_matches(
    name: Seq<char>,
    pat: Seq<char>,
    ls: Seq<Seq<char>>,
    n: nat,
) -> Seq<CustomRuleMatchView>
    decreases n,
{
    if n == 0 {
        seq![]
    } else {
        line_matches(name, pat, ls, (n - 1) as nat) + if regex_finds(pat, ls[n - 1]) {
            seq![CustomRuleMatchView { rule_name: name, line: n, snippet: trim(ls[n - 1]) }]
        } else {
            seq![]
        }
    }
}

/// The matches of one rule: none when its pattern does not compile.
pub open spec fn rule_matches(rule: CustomRule, ls: Seq<Seq<char>>) -> Seq<CustomRuleMatchView> {
    if regex_compiles(rule.pattern@) {
        line_matches(rule.name@, rule.pattern@, ls, ls.len())
    } else {
        seq![]
    }
}

/// The matches of the rules, rule by rule.
pub open spec fn custom_matches(rules: Seq<CustomRule>, ls: Seq<Seq<char>>) -> Seq<
    CustomRuleMatchView,
>
    decreases rules.len(),
{
    if rules.len() == 0 {
        seq![]
    } else {
        custom_matches(rules.drop_last(), ls) + rule_matches(rules.last(), ls)
    }
}

/// Whether a match names a line of `ls` (numbered from 1) and carries that
/// line's trimmed text.
pub open spec fn names_a_line(m: CustomRuleMatchView, ls: Seq<Seq<char>>) -> bool {
    1 <= m.line <= ls.len() && m.snippet == trim(ls[m.line - 1])
}

proof fn lemma_line_matches_name_lines(
    name: Seq<char>,
    pat: Seq<char>,
    ls: Seq<Seq<char>>,
    n: nat,
)
    requires
        n <= ls.len(),
    ensures
        forall|k: int|
            0 <= k < line_matches(name, pat, ls, n).len() ==> names_a_line(
                #[trigger] line_matches(name, pat, ls, n)[k],
                ls,
            ),
    decreases n,
{
    if n > 0 {
        lemma_line_matches_name_lines(name, pat, ls, (n - 1) as nat);
        let prev = line_matches(name, pat, ls, (n - 1) as nat);
        let all = line_matches(name, pat, ls, n);
        assert forall|k: int| 0 <= k < all.len() implies names_a_line(#[trigger] all[k], ls) by {
            if k < prev.len() {
                assert(all[k] == prev[k]);
            }
        }
    }
}

/// Every match of the custom rules names a line of the source, numbered from
/// 1 up to the number of lines, and carries that line's trimmed text.
pub proof fn custom_matches_name_lines(rules: Seq<CustomRule>, ls: Seq<Seq<char>>)
    ensures
        forall|k: int|
            0 <= k < custom_matches(rules, ls).len() ==> names_a_line(
                #[trigger] custom_matches(rules, ls)[k],
                ls,
            ),
    decreases rules.len(),
{
    if rules.len() > 0 {
        custom_matches_name_lines(rules.drop_last(), ls);
        let r = rules.last();
        lemma_line_matches_name_lines(r.name@, r.pattern@, ls, ls.len());
        let prev = custom_matches(rules.drop_last(), ls);
        let all = custom_matches(rules, ls);
        assert forall|k: int| 0 <= k < all.len() implies names_a_line(#[trigger] all[k], ls) by {
            if k < prev.len() {
                assert(all[k] == prev[k]);
            } else {
                assert(all[k] == rule_matches(r, ls)[k - prev.len()]);
            }
        }
    }
}

/// The plain content of a list of matches.
pub open spec fn match_views(v: Seq<CustomRuleMatch>) -> Seq<CustomRuleMatchView> {
    v.map_values(|m: CustomRuleMatch| m@)
}

impl Analyzer {
    /// For each configured rule whose pattern compiles, in order, every line
    /// of `source` that the pattern matches somewhere, with its line number
    /// (from 1) and its trimmed text.  Rules whose pattern does not compile
    /// are skipped.
    pub fn analyze_custom_rules(&self, source: &str) -> (r: Vec<CustomRuleMatch>)
        ensures
            match_views(r@) == custom_matches(self.config.rules@, lines(source@)),
    {
        let chars = chars_of(source);
        let bounds = line_bounds(&chars);
        let ghost ls = lines(source@);
        let mut matches: Vec<CustomRuleMatch> = Vec::new();
        let rules = &self.config.rules;
        let mut k: usize = 0;
        while k < rules.len()
            invariant
                k <= rules@.len(),
                chars@ == source@,
                ls == lines(chars@),
                are_line_bounds(chars@, bounds@),
                match_views(matches@) == custom_matches(rules@.take(k as int), ls),
            decreases rules.len() - k,
        {
            assert(rules@.take(k + 1).drop_last() =~= rules@.take(k as int));
            assert(rules@.take(k + 1).last() == rules@[k as int]);
            let rule = &rules[k];
            match compile_pattern(rule.pattern.as_str()) {
                None => {
                    assert(match_views(matches@) =~= match_views(matches@) + rule_matches(
                        *rule,
                        ls,
                    ));
                },
                Some(re) => {
                    let ghost start = match_views(matches@);
                    let mut j: usize = 0;
                    while j < bounds.len()
                        invariant
                            j <= bounds@.len() == ls.len(),
                            chars@ == source@,
                            re.pattern() == rule.pattern@,
                            ls == lines(chars@),
                            are_line_bounds(chars@, bounds@),
                            match_views(matches@) == start + line_matches(
                                rule.name@,
                                rule.pattern@,
                                ls,
                                j as nat,
                            ),
                        decreases bounds.len() - j,
                    {
                        let (lo, hi) = bounds[j];
                        assert(chars@.subrange(lo as int, hi as int) == ls[j as int]);
                        let text = string_from_chars(&chars, lo, hi);
                        let ghost m0 = matches@;
                        if find_in(&re, text.as_str()) {
                            let snippet = trimmed_string(&chars, lo, hi);
                            matches.push(
                                CustomRuleMatch { rule_name: rule.name.clone(), line: j + 1, snippet },
                            );
                            assert(match_views(matches@) =~= match_views(m0).push(matches@.last()@));
                        }
                        assert(match_views(matches@) =~= start + line_matches(
                            rule.name@,
                            rule.pattern@,
                            ls,
                            (j + 1) as nat,
                        ));
                        j += 1;
                    }
                },
            }
            k += 1;
        }
        assert(rules@.take(rules@.len() as int) =~= rules@);
        matches
    }
}

} // verus!
