//! Rule-based URI rewriting for target location.
//!
//! Each rule holds a compiled pattern; every matching rule rewrites the
//! URI string in turn.  What a pattern matches is the regex engine's
//! business and is not specified here; the rule bookkeeping is.

use vstd::prelude::*;

use crate::config::RewriteRule;

verus! {

#[verifier::external_type_specification]
#[verifier::external_body]
pub struct ExRegex(regex::Regex);

#[verifier::external_type_specification]
#[verifier::external_body]
pub struct ExRegexError(regex::Error);

/// Relies on `regex::Regex::new`: compiles the pattern, or fails on an
/// invalid one.
pub assume_specification[ regex::Regex::new ](re: &str) -> Result<regex::Regex, regex::Error>;

/// Relies on `regex::Regex::is_match`: whether the pattern matches
/// somewhere in the haystack.
#[verifier::external_body]
fn regex_is_match(re: &regex::Regex, haystack: &str) -> bool {
    re.is_match(haystack)
}

/// Relies on `regex::Regex::replace_all`: every non-overlapping match
/// replaced by the replacement (which may use capture groups).
#[verifier::external_body]
fn regex_replace_all(re: &regex::Regex, haystack: &str, rep: &str) -> String {
    re.replace_all(haystack, rep).to_string()
}

/// Rewrites SIP target URIs by a list of compiled rules.
pub struct RewriteTargetLocator {
    pub rules: Vec<(regex::Regex, String)>,
}

impl RewriteTargetLocator {
    /// Compile the configured rules, dropping any whose pattern does
    /// not compile.
    pub fn new(rules: Vec<RewriteRule>) -> (r: RewriteTargetLocator)
        ensures
            r.rules@.len() <= rules@.len(),
    {
        let mut remaining = rules;
        let ghost total = remaining@.len();
        let mut compiled: Vec<(regex::Regex, String)> = Vec::new();
        while remaining.len() > 0
            invariant
                compiled@.len() + remaining@.len() <= total,
            decreases remaining@.len(),
        {
            let rule = remaining.remove(0);
            match regex::Regex::new(rule.pattern.as_str()) {
                Ok(re) => {
                    compiled.push((re, rule.rewrite));
                },
                Err(_) => {},
            }
        }
        RewriteTargetLocator { rules: compiled }
    }

    /// Apply every matching rule to the URI string in order.  Returns
    /// the rewritten string and whether any rule matched; with no rules
    /// the URI comes back unchanged.
    pub fn rewrite_uri(&self, uri: &String) -> (r: (String, bool))
        ensures
            self.rules@.len() == 0 ==> r.0@ == uri@ && !r.1,
    {
        let mut target: String = uri.clone();
        let mut matched = false;
        let n = self.rules.len();
        let mut i: usize = 0;
        while i < n
            invariant
                n == self.rules@.len(),
                i <= n,
                n == 0 ==> target@ == uri@ && !matched,
            decreases n - i,
        {
            if regex_is_match(&self.rules[i].0, target.as_str()) {
                let rewritten = regex_replace_all(
                    &self.rules[i].0,
                    target.as_str(),
                    self.rules[i].1.as_str(),
                );
                target = rewritten;
                matched = true;
            }
            i += 1;
        }
        (target, matched)
    }
}

} // verus!
