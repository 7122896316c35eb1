//! Masking of sensitive values (tokens, passwords, e-mail addresses, home
//! directories, device codes) before any output leaves the machine.
use vstd::prelude::*;

use crate::text::{trim, trim_str};

verus! {

#[verifier::external_type_specification]
#[verifier::external_body]
pub struct ExRegex(regex::Regex);

#[verifier::external_type_specification]
#[verifier::external_body]
pub struct ExRegexError(regex::Error);

/// Whether `regex::Regex::new` accepts the pattern.
pub uninterp spec fn regex_compiles(pattern: Seq<char>) -> bool;

/// What `regex::Regex::replace_all` gives for the regex compiled from
/// `pattern`, the haystack and the replacement template.
pub uninterp spec fn regex_replace_all(
    pattern: Seq<char>,
    haystack: Seq<char>,
    replacement: Seq<char>,
) -> Seq<char>;

/// Compiles a regular expression.
///
/// Calls `regex::Regex::new`, which compiles the pattern with the default
/// size limit and fails on an invalid pattern or one over that limit. The
/// contract names the outcome: `Ok` exactly when [`regex_compiles`] holds of
/// the pattern, a function of the pattern alone.
#[verifier::external_body]
fn compile_regex(pattern: &str) -> (r: Result<regex::Regex, regex::Error>)
    ensures
        r is Ok <==> regex_compiles(pattern@),
{
    regex::Regex::new(pattern)
}

/// A compiled regular expression together with the pattern it was compiled
/// from. Only [`Pattern::compile`] makes one, so the two always agree.
pub struct Pattern {
    regex: regex::Regex,
    source: Ghost<Seq<char>>,
}

impl Pattern {
    /// The pattern that the regular expression was compiled from.
    pub closed spec fn source(&self) -> Seq<char> {
        self.source@
    }

    /// Compiles `pattern`; `None` when the regex crate rejects it.
    pub fn compile(pattern: &str) -> (r: Option<Pattern>)
        ensures
            r is Some <==> regex_compiles(pattern@),
            r matches Some(p) ==> p.source() == pattern@,
    {
        match compile_regex(pattern) {
            Ok(regex) => Some(Pattern { regex, source: Ghost(pattern@) }),
            Err(_) => None,
        }
    }
}

/// Replaces every non-overlapping match of the pattern.
///
/// Calls `regex::Regex::replace_all` on the regex compiled from
/// `pattern.source()`, with `replacement` read as a template (`$1` stands for
/// the first capture group), and takes the result as an owned string. The
/// contract names the result: [`regex_replace_all`] of the pattern, the
/// haystack and the replacement.
#[verifier::external_body]
fn replace_all(pattern: &Pattern, haystack: &str, replacement: &str) -> (r: String)
    ensures
        r@ == regex_replace_all(pattern.source(), haystack@, replacement@),
{
    pattern.regex.replace_all(haystack, replacement).into_owned()
}

/// The redaction rules, in the order they apply: a pattern and what each of
/// its matches becomes.
pub open spec fn redaction_rules() -> Seq<(Seq<char>, Seq<char>)> {
    seq![
        (r"(?i)(ghp|gho|ghu|ghs|ghr)_[A-Za-z0-9_]{20,}"@, "[REDACTED_TOKEN]"@),
        (r"(?i)(vercel_[A-Za-z0-9]{20,}|[A-Za-z0-9]{24,}\.[A-Za-z0-9._-]{20,})"@, "[REDACTED_TOKEN]"@),
        (r"(?i)(password|passwd|pwd)\s*[:=]\s*\S+"@, "$1=[REDACTED_PASSWORD]"@),
        (r"(?i)[A-Z0-9._%+-]+@[A-Z0-9.-]+\.[A-Z]{2,}"@, "[REDACTED_EMAIL]"@),
        (r"/Users/[^/\s]+"@, "/Users/[REDACTED_USER]"@),
        (r"C:\\Users\\[^\\\s]+"@, "C:\\Users\\[REDACTED_USER]"@),
        (r"(?i)(device code|code)\s*[:=]\s*[A-Z0-9-]{4,}"@, "$1=[REDACTED_CODE]"@),
    ]
}

/// Every rule's pattern compiles.
pub open spec fn rules_compile(rules: Seq<(Seq<char>, Seq<char>)>) -> bool {
    forall|i: int| 0 <= i < rules.len() ==> regex_compiles(#[trigger] rules[i].0)
}

/// `text` after each rule has replaced its matches, in order.
pub open spec fn apply_rules(rules: Seq<(Seq<char>, Seq<char>)>, text: Seq<char>) -> Seq<char>
    decreases rules.len(),
{
    if rules.len() == 0 {
        text
    } else {
        regex_replace_all(
            rules.last().0,
            apply_rules(rules.drop_last(), text),
            rules.last().1,
        )
    }
}

/// `text` with its sensitive values masked, trimmed.
pub open spec fn redacted(text: Seq<char>) -> Seq<char> {
    trim(apply_rules(redaction_rules(), text))
}

/// Masks tokens, passwords, e-mail addresses, home directories and device
/// codes in `input`, and trims the result. `None` when a rule's pattern does
/// not compile.
pub fn redact(input: &str) -> (r: Option<String>)
    ensures
        r is Some <==> rules_compile(redaction_rules()),
        r matches Some(s) ==> s@ == redacted(input@),
{
    let rules: Vec<(&str, &str)> = vec![
        (r"(?i)(ghp|gho|ghu|ghs|ghr)_[A-Za-z0-9_]{20,}", "[REDACTED_TOKEN]"),
        (r"(?i)(vercel_[A-Za-z0-9]{20,}|[A-Za-z0-9]{24,}\.[A-Za-z0-9._-]{20,})", "[REDACTED_TOKEN]"),
        (r"(?i)(password|passwd|pwd)\s*[:=]\s*\S+", "$1=[REDACTED_PASSWORD]"),
        (r"(?i)[A-Z0-9._%+-]+@[A-Z0-9.-]+\.[A-Z]{2,}", "[REDACTED_EMAIL]"),
        (r"/Users/[^/\s]+", "/Users/[REDACTED_USER]"),
        (r"C:\\Users\\[^\\\s]+", "C:\\Users\\[REDACTED_USER]"),
        (r"(?i)(device code|code)\s*[:=]\s*[A-Z0-9-]{4,}", "$1=[REDACTED_CODE]"),
    ];
    let ghost spec_rules = redaction_rules();
    assert(rules@.map_values(|r: (&str, &str)| (r.0@, r.1@)) =~= spec_rules);
    let mut output = input.to_owned();
    let n = rules.len();
    let mut i: usize = 0;
    while i < n
        invariant
            n == rules@.len(),
            i <= n,
            spec_rules == redaction_rules(),
            rules@.map_values(|r: (&str, &str)| (r.0@, r.1@)) == spec_rules,
            rules_compile(spec_rules.take(i as int)),
            output@ == apply_rules(spec_rules.take(i as int), input@),
        decreases n - i,
    {
        let (pattern, replacement) = rules[i];
        assert(spec_rules[i as int] == (pattern@, replacement@));
        let compiled = match Pattern::compile(pattern) {
            Some(p) => p,
            None => {
                assert(!regex_compiles(spec_rules[i as int].0));
                return None;
            },
        };
        output = replace_all(&compiled, output.as_str(), replacement);
        proof {
            let t = spec_rules.take(i + 1);
            assert(t.drop_last() =~= spec_rules.take(i as int));
            assert(t.last() == spec_rules[i as int]);
            assert forall|k: int| 0 <= k < t.len() implies regex_compiles(#[trigger] t[k].0) by {
                if k < i {
                    assert(t[k] == spec_rules.take(i as int)[k]);
                }
            }
        }
        i += 1;
    }
    assert(spec_rules.take(n as int) =~= spec_rules);
    Some(trim_str(output.as_str()))
}

/// The masked form of a sample text, for the preview in the interface.
pub fn preview_redaction(sample: String) -> (r: Option<String>)
    ensures
        r is Some <==> rules_compile(redaction_rules()),
        r matches Some(s) ==> s@ == redacted(sample@),
{
    redact(sample.as_str())
}

} // verus!
