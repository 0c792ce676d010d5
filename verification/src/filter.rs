//! The unsupported-construct filter: an ordered table of name patterns and the
//! matcher that evaluates it.

use vstd::prelude::*;
use vstd::string::*;

verus! {

/// How the pattern of a rule is held against a name.
#[derive(Clone, Copy, Debug, PartialEq, Eq)]
pub enum RuleKind {
    /// The name is the pattern.
    Exact,
    /// The name ends with the pattern.
    Suffix,
    /// The name starts with the pattern.
    Prefix,
    /// The pattern occurs somewhere in the name.
    Contains,
}

/// One entry of the filter table.
#[derive(Clone, Copy, Debug, PartialEq, Eq)]
pub struct SkipRule {
    pub kind: RuleKind,
    pub pattern: &'static str,
}

/// What a rule says, with its pattern as a sequence of characters.
pub ghost struct RuleView {
    pub kind: RuleKind,
    pub pattern: Seq<char>,
}

impl View for SkipRule {
    type V = RuleView;

    open spec fn view(&self) -> RuleView {
        RuleView { kind: self.kind, pattern: self.pattern@ }
    }
}

/// `pat` stands in `s` at offset `at`.
pub open spec fn occurs_at(pat: Seq<char>, s: Seq<char>, at: int) -> bool {
    0 <= at && at + pat.len() <= s.len() && s.subrange(at, at + pat.len()) == pat
}

/// `s` starts with `pat`.
pub open spec fn starts_with(s: Seq<char>, pat: Seq<char>) -> bool {
    occurs_at(pat, s, 0)
}

/// `s` ends with `pat`.
pub open spec fn ends_with(s: Seq<char>, pat: Seq<char>) -> bool {
    occurs_at(pat, s, s.len() - pat.len())
}

/// `pat` occurs in `s`.
pub open spec fn contains(s: Seq<char>, pat: Seq<char>) -> bool {
    exists|at: int| occurs_at(pat, s, at)
}

/// The rule `rule` flags `name`.
pub open spec fn rule_matches(rule: RuleView, name: Seq<char>) -> bool {
    match rule.kind {
        RuleKind::Exact => name == rule.pattern,
        RuleKind::Suffix => ends_with(name, rule.pattern),
        RuleKind::Prefix => starts_with(name, rule.pattern),
        RuleKind::Contains => contains(name, rule.pattern),
    }
}

/// The filter table, in the order in which its rules are tried.
pub open spec fn skip_rules() -> Seq<RuleView> {
    seq![
        RuleView { kind: RuleKind::Exact, pattern: "fmt::ArgumentV1::<'a>::as_usize"@ },
        RuleView { kind: RuleKind::Suffix, pattern: "__getit"@ },
        RuleView { kind: RuleKind::Prefix, pattern: "bridge::client"@ },
        RuleView { kind: RuleKind::Exact, pattern: "bridge::closure::Closure::<'a, A, R>::call"@ },
        RuleView {
            kind: RuleKind::Prefix,
            pattern: "<std::future::from_generator::GenFuture<T>"@,
        },
        RuleView { kind: RuleKind::Contains, pattern: "reusable_box::ReusableBoxFuture"@ },
        RuleView {
            kind: RuleKind::Exact,
            pattern: "tokio::sync::Semaphore::acquire_owned::{closure#0}"@,
        },
    ]
}

/// Rule `i` of `rules` flags `name` and no earlier rule does.
pub open spec fn is_first_match(rules: Seq<RuleView>, name: Seq<char>, i: int) -> bool {
    &&& 0 <= i < rules.len()
    &&& rule_matches(rules[i], name)
    &&& forall|j: int| 0 <= j < i ==> !rule_matches(#[trigger] rules[j], name)
}

/// Some rule of `rules` flags `name`.
pub open spec fn some_rule_matches(rules: Seq<RuleView>, name: Seq<char>) -> bool {
    exists|i: int| 0 <= i < rules.len() && rule_matches(#[trigger] rules[i], name)
}

/// A function of this display name is not translated but stubbed.
pub open spec fn is_unsupported_name(name: Seq<char>) -> bool {
    some_rule_matches(skip_rules(), name)
}

/// The characters of `s`, one by one.
pub fn chars_of(s: &str) -> (v: Vec<char>)
    ensures
        v@ == s@,
{
    let n: usize = s.unicode_len();
    let mut v: Vec<char> = Vec::new();
    let mut i: usize = 0;
    while i < n
        invariant
            i <= n,
            n == s@.len(),
            v@ == s@.subrange(0, i as int),
        decreases n - i,
    {
        let c: char = s.get_char(i);
        v.push(c);
        i += 1;
        assert(v@ =~= s@.subrange(0, i as int));
    }
    assert(v@ =~= s@);
    v
}

/// Tests whether `pat` stands in `s` at offset `at`.
fn occurs_at_offset(pat: &Vec<char>, s: &Vec<char>, at: usize) -> (r: bool)
    requires
        at + pat@.len() <= s@.len(),
    ensures
        r == occurs_at(pat@, s@, at as int),
{
    let m: usize = pat.len();
    let n: usize = s.len();
    let mut k: usize = 0;
    while k < m
        invariant
            k <= m,
            m == pat@.len(),
            n == s@.len(),
            at + m <= n,
            forall|j: int| 0 <= j < k ==> s@[at + j] == pat@[j],
        decreases m - k,
    {
        if s[at + k] != pat[k] {
            assert(s@.subrange(at as int, at + m)[k as int] == s@[at + k]);
            return false;
        }
        k += 1;
    }
    assert(s@.subrange(at as int, at + m) =~= pat@);
    true
}

/// Tests whether `pat` occurs somewhere in `s`.
fn occurs_somewhere(pat: &Vec<char>, s: &Vec<char>) -> (r: bool)
    ensures
        r == contains(s@, pat@),
{
    let m: usize = pat.len();
    let n: usize = s.len();
    if m > n {
        return false;
    }
    let last: usize = n - m;
    let mut at: usize = 0;
    loop
        invariant
            at <= last,
            last == n - m,
            m == pat@.len(),
            n == s@.len(),
            m <= n,
            forall|j: int| 0 <= j < at ==> !occurs_at(pat@, s@, j),
        decreases last - at,
    {
        if occurs_at_offset(pat, s, at) {
            return true;
        }
        if at == last {
            return false;
        }
        at += 1;
    }
}

/// Holds one rule against a name given by its characters.
fn rule_flags(rule: &SkipRule, name: &Vec<char>) -> (r: bool)
    ensures
        r == rule_matches(rule@, name@),
{
    let pat: Vec<char> = chars_of(rule.pattern);
    let m: usize = pat.len();
    let n: usize = name.len();
    match rule.kind {
        RuleKind::Exact => {
            let r: bool = m == n && occurs_at_offset(&pat, name, 0);
            proof {
                if m == n {
                    assert(name@.subrange(0, n as int) =~= name@);
                }
            }
            r
        },
        RuleKind::Suffix => m <= n && occurs_at_offset(&pat, name, n - m),
        RuleKind::Prefix => m <= n && occurs_at_offset(&pat, name, 0),
        RuleKind::Contains => occurs_somewhere(&pat, name),
    }
}

/// Tells whether `rule` flags the display name `name`.
pub fn rule_applies(rule: &SkipRule, name: &str) -> (r: bool)
    ensures
        r == rule_matches(rule@, name@),
{
    let chars: Vec<char> = chars_of(name);
    rule_flags(rule, &chars)
}

/// The filter table as data.
pub fn unsupported_rules() -> (rules: Vec<SkipRule>)
    ensures
        rules@.map_values(|r: SkipRule| r@) == skip_rules(),
{
    let rules: Vec<SkipRule> = vec![
        SkipRule { kind: RuleKind::Exact, pattern: "fmt::ArgumentV1::<'a>::as_usize" },
        SkipRule { kind: RuleKind::Suffix, pattern: "__getit" },
        SkipRule { kind: RuleKind::Prefix, pattern: "bridge::client" },
        SkipRule { kind: RuleKind::Exact, pattern: "bridge::closure::Closure::<'a, A, R>::call" },
        SkipRule { kind: RuleKind::Prefix, pattern: "<std::future::from_generator::GenFuture<T>" },
        SkipRule { kind: RuleKind::Contains, pattern: "reusable_box::ReusableBoxFuture" },
        SkipRule {
            kind: RuleKind::Exact,
            pattern: "tokio::sync::Semaphore::acquire_owned::{closure#0}",
        },
    ];
    assert(rules@.map_values(|r: SkipRule| r@) =~= skip_rules());
    rules
}

/// Finds the first rule of `rules` that flags `name`.
pub fn first_matching_rule(rules: &Vec<SkipRule>, name: &str) -> (found: Option<usize>)
    ensures
        match found {
            Some(i) => is_first_match(rules@.map_values(|r: SkipRule| r@), name@, i as int),
            None => !some_rule_matches(rules@.map_values(|r: SkipRule| r@), name@),
        },
{
    let chars: Vec<char> = chars_of(name);
    let ghost views = rules@.map_values(|r: SkipRule| r@);
    let mut i: usize = 0;
    while i < rules.len()
        invariant
            i <= rules.len(),
            chars@ == name@,
            views == rules@.map_values(|r: SkipRule| r@),
            forall|j: int| 0 <= j < i ==> !rule_matches(#[trigger] views[j], name@),
        decreases rules.len() - i,
    {
        if rule_flags(&rules[i], &chars) {
            assert(views[i as int] == rules@[i as int]@);
            return Some(i);
        }
        assert(views[i as int] == rules@[i as int]@);
        i += 1;
    }
    None
}

/// Decides whether a function of this display name is stubbed instead of translated.
pub fn is_unsupported(name: &str) -> (r: bool)
    ensures
        r == is_unsupported_name(name@),
{
    let rules: Vec<SkipRule> = unsupported_rules();
    let found: Option<usize> = first_matching_rule(&rules, name);
    found.is_some()
}

} // verus!
