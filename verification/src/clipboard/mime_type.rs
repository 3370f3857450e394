//! Which of the offered type names answers a request.
//!
//! Type names are compared as std compares strings without regard to ASCII
//! case: byte by byte in their UTF-8 form, the upper-case ASCII letters folded.

use crate::ascii::{
    bytes_eq_ignore_case, bytes_lower_ends_with, bytes_lower_starts_with, eq_ignore_case,
    lower_ends_with, lower_starts_with, str_eq_ignore_case,
};
use vstd::prelude::*;
use vstd::string::*;
use vstd::utf8::*;

verus! {

/// No offered type name answers the request.
#[derive(Debug, Clone, Copy, PartialEq, Eq)]
pub struct NoMatch {}

/// How a rule reads its pattern.
#[derive(Debug, Clone, Copy, PartialEq, Eq)]
pub enum MatchKind {
    /// The name equals the pattern up to ASCII case.
    Exact,
    /// The folded name ends with the pattern.
    Suffix,
    /// The folded name starts with the pattern.
    Prefix,
}

/// One rule of the text policy.
pub struct TextRule {
    pub kind: MatchKind,
    pub pattern: &'static str,
}

/// A rule as contracts see it.
pub struct Rule {
    pub kind: MatchKind,
    pub pattern: Seq<char>,
}

impl View for TextRule {
    type V = Rule;

    open spec fn view(&self) -> Rule {
        Rule { kind: self.kind, pattern: self.pattern@ }
    }
}

/// Two type names are the same up to ASCII case.
pub open spec fn same_type(a: Seq<char>, b: Seq<char>) -> bool {
    eq_ignore_case(encode_utf8(a), encode_utf8(b))
}

pub open spec fn rule_matches(rule: Rule, name: Seq<char>) -> bool {
    match rule.kind {
        MatchKind::Exact => same_type(name, rule.pattern),
        MatchKind::Suffix => lower_ends_with(encode_utf8(name), encode_utf8(rule.pattern)),
        MatchKind::Prefix => lower_starts_with(encode_utf8(name), encode_utf8(rule.pattern)),
    }
}

/// The rules of the text policy: the canonical names of plain text, the one
/// of highest priority first; then the endings of text-like formats; then the
/// `text/` family.
pub open spec fn text_rules() -> Seq<Rule> {
    seq![
        Rule { kind: MatchKind::Exact, pattern: "text/plain;charset=utf-8"@ },
        Rule { kind: MatchKind::Exact, pattern: "text/plain"@ },
        Rule { kind: MatchKind::Exact, pattern: "TEXT"@ },
        Rule { kind: MatchKind::Exact, pattern: "STRING"@ },
        Rule { kind: MatchKind::Exact, pattern: "UTF8_STRING"@ },
        Rule { kind: MatchKind::Exact, pattern: "json"@ },
        Rule { kind: MatchKind::Exact, pattern: "CF_TEXT"@ },
        Rule { kind: MatchKind::Exact, pattern: "CF_UNICODETEXT"@ },
        Rule { kind: MatchKind::Suffix, pattern: "script"@ },
        Rule { kind: MatchKind::Suffix, pattern: "xml"@ },
        Rule { kind: MatchKind::Suffix, pattern: "yaml"@ },
        Rule { kind: MatchKind::Suffix, pattern: "csv"@ },
        Rule { kind: MatchKind::Suffix, pattern: "ini"@ },
        Rule { kind: MatchKind::Prefix, pattern: "text/"@ },
    ]
}

/// The least index from `start` on whose name the rule matches.
pub open spec fn first_match_from(supported: Seq<Seq<char>>, rule: Rule, start: int) -> Option<int>
    decreases supported.len() - start,
{
    if start >= supported.len() {
        None
    } else if rule_matches(rule, supported[start]) {
        Some(start)
    } else {
        first_match_from(supported, rule, start + 1)
    }
}

/// The least index whose name the rule matches.
pub open spec fn first_match(supported: Seq<Seq<char>>, rule: Rule) -> Option<int> {
    first_match_from(supported, rule, 0)
}

/// The first match of the first rule, from rule `k` on, that matches at all.
pub open spec fn first_by_rules_from(
    supported: Seq<Seq<char>>,
    rules: Seq<Rule>,
    k: int,
) -> Option<Seq<char>>
    decreases rules.len() - k,
{
    if k >= rules.len() {
        None
    } else {
        match first_match(supported, rules[k]) {
            Some(i) => Some(supported[i]),
            None => first_by_rules_from(supported, rules, k + 1),
        }
    }
}

/// The rules for the canonical names of plain text, by priority.
pub open spec fn canonical_rules() -> Seq<Rule> {
    text_rules().subrange(0, CANONICAL_RULES as int)
}

/// The rules for the endings of text-like formats.
pub open spec fn ending_rules() -> Seq<Rule> {
    text_rules().subrange(CANONICAL_RULES as int, CANONICAL_RULES + ENDING_RULES)
}

/// The rule for the `text/` family.
pub open spec fn family_rule() -> Rule {
    text_rules()[CANONICAL_RULES + ENDING_RULES]
}

/// One of the rules matches the name.
pub open spec fn matches_any(rules: Seq<Rule>, name: Seq<char>) -> bool {
    exists|k: int| 0 <= k < rules.len() && rule_matches(#[trigger] rules[k], name)
}

/// The least index from `start` on whose name one of the rules matches.
pub open spec fn first_any_from(supported: Seq<Seq<char>>, rules: Seq<Rule>, start: int) -> Option<
    int,
>
    decreases supported.len() - start,
{
    if start >= supported.len() {
        None
    } else if matches_any(rules, supported[start]) {
        Some(start)
    } else {
        first_any_from(supported, rules, start + 1)
    }
}

/// The offered name that stands for plain text, if there is one.
///
/// A canonical name of plain text goes first, and among these names the
/// priority decides, not the place in the offer. Where none is offered, the
/// first offered name that has one of the endings is picked; where none has,
/// the first offered name of the `text/` family.
pub open spec fn any_text(supported: Seq<Seq<char>>) -> Option<Seq<char>> {
    match first_by_rules_from(supported, canonical_rules(), 0) {
        Some(name) => Some(name),
        None => match first_any_from(supported, ending_rules(), 0) {
            Some(i) => Some(supported[i]),
            None => match first_match(supported, family_rule()) {
                Some(i) => Some(supported[i]),
                None => None,
            },
        },
    }
}

/// The request asks for text of any kind: it is empty, `text` or `UTF8_STRING`.
pub open spec fn is_generic_text(preferred: Seq<char>) -> bool {
    ||| preferred.len() == 0
    ||| same_type(preferred, "text"@)
    ||| same_type(preferred, "UTF8_STRING"@)
}

/// The offered name that answers `preferred`.
pub open spec fn decide(preferred: Seq<char>, supported: Seq<Seq<char>>) -> Option<Seq<char>> {
    if is_generic_text(preferred) {
        any_text(supported)
    } else {
        match first_match(supported, Rule { kind: MatchKind::Exact, pattern: preferred }) {
            Some(i) => Some(supported[i]),
            None => None,
        }
    }
}

/// `first_match_from` finds the least matching index at or after `start`, and
/// finds nothing only where nothing matches.
pub proof fn lemma_first_match_from(supported: Seq<Seq<char>>, rule: Rule, start: int)
    requires
        0 <= start,
    ensures
        match first_match_from(supported, rule, start) {
            Some(i) => {
                &&& start <= i < supported.len()
                &&& rule_matches(rule, supported[i])
                &&& forall|j: int| start <= j < i ==> !rule_matches(rule, #[trigger] supported[j])
            },
            None => forall|j: int|
                start <= j < supported.len() ==> !rule_matches(rule, #[trigger] supported[j]),
        },
    decreases supported.len() - start,
{
    if start < supported.len() && !rule_matches(rule, supported[start]) {
        lemma_first_match_from(supported, rule, start + 1);
    }
}

/// `first_any_from` finds the least index at or after `start` whose name one
/// of the rules matches, and finds nothing only where there is no such name.
pub proof fn lemma_first_any_from(supported: Seq<Seq<char>>, rules: Seq<Rule>, start: int)
    requires
        0 <= start,
    ensures
        match first_any_from(supported, rules, start) {
            Some(i) => {
                &&& start <= i < supported.len()
                &&& matches_any(rules, supported[i])
                &&& forall|j: int| start <= j < i ==> !matches_any(rules, #[trigger] supported[j])
            },
            None => forall|j: int|
                start <= j < supported.len() ==> !matches_any(rules, #[trigger] supported[j]),
        },
    decreases supported.len() - start,
{
    if start < supported.len() && !matches_any(rules, supported[start]) {
        lemma_first_any_from(supported, rules, start + 1);
    }
}

/// Among rules that go by priority, the name that is picked is the first
/// match of some rule, and no rule before that one matches any offer; nothing
/// is picked only where no rule matches any offer.
pub proof fn lemma_first_by_rules_from(supported: Seq<Seq<char>>, rules: Seq<Rule>, k: int)
    requires
        0 <= k,
    ensures
        match first_by_rules_from(supported, rules, k) {
            Some(name) => exists|r: int|
                {
                    &&& k <= r < rules.len()
                    &&& #[trigger] first_match(supported, rules[r]) is Some
                    &&& name == supported[first_match(supported, rules[r])->0]
                    &&& forall|j: int|
                        k <= j < r ==> #[trigger] first_match(supported, rules[j]) is None
                },
            None => forall|j: int|
                k <= j < rules.len() ==> #[trigger] first_match(supported, rules[j]) is None,
        },
    decreases rules.len() - k,
{
    if k < rules.len() {
        if first_match(supported, rules[k]) is None {
            lemma_first_by_rules_from(supported, rules, k + 1);
        }
    }
}

/// A request for one type is answered with the first offered name that equals
/// it up to ASCII case, in the spelling of the offer.
pub proof fn lemma_decide_exact(preferred: Seq<char>, supported: Seq<Seq<char>>, i: int)
    requires
        !is_generic_text(preferred),
        0 <= i < supported.len(),
        same_type(supported[i], preferred),
    ensures
        decide(preferred, supported) is Some,
        same_type(decide(preferred, supported)->0, preferred),
        exists|k: int|
            {
                &&& 0 <= k <= i
                &&& decide(preferred, supported) == Some(#[trigger] supported[k])
                &&& forall|j: int| 0 <= j < k ==> !same_type(#[trigger] supported[j], preferred)
            },
        (forall|j: int| 0 <= j < i ==> !same_type(#[trigger] supported[j], preferred)) ==> decide(
            preferred,
            supported,
        ) == Some(supported[i]),
{
    lemma_first_match_from(supported, Rule { kind: MatchKind::Exact, pattern: preferred }, 0);
}

/// A request for one type that no offer equals is not answered.
pub proof fn lemma_decide_none(preferred: Seq<char>, supported: Seq<Seq<char>>)
    requires
        !is_generic_text(preferred),
        forall|j: int| 0 <= j < supported.len() ==> !same_type(#[trigger] supported[j], preferred),
    ensures
        decide(preferred, supported) is None,
{
    lemma_first_match_from(supported, Rule { kind: MatchKind::Exact, pattern: preferred }, 0);
}

/// From an empty offer nothing is picked, whatever the request.
pub proof fn lemma_decide_empty(preferred: Seq<char>)
    ensures
        decide(preferred, Seq::<Seq<char>>::empty()) is None,
{
    let supported = Seq::<Seq<char>>::empty();
    lemma_first_by_rules_from(supported, canonical_rules(), 0);
    if first_by_rules_from(supported, canonical_rules(), 0) is Some {
        let r = choose|r: int|
            0 <= r < canonical_rules().len() && #[trigger] first_match(
                supported,
                canonical_rules()[r],
            ) is Some;
        lemma_first_match_from(supported, canonical_rules()[r], 0);
    }
}

/// Where no canonical name of plain text is offered, the endings go by the
/// order of the offer: the first offered name that has one of them is picked,
/// whichever ending it is.
pub proof fn lemma_any_text_by_ending(supported: Seq<Seq<char>>, i: int)
    requires
        forall|j: int, k: int|
            0 <= j < supported.len() && 0 <= k < canonical_rules().len() ==> !rule_matches(
                #[trigger] canonical_rules()[k],
                #[trigger] supported[j],
            ),
        0 <= i < supported.len(),
        matches_any(ending_rules(), supported[i]),
        forall|j: int| 0 <= j < i ==> !matches_any(ending_rules(), #[trigger] supported[j]),
    ensures
        any_text(supported) == Some(supported[i]),
{
    lemma_first_by_rules_from(supported, canonical_rules(), 0);
    if first_by_rules_from(supported, canonical_rules(), 0) is Some {
        let r = choose|r: int|
            0 <= r < canonical_rules().len() && #[trigger] first_match(
                supported,
                canonical_rules()[r],
            ) is Some;
        lemma_first_match_from(supported, canonical_rules()[r], 0);
    }
    lemma_first_any_from(supported, ending_rules(), 0);
}

/// Whether `name` matches a rule of the given kind and pattern.
pub fn matches_rule(kind: MatchKind, pattern: &str, name: &str) -> (r: bool)
    ensures
        r == rule_matches(Rule { kind, pattern: pattern@ }, name@),
{
    match kind {
        MatchKind::Exact => bytes_eq_ignore_case(name.as_bytes(), pattern.as_bytes()),
        MatchKind::Suffix => bytes_lower_ends_with(name.as_bytes(), pattern.as_bytes()),
        MatchKind::Prefix => bytes_lower_starts_with(name.as_bytes(), pattern.as_bytes()),
    }
}

/// The index of the first offered name that the rule matches.
pub fn find_match(supported: &Vec<String>, kind: MatchKind, pattern: &str) -> (r: Option<usize>)
    ensures
        first_match(supported.deep_view(), Rule { kind, pattern: pattern@ }) == match r {
            Some(i) => Some(i as int),
            None => None,
        },
        r matches Some(i) ==> i < supported.len(),
{
    let ghost names = supported.deep_view();
    let ghost rule = Rule { kind, pattern: pattern@ };
    let mut i: usize = 0;
    while i < supported.len()
        invariant
            i <= supported.len(),
            names == supported.deep_view(),
            rule == (Rule { kind, pattern: pattern@ }),
            first_match(names, rule) == first_match_from(names, rule, i as int),
        decreases supported.len() - i,
    {
        if matches_rule(kind, pattern, supported[i].as_str()) {
            return Some(i);
        }
        i += 1;
    }
    None
}

/// The number of rules in the text policy.
pub const TEXT_RULES: usize = 14;

/// The number of its rules for canonical names, which come first.
pub const CANONICAL_RULES: usize = 8;

/// The number of its rules for endings, which come next.
pub const ENDING_RULES: usize = 5;

/// Rule `k` of the text policy, where there is one.
pub fn text_rule(k: usize) -> (r: Option<TextRule>)
    ensures
        text_rules().len() == TEXT_RULES,
        r is Some <==> k < TEXT_RULES,
        r matches Some(rule) ==> rule@ == text_rules()[k as int],
{
    match k {
        0 => Some(TextRule { kind: MatchKind::Exact, pattern: "text/plain;charset=utf-8" }),
        1 => Some(TextRule { kind: MatchKind::Exact, pattern: "text/plain" }),
        2 => Some(TextRule { kind: MatchKind::Exact, pattern: "TEXT" }),
        3 => Some(TextRule { kind: MatchKind::Exact, pattern: "STRING" }),
        4 => Some(TextRule { kind: MatchKind::Exact, pattern: "UTF8_STRING" }),
        5 => Some(TextRule { kind: MatchKind::Exact, pattern: "json" }),
        6 => Some(TextRule { kind: MatchKind::Exact, pattern: "CF_TEXT" }),
        7 => Some(TextRule { kind: MatchKind::Exact, pattern: "CF_UNICODETEXT" }),
        8 => Some(TextRule { kind: MatchKind::Suffix, pattern: "script" }),
        9 => Some(TextRule { kind: MatchKind::Suffix, pattern: "xml" }),
        10 => Some(TextRule { kind: MatchKind::Suffix, pattern: "yaml" }),
        11 => Some(TextRule { kind: MatchKind::Suffix, pattern: "csv" }),
        12 => Some(TextRule { kind: MatchKind::Suffix, pattern: "ini" }),
        13 => Some(TextRule { kind: MatchKind::Prefix, pattern: "text/" }),
        _ => None,
    }
}

/// Whether the name has one of the endings of text-like formats.
pub fn has_text_ending(name: &str) -> (r: bool)
    ensures
        r == matches_any(ending_rules(), name@),
{
    let mut k: usize = 0;
    while k < ENDING_RULES
        invariant
            k <= ENDING_RULES,
            ending_rules().len() == ENDING_RULES,
            forall|j: int| 0 <= j < k ==> !rule_matches(#[trigger] ending_rules()[j], name@),
        decreases ENDING_RULES - k,
    {
        match text_rule(CANONICAL_RULES + k) {
            Some(rule) => {
                assert(rule@ == ending_rules()[k as int]);
                if matches_rule(rule.kind, rule.pattern, name) {
                    return true;
                }
            },
            None => {},
        }
        k += 1;
    }
    false
}

/// The index of the first offered name that has one of the endings of
/// text-like formats.
pub fn find_text_ending(supported: &Vec<String>) -> (r: Option<usize>)
    ensures
        first_any_from(supported.deep_view(), ending_rules(), 0) == match r {
            Some(i) => Some(i as int),
            None => None,
        },
        r matches Some(i) ==> i < supported.len(),
{
    let ghost names = supported.deep_view();
    let mut i: usize = 0;
    while i < supported.len()
        invariant
            i <= supported.len(),
            names == supported.deep_view(),
            first_any_from(names, ending_rules(), 0) == first_any_from(
                names,
                ending_rules(),
                i as int,
            ),
        decreases supported.len() - i,
    {
        if has_text_ending(supported[i].as_str()) {
            return Some(i);
        }
        i += 1;
    }
    None
}

/// Picks the offered name that stands for plain text: a canonical name, the
/// one of highest priority; else the first offered name with one of the
/// endings; else the first offered name of the `text/` family.
pub fn try_any_text(supported: &Vec<String>) -> (r: Option<String>)
    ensures
        r.deep_view() == any_text(supported.deep_view()),
{
    let ghost names = supported.deep_view();
    let mut k: usize = 0;
    while k < CANONICAL_RULES
        invariant
            k <= CANONICAL_RULES,
            canonical_rules().len() == CANONICAL_RULES,
            names == supported.deep_view(),
            first_by_rules_from(names, canonical_rules(), 0) == first_by_rules_from(
                names,
                canonical_rules(),
                k as int,
            ),
        decreases CANONICAL_RULES - k,
    {
        match text_rule(k) {
            Some(rule) => {
                assert(rule@ == canonical_rules()[k as int]);
                match find_match(supported, rule.kind, rule.pattern) {
                    Some(i) => {
                        return Some(supported[i].clone());
                    },
                    None => {},
                }
            },
            None => {},
        }
        k += 1;
    }
    match find_text_ending(supported) {
        Some(i) => {
            return Some(supported[i].clone());
        },
        None => {},
    }
    match text_rule(CANONICAL_RULES + ENDING_RULES) {
        Some(rule) => match find_match(supported, rule.kind, rule.pattern) {
            Some(i) => Some(supported[i].clone()),
            None => None,
        },
        None => None,
    }
}

/// Whether the request asks for text of any kind.
pub fn is_generic_text_request(preferred: &str) -> (r: bool)
    ensures
        r == is_generic_text(preferred@),
{
    preferred.is_empty() || str_eq_ignore_case(preferred, "text") || str_eq_ignore_case(
        preferred,
        "UTF8_STRING",
    )
}

/// Picks the offered type name that answers `preferred`.
///
/// A request for text of any kind goes by the text policy. Any other request
/// is answered only by a name that equals it up to ASCII case, the first such
/// name offered.
pub fn decide_mime_type(preferred: &str, supported: &Vec<String>) -> (r: Result<String, NoMatch>)
    ensures
        match decide(preferred@, supported.deep_view()) {
            Some(name) => r is Ok && r->Ok_0@ == name,
            None => r is Err,
        },
{
    if is_generic_text_request(preferred) {
        match try_any_text(supported) {
            Some(name) => Ok(name),
            None => Err(NoMatch {  }),
        }
    } else {
        match find_match(supported, MatchKind::Exact, preferred) {
            Some(i) => {
                Ok(supported[i].clone())
            },
            None => Err(NoMatch {  }),
        }
    }
}

/// What a paste reads, given the request and the offer: a type name to ask
/// for; nothing, where nothing is on offer, or where text of any kind was
/// asked for and none is on offer; and `NoMatch` where one type was asked for
/// by name and is not on offer.
pub open spec fn paste_choice(preferred: Seq<char>, supported: Seq<Seq<char>>) -> Result<
    Option<Seq<char>>,
    NoMatch,
> {
    if supported.len() == 0 {
        Ok(None)
    } else {
        match decide(preferred, supported) {
            Some(name) => Ok(Some(name)),
            None => if is_generic_text(preferred) {
                Ok(None)
            } else {
                Err(NoMatch {  })
            },
        }
    }
}

/// Picks the type name that a paste asks for.
pub fn choose_paste_type(preferred: &str, supported: &Vec<String>) -> (r: Result<
    Option<String>,
    NoMatch,
>)
    ensures
        match paste_choice(preferred@, supported.deep_view()) {
            Ok(choice) => r is Ok && r->Ok_0.deep_view() == choice,
            Err(_) => r is Err,
        },
{
    if supported.len() == 0 {
        return Ok(None);
    }
    match decide_mime_type(preferred, supported) {
        Ok(name) => Ok(Some(name)),
        Err(e) => if is_generic_text_request(preferred) {
            Ok(None)
        } else {
            Err(e)
        },
    }
}

} // verus!
