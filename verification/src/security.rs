//! Risk assessment engine: classifies a proposed action (an action type plus a
//! target string) as Low/Medium/High risk by scanning an ordered rule list,
//! after an optional whitelist bypass. List order is the tie-break: the first
//! matching rule decides, and an unmatched action falls back to Medium risk.

use vstd::prelude::*;
use vstd::string::StringExecFns;

use crate::text::{
    chars_contains, chars_eq, chars_has_prefix, chars_has_suffix, contains_seq, has_prefix,
    has_suffix, lemma_lower_seq_idempotent, lower_chars, lower_seq, split_commas,
    split_commas_exec, str_chars, str_eq, subvec, trim_space_chars, trim_spaces, views_of,
};

verus! {

/// Risk level of an assessed action.
#[derive(Debug, Clone, Copy, PartialEq, Eq, Structural)]
pub enum RiskLevel {
    Low,
    Medium,
    High,
}

/// Result of assessing one action.
#[derive(Debug, Clone, PartialEq)]
pub struct RiskAssessment {
    pub level: RiskLevel,
    pub reason: String,
    pub requires_confirmation: bool,
}

/// One matching predicate inside a rule: an action-type substring filter and a
/// comma-separated list of glob tokens for the target.
#[derive(Debug, Clone, PartialEq)]
pub struct RiskPattern {
    pub action_type: String,
    pub target_match: String,
    pub reason: String,
}

/// A named policy entry; it fires when any of its patterns matches.
#[derive(Debug, Clone, PartialEq)]
pub struct RiskRule {
    pub id: String,
    pub name: String,
    pub description: String,
    pub risk_level: String,
    pub patterns: Vec<RiskPattern>,
    pub requires_confirmation: bool,
    pub allowed_on_whitelist: bool,
}

/// Trusted targets that bypass rule evaluation entirely.
#[derive(Debug, Clone, PartialEq)]
pub struct Whitelist {
    pub enabled: bool,
    pub domains: Vec<String>,
}

/// A complete rule configuration: ordered rules plus the whitelist.
#[derive(Debug, Clone, PartialEq)]
pub struct RiskRulesConfig {
    pub version: String,
    pub rules: Vec<RiskRule>,
    pub whitelist: Whitelist,
}

// ===== matching semantics, as specification functions =====

/// One comma-separated token matches the target. The token is trimmed, then
/// read as `*` (match anything), `*inner*` (contains), `*suffix` (ends with),
/// `prefix*` (starts with) or an exact string; all comparisons ASCII-case-fold
/// the target and the token.
pub open spec fn token_matches(target: Seq<char>, raw: Seq<char>) -> bool {
    let t = trim_spaces(raw);
    if t.len() == 1 && t[0] == '*' {
        true
    } else if t.len() >= 2 && t[0] == '*' && t[t.len() - 1] == '*' {
        contains_seq(lower_seq(target), lower_seq(t.subrange(1, t.len() - 1)))
    } else if t.len() >= 1 && t[0] == '*' {
        has_suffix(lower_seq(target), lower_seq(t.subrange(1, t.len() as int)))
    } else if t.len() >= 1 && t[t.len() - 1] == '*' {
        has_prefix(lower_seq(target), lower_seq(t.subrange(0, t.len() - 1)))
    } else {
        lower_seq(target) == lower_seq(t)
    }
}

/// The single character `*`.
pub open spec fn is_star(s: Seq<char>) -> bool {
    s.len() == 1 && s[0] == '*'
}

/// The action-type filter passes when it is empty, `*`, or a case-folded
/// substring of the action type.
pub open spec fn action_filter_passes(action: Seq<char>, filter: Seq<char>) -> bool {
    filter.len() == 0 || is_star(filter) || contains_seq(lower_seq(action), lower_seq(filter))
}

/// The target filter passes when it is `*` or any of its comma-separated
/// tokens matches the target.
pub open spec fn target_filter_passes(target: Seq<char>, filter: Seq<char>) -> bool {
    is_star(filter) || exists|k: int|
        0 <= k < split_commas(filter).len() && token_matches(target, split_commas(filter)[k])
}

/// A pattern matches when both its action-type check and its target check pass.
pub open spec fn pattern_matches(action: Seq<char>, target: Seq<char>, p: RiskPattern) -> bool {
    action_filter_passes(action, p.action_type@) && target_filter_passes(target, p.target_match@)
}

/// One whitelist entry matches: `*.suffix` means the target contains `suffix`,
/// anything else is a plain substring test (case-sensitive).
pub open spec fn domain_entry_matches(target: Seq<char>, dom: Seq<char>) -> bool {
    if dom.len() >= 2 && dom[0] == '*' && dom[1] == '.' {
        contains_seq(target, dom.subrange(2, dom.len() as int))
    } else {
        contains_seq(target, dom)
    }
}

/// Some whitelist entry matches the target.
pub open spec fn whitelisted(target: Seq<char>, domains: Seq<String>) -> bool {
    exists|i: int| 0 <= i < domains.len() && domain_entry_matches(target, domains[i]@)
}

/// A rule fires when any of its patterns matches.
pub open spec fn rule_matches(action: Seq<char>, target: Seq<char>, r: RiskRule) -> bool {
    exists|j: int| 0 <= j < r.patterns@.len() && pattern_matches(action, target, r.patterns@[j])
}

/// The first matching pattern of a pattern list, scanned in order.
pub open spec fn first_matching_pattern(
    action: Seq<char>,
    target: Seq<char>,
    pats: Seq<RiskPattern>,
) -> Option<RiskPattern>
    decreases pats.len(),
{
    if pats.len() == 0 {
        None
    } else if pattern_matches(action, target, pats[0]) {
        Some(pats[0])
    } else {
        first_matching_pattern(action, target, pats.drop_first())
    }
}

/// The first rule (with its first matching pattern) that fires, in list order.
pub open spec fn first_match(
    action: Seq<char>,
    target: Seq<char>,
    rules: Seq<RiskRule>,
) -> Option<(RiskRule, RiskPattern)>
    decreases rules.len(),
{
    if rules.len() == 0 {
        None
    } else {
        match first_matching_pattern(action, target, rules[0].patterns@) {
            Some(p) => Some((rules[0], p)),
            None => first_match(action, target, rules.drop_first()),
        }
    }
}

/// Map a declared risk-level string to the closed enum; unrecognized values
/// normalize to Low.
pub open spec fn level_of(s: Seq<char>) -> RiskLevel {
    if s == "High"@ {
        RiskLevel::High
    } else if s == "Medium"@ {
        RiskLevel::Medium
    } else {
        RiskLevel::Low
    }
}

/// The full assessment: whitelist bypass first, then the ordered rule scan,
/// then the fail-safe Medium default. Returns (level, reason, confirmation).
pub open spec fn assessment_of(c: RiskRulesConfig, action: Seq<char>, target: Seq<char>) -> (
    RiskLevel,
    Seq<char>,
    bool,
) {
    if c.whitelist.enabled && whitelisted(target, c.whitelist.domains@) {
        (RiskLevel::Low, "Target is on whitelist"@, false)
    } else {
        match first_match(action, target, c.rules@) {
            Some(rp) => (level_of(rp.0.risk_level@), rp.1.reason@, rp.0.requires_confirmation),
            None => (RiskLevel::Medium, "No specific rule matched, assuming medium risk"@, false),
        }
    }
}

// ===== bridging lemmas =====

proof fn lemma_first_matching_pattern_found(
    action: Seq<char>,
    target: Seq<char>,
    pats: Seq<RiskPattern>,
    j: int,
)
    requires
        0 <= j < pats.len(),
        pattern_matches(action, target, pats[j]),
        forall|l: int| 0 <= l < j ==> !pattern_matches(action, target, pats[l]),
    ensures
        first_matching_pattern(action, target, pats) == Some(pats[j]),
    decreases j,
{
    if j == 0 {
    } else {
        assert(!pattern_matches(action, target, pats[0]));
        assert(pats.drop_first()[j - 1] == pats[j]);
        assert forall|l: int| 0 <= l < j - 1 implies !pattern_matches(
            action,
            target,
            pats.drop_first()[l],
        ) by {
            assert(pats.drop_first()[l] == pats[l + 1]);
        }
        lemma_first_matching_pattern_found(action, target, pats.drop_first(), j - 1);
    }
}

proof fn lemma_first_matching_pattern_iff(action: Seq<char>, target: Seq<char>, pats: Seq<
    RiskPattern,
>)
    ensures
        (first_matching_pattern(action, target, pats) is Some) <==> exists|j: int|
            0 <= j < pats.len() && pattern_matches(action, target, pats[j]),
    decreases pats.len(),
{
    if pats.len() == 0 {
    } else if pattern_matches(action, target, pats[0]) {
        assert(pattern_matches(action, target, pats[0int]));
    } else {
        lemma_first_matching_pattern_iff(action, target, pats.drop_first());
        if exists|j: int| 0 <= j < pats.len() && pattern_matches(action, target, pats[j]) {
            let j = choose|j: int| 0 <= j < pats.len() && pattern_matches(action, target, pats[j]);
            assert(j != 0);
            assert(pats.drop_first()[j - 1] == pats[j]);
            assert(first_matching_pattern(action, target, pats.drop_first()) is Some);
        }
        if first_matching_pattern(action, target, pats.drop_first()) is Some {
            let j = choose|j: int|
                0 <= j < pats.drop_first().len() && pattern_matches(
                    action,
                    target,
                    pats.drop_first()[j],
                );
            assert(pats.drop_first()[j] == pats[j + 1]);
            assert(pattern_matches(action, target, pats[j + 1]));
        }
    }
}

proof fn lemma_first_match_found(action: Seq<char>, target: Seq<char>, rules: Seq<RiskRule>, i: int)
    requires
        0 <= i < rules.len(),
        rule_matches(action, target, rules[i]),
        forall|k: int| 0 <= k < i ==> !rule_matches(action, target, rules[k]),
    ensures
        first_match(action, target, rules) is Some,
        first_match(action, target, rules).unwrap().0 == rules[i],
        Some(first_match(action, target, rules).unwrap().1) == first_matching_pattern(
            action,
            target,
            rules[i].patterns@,
        ),
    decreases i,
{
    lemma_first_matching_pattern_iff(action, target, rules[0].patterns@);
    if i == 0 {
        assert(first_matching_pattern(action, target, rules[0].patterns@) is Some);
    } else {
        assert(!rule_matches(action, target, rules[0]));
        assert(first_matching_pattern(action, target, rules[0].patterns@) is None);
        assert(rules.drop_first()[i - 1] == rules[i]);
        assert forall|k: int| 0 <= k < i - 1 implies !rule_matches(
            action,
            target,
            rules.drop_first()[k],
        ) by {
            assert(rules.drop_first()[k] == rules[k + 1]);
        }
        lemma_first_match_found(action, target, rules.drop_first(), i - 1);
    }
}

proof fn lemma_first_match_none(action: Seq<char>, target: Seq<char>, rules: Seq<RiskRule>)
    requires
        forall|k: int| 0 <= k < rules.len() ==> !rule_matches(action, target, rules[k]),
    ensures
        first_match(action, target, rules) is None,
    decreases rules.len(),
{
    if rules.len() == 0 {
    } else {
        lemma_first_matching_pattern_iff(action, target, rules[0].patterns@);
        assert(!rule_matches(action, target, rules[0int]));
        assert(first_matching_pattern(action, target, rules[0].patterns@) is None);
        assert forall|k: int| 0 <= k < rules.drop_first().len() implies !rule_matches(
            action,
            target,
            rules.drop_first()[k],
        ) by {
            assert(rules.drop_first()[k] == rules[k + 1]);
        }
        lemma_first_match_none(action, target, rules.drop_first());
    }
}

// ===== executable matcher =====

/// Match one comma-separated token (still untrimmed) against the target.
pub fn token_match(target: &Vec<char>, raw: &Vec<char>) -> (r: bool)
    ensures
        r == token_matches(target@, raw@),
{
    let t = trim_space_chars(raw);
    let lt = lower_chars(target);
    if t.len() == 1 && t[0] == '*' {
        true
    } else if t.len() >= 2 && t[0] == '*' && t[t.len() - 1] == '*' {
        let inner = subvec(&t, 1, t.len() - 1);
        let li = lower_chars(&inner);
        chars_contains(&lt, &li)
    } else if t.len() >= 1 && t[0] == '*' {
        let suf = subvec(&t, 1, t.len());
        let ls = lower_chars(&suf);
        chars_has_suffix(&lt, &ls)
    } else if t.len() >= 1 && t[t.len() - 1] == '*' {
        let pre = subvec(&t, 0, t.len() - 1);
        let lp = lower_chars(&pre);
        chars_has_prefix(&lt, &lp)
    } else {
        let l = lower_chars(&t);
        chars_eq(&lt, &l)
    }
}

/// Match one whitelist entry against the target.
fn domain_entry_match(target_chars: &Vec<char>, dom: &str) -> (r: bool)
    ensures
        r == domain_entry_matches(target_chars@, dom@),
{
    let d = str_chars(dom);
    if d.len() >= 2 && d[0] == '*' && d[1] == '.' {
        let suf = subvec(&d, 2, d.len());
        chars_contains(target_chars, &suf)
    } else {
        chars_contains(target_chars, &d)
    }
}

/// The risk assessment engine; holds an immutable rule configuration.
pub struct RiskEngine {
    config: RiskRulesConfig,
}

impl RiskEngine {
    /// The configuration this engine evaluates.
    pub closed spec fn cfg(self) -> RiskRulesConfig {
        self.config
    }

    /// Build an engine over the given configuration.
    pub fn new(config: RiskRulesConfig) -> (r: Self)
        ensures
            r.cfg() == config,
    {
        RiskEngine { config }
    }

    /// The built-in fallback configuration: one High-risk rule for `submit`
    /// and `delete` actions with confirmation required, and a whitelist
    /// pre-seeded with `localhost`.
    pub fn default() -> (r: Self)
        ensures
            is_default_config(r.cfg()),
    {
        Self::new(default_config())
    }

    /// Build an engine from a loaded configuration, or fall back to the
    /// built-in default when none could be loaded.
    pub fn from_config(config: Option<RiskRulesConfig>) -> (r: Self)
        ensures
            config is Some ==> r.cfg() == config.unwrap(),
            config is None ==> is_default_config(r.cfg()),
    {
        match config {
            Some(c) => Self::new(c),
            None => Self::default(),
        }
    }

    /// Whether some whitelist entry matches the target (ignores `enabled`;
    /// the caller short-circuits on that flag).
    pub fn is_whitelisted(&self, target: &str) -> (r: bool)
        ensures
            r == whitelisted(target@, self.cfg().whitelist.domains@),
    {
        let tc = str_chars(target);
        let mut i: usize = 0;
        while i < self.config.whitelist.domains.len()
            invariant
                tc@ == target@,
                i <= self.config.whitelist.domains@.len(),
                forall|k: int|
                    0 <= k < i ==> !domain_entry_matches(
                        target@,
                        self.config.whitelist.domains@[k]@,
                    ),
            decreases self.config.whitelist.domains@.len() - i,
        {
            if domain_entry_match(&tc, self.config.whitelist.domains[i].as_str()) {
                return true;
            }
            i += 1;
        }
        false
    }

    /// Whether a pattern matches the action/target pair.
    pub fn matches_pattern(&self, action_type: &str, target: &str, pattern: &RiskPattern) -> (r:
        bool)
        ensures
            r == pattern_matches(action_type@, target@, *pattern),
    {
        let filter = str_chars(pattern.action_type.as_str());
        if filter.len() > 0 && !(filter.len() == 1 && filter[0] == '*') {
            let ac = str_chars(action_type);
            let la = lower_chars(&ac);
            let lf = lower_chars(&filter);
            if !chars_contains(&la, &lf) {
                return false;
            }
        }
        assert(action_filter_passes(action_type@, pattern.action_type@));
        let tm = str_chars(pattern.target_match.as_str());
        if tm.len() == 1 && tm[0] == '*' {
            return true;
        }
        let tokens = split_commas_exec(&tm, 0);
        proof {
            assert(tm@.subrange(0, tm@.len() as int) =~= pattern.target_match@);
        }
        let tc = str_chars(target);
        let mut k: usize = 0;
        while k < tokens.len()
            invariant
                tc@ == target@,
                views_of(tokens@) == split_commas(pattern.target_match@),
                k <= tokens@.len(),
                forall|l: int|
                    0 <= l < k ==> !token_matches(target@, split_commas(pattern.target_match@)[l]),
                action_filter_passes(action_type@, pattern.action_type@),
            decreases tokens@.len() - k,
        {
            if token_match(&tc, &tokens[k]) {
                assert(tokens@[k as int]@ == split_commas(pattern.target_match@)[k as int]);
                assert(token_matches(target@, split_commas(pattern.target_match@)[k as int]));
                return true;
            }
            assert(tokens@[k as int]@ == split_commas(pattern.target_match@)[k as int]);
            k += 1;
        }
        assert(!is_star(pattern.target_match@));
        false
    }

    /// Assess the risk of one action: whitelist bypass, then first matching
    /// rule in list order, then the Medium fail-safe default.
    pub fn assess(&self, action_type: &str, target: &str) -> (r: RiskAssessment)
        ensures
            r.level == assessment_of(self.cfg(), action_type@, target@).0,
            r.reason@ == assessment_of(self.cfg(), action_type@, target@).1,
            r.requires_confirmation == assessment_of(self.cfg(), action_type@, target@).2,
    {
        if self.config.whitelist.enabled {
            if self.is_whitelisted(target) {
                return RiskAssessment {
                    level: RiskLevel::Low,
                    reason: String::from_str("Target is on whitelist"),
                    requires_confirmation: false,
                };
            }
        }
        let mut i: usize = 0;
        while i < self.config.rules.len()
            invariant
                i <= self.config.rules@.len(),
                !(self.config.whitelist.enabled && whitelisted(
                    target@,
                    self.config.whitelist.domains@,
                )),
                forall|k: int|
                    0 <= k < i ==> !rule_matches(action_type@, target@, self.config.rules@[k]),
            decreases self.config.rules@.len() - i,
        {
            let rule = &self.config.rules[i];
            let mut j: usize = 0;
            while j < rule.patterns.len()
                invariant
                    i < self.config.rules@.len(),
                    *rule == self.config.rules@[i as int],
                    j <= rule.patterns@.len(),
                    !(self.config.whitelist.enabled && whitelisted(
                        target@,
                        self.config.whitelist.domains@,
                    )),
                    forall|k: int|
                        0 <= k < i ==> !rule_matches(action_type@, target@, self.config.rules@[k]),
                    forall|l: int|
                        0 <= l < j ==> !pattern_matches(action_type@, target@, rule.patterns@[l]),
                decreases rule.patterns@.len() - j,
            {
                if self.matches_pattern(action_type, target, &rule.patterns[j]) {
                    proof {
                        lemma_first_matching_pattern_found(
                            action_type@,
                            target@,
                            rule.patterns@,
                            j as int,
                        );
                        assert(rule_matches(action_type@, target@, *rule));
                        lemma_first_match_found(
                            action_type@,
                            target@,
                            self.config.rules@,
                            i as int,
                        );
                    }
                    let level = if str_eq(rule.risk_level.as_str(), "High") {
                        RiskLevel::High
                    } else if str_eq(rule.risk_level.as_str(), "Medium") {
                        RiskLevel::Medium
                    } else {
                        RiskLevel::Low
                    };
                    return RiskAssessment {
                        level,
                        reason: rule.patterns[j].reason.clone(),
                        requires_confirmation: rule.requires_confirmation,
                    };
                }
                j += 1;
            }
            proof {
                lemma_first_matching_pattern_iff(action_type@, target@, rule.patterns@);
                assert(!rule_matches(action_type@, target@, self.config.rules@[i as int]));
            }
            i += 1;
        }
        proof {
            lemma_first_match_none(action_type@, target@, self.config.rules@);
        }
        RiskAssessment {
            level: RiskLevel::Medium,
            reason: String::from_str("No specific rule matched, assuming medium risk"),
            requires_confirmation: false,
        }
    }
}

// ===== laws of the engine =====

/// Law: a whitelisted target (with the whitelist enabled) is always assessed
/// Low with no confirmation required, whatever rules are present.
pub proof fn lemma_whitelist_precedence(c: RiskRulesConfig, action: Seq<char>, target: Seq<char>)
    requires
        c.whitelist.enabled,
        whitelisted(target, c.whitelist.domains@),
    ensures
        assessment_of(c, action, target) == (RiskLevel::Low, "Target is on whitelist"@, false),
{
}

/// Law: when the whitelist does not bypass and rule `i` is the first rule
/// that matches, the assessment carries rule `i`'s declared level and
/// confirmation flag, regardless of any later matching rule.
pub proof fn lemma_first_match_wins(
    c: RiskRulesConfig,
    action: Seq<char>,
    target: Seq<char>,
    i: int,
)
    requires
        !(c.whitelist.enabled && whitelisted(target, c.whitelist.domains@)),
        0 <= i < c.rules@.len(),
        rule_matches(action, target, c.rules@[i]),
        forall|k: int| 0 <= k < i ==> !rule_matches(action, target, c.rules@[k]),
    ensures
        assessment_of(c, action, target).0 == level_of(c.rules@[i].risk_level@),
        assessment_of(c, action, target).2 == c.rules@[i].requires_confirmation,
        Some(assessment_of(c, action, target).1) == match first_matching_pattern(
            action,
            target,
            c.rules@[i].patterns@,
        ) {
            Some(p) => Some(p.reason@),
            None => None,
        },
{
    lemma_first_match_found(action, target, c.rules@, i);
}

/// Law: when neither the whitelist nor any rule matches, the assessment is
/// exactly the Medium fail-safe default with no confirmation required.
pub proof fn lemma_fail_safe_default(c: RiskRulesConfig, action: Seq<char>, target: Seq<char>)
    requires
        !(c.whitelist.enabled && whitelisted(target, c.whitelist.domains@)),
        forall|k: int| 0 <= k < c.rules@.len() ==> !rule_matches(action, target, c.rules@[k]),
    ensures
        assessment_of(c, action, target) == (
            RiskLevel::Medium,
            "No specific rule matched, assuming medium risk"@,
            false,
        ),
{
    lemma_first_match_none(action, target, c.rules@);
}

/// Law: assessment is a pure function of the configuration and the two input
/// strings. `assess` pins its result to `assessment_of`, so any two calls on
/// identical inputs against an unchanged configuration yield identical
/// assessments.
pub proof fn lemma_assess_deterministic(
    c: RiskRulesConfig,
    action: Seq<char>,
    target: Seq<char>,
    r1: (RiskLevel, Seq<char>, bool),
    r2: (RiskLevel, Seq<char>, bool),
)
    requires
        r1 == assessment_of(c, action, target),
        r2 == assessment_of(c, action, target),
    ensures
        r1 == r2,
{
}

/// Law: pattern matching is ASCII-case-insensitive in the action type and the
/// target: folding either input does not change the outcome.
pub proof fn lemma_pattern_match_case_insensitive(
    action: Seq<char>,
    target: Seq<char>,
    p: RiskPattern,
)
    ensures
        pattern_matches(action, target, p) == pattern_matches(
            lower_seq(action),
            lower_seq(target),
            p,
        ),
{
    lemma_lower_seq_idempotent(action);
    lemma_lower_seq_idempotent(target);
    assert forall|k: int| 0 <= k < split_commas(p.target_match@).len() implies token_matches(
        target,
        split_commas(p.target_match@)[k],
    ) == token_matches(lower_seq(target), split_commas(p.target_match@)[k]) by {
        assert(lower_seq(lower_seq(target)) == lower_seq(target));
    }
    assert(target_filter_passes(target, p.target_match@) == target_filter_passes(
        lower_seq(target),
        p.target_match@,
    ));
}

/// Law: when the (case-sensitive) whitelist bypass fires for neither spelling
/// of the target, the whole assessment is ASCII-case-insensitive: folding the
/// action type and the target yields the identical result.
pub proof fn lemma_assessment_case_insensitive(
    c: RiskRulesConfig,
    action: Seq<char>,
    target: Seq<char>,
)
    requires
        !(c.whitelist.enabled && whitelisted(target, c.whitelist.domains@)),
        !(c.whitelist.enabled && whitelisted(lower_seq(target), c.whitelist.domains@)),
    ensures
        assessment_of(c, action, target) == assessment_of(c, lower_seq(action), lower_seq(target)),
{
    lemma_first_match_case_insensitive(action, target, c.rules@);
}

/// Law: the whole ordered rule scan is ASCII-case-insensitive: folding the
/// action type and the target selects the same rule and the same pattern.
pub proof fn lemma_first_match_case_insensitive(
    action: Seq<char>,
    target: Seq<char>,
    rules: Seq<RiskRule>,
)
    ensures
        first_match(action, target, rules) == first_match(
            lower_seq(action),
            lower_seq(target),
            rules,
        ),
    decreases rules.len(),
{
    if rules.len() > 0 {
        lemma_first_matching_pattern_case_insensitive(action, target, rules[0].patterns@);
        lemma_first_match_case_insensitive(action, target, rules.drop_first());
    }
}

proof fn lemma_first_matching_pattern_case_insensitive(
    action: Seq<char>,
    target: Seq<char>,
    pats: Seq<RiskPattern>,
)
    ensures
        first_matching_pattern(action, target, pats) == first_matching_pattern(
            lower_seq(action),
            lower_seq(target),
            pats,
        ),
    decreases pats.len(),
{
    if pats.len() > 0 {
        lemma_pattern_match_case_insensitive(action, target, pats[0]);
        lemma_first_matching_pattern_case_insensitive(action, target, pats.drop_first());
    }
}

// ===== the built-in default configuration =====

/// Shape of the built-in fallback configuration.
pub open spec fn is_default_config(c: RiskRulesConfig) -> bool {
    &&& c.version@ == "1.0"@
    &&& c.rules@.len() == 1
    &&& c.rules@[0].id@ == "high_risk"@
    &&& c.rules@[0].name@ == "High Risk"@
    &&& c.rules@[0].description@ == "High risk operations"@
    &&& c.rules@[0].risk_level@ == "High"@
    &&& c.rules@[0].patterns@.len() == 2
    &&& c.rules@[0].patterns@[0].action_type@ == "submit"@
    &&& c.rules@[0].patterns@[0].target_match@ == "*"@
    &&& c.rules@[0].patterns@[0].reason@ == "Form submission may change data"@
    &&& c.rules@[0].patterns@[1].action_type@ == "delete"@
    &&& c.rules@[0].patterns@[1].target_match@ == "*"@
    &&& c.rules@[0].patterns@[1].reason@ == "Delete is irreversible"@
    &&& c.rules@[0].requires_confirmation == true
    &&& c.rules@[0].allowed_on_whitelist == false
    &&& c.whitelist.enabled == true
    &&& c.whitelist.domains@.len() == 1
    &&& c.whitelist.domains@[0]@ == "localhost"@
}

/// Build the built-in fallback configuration.
pub fn default_config() -> (r: RiskRulesConfig)
    ensures
        is_default_config(r),
{
    let mut patterns: Vec<RiskPattern> = Vec::new();
    patterns.push(
        RiskPattern {
            action_type: String::from_str("submit"),
            target_match: String::from_str("*"),
            reason: String::from_str("Form submission may change data"),
        },
    );
    patterns.push(
        RiskPattern {
            action_type: String::from_str("delete"),
            target_match: String::from_str("*"),
            reason: String::from_str("Delete is irreversible"),
        },
    );
    let mut rules: Vec<RiskRule> = Vec::new();
    rules.push(
        RiskRule {
            id: String::from_str("high_risk"),
            name: String::from_str("High Risk"),
            description: String::from_str("High risk operations"),
            risk_level: String::from_str("High"),
            patterns,
            requires_confirmation: true,
            allowed_on_whitelist: false,
        },
    );
    let mut domains: Vec<String> = Vec::new();
    domains.push(String::from_str("localhost"));
    RiskRulesConfig {
        version: String::from_str("1.0"),
        rules,
        whitelist: Whitelist { enabled: true, domains },
    }
}

} // verus!
