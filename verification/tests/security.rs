use desktop_agent::security::{
    RiskAssessment, RiskEngine, RiskLevel, RiskPattern, RiskRule, RiskRulesConfig, Whitelist,
};

fn pattern(action_type: &str, target_match: &str, reason: &str) -> RiskPattern {
    RiskPattern {
        action_type: action_type.to_string(),
        target_match: target_match.to_string(),
        reason: reason.to_string(),
    }
}

fn rule(id: &str, risk_level: &str, patterns: Vec<RiskPattern>, confirm: bool) -> RiskRule {
    RiskRule {
        id: id.to_string(),
        name: id.to_string(),
        description: String::new(),
        risk_level: risk_level.to_string(),
        patterns,
        requires_confirmation: confirm,
        allowed_on_whitelist: false,
    }
}

fn config(rules: Vec<RiskRule>, enabled: bool, domains: Vec<&str>) -> RiskRulesConfig {
    RiskRulesConfig {
        version: "1.0".to_string(),
        rules,
        whitelist: Whitelist {
            enabled,
            domains: domains.into_iter().map(|d| d.to_string()).collect(),
        },
    }
}

#[test]
fn whitelist_precedence_over_high_rule() {
    let c = config(
        vec![rule("all_high", "High", vec![pattern("*", "*", "everything is high")], true)],
        true,
        vec!["trusted.com"],
    );
    let engine = RiskEngine::new(c);
    let a = engine.assess("delete", "https://trusted.com/records/1");
    assert_eq!(a.level, RiskLevel::Low);
    assert_eq!(a.reason, "Target is on whitelist");
    assert!(!a.requires_confirmation);
}

#[test]
fn whitelist_disabled_falls_through_to_rules() {
    let c = config(
        vec![rule("all_high", "High", vec![pattern("*", "*", "everything is high")], true)],
        false,
        vec!["trusted.com"],
    );
    let engine = RiskEngine::new(c);
    let a = engine.assess("delete", "https://trusted.com/records/1");
    assert_eq!(a.level, RiskLevel::High);
    assert_eq!(a.reason, "everything is high");
    assert!(a.requires_confirmation);
}

#[test]
fn first_match_wins_over_later_low_rule() {
    let c = config(
        vec![
            rule("r1", "High", vec![pattern("", "*shared*", "first rule hit")], true),
            rule("r2", "Low", vec![pattern("", "*shared*", "second rule hit")], false),
        ],
        false,
        vec![],
    );
    let engine = RiskEngine::new(c);
    let a = engine.assess("click", "https://host/shared/path");
    assert_eq!(a.level, RiskLevel::High);
    assert_eq!(a.reason, "first rule hit");
    assert!(a.requires_confirmation);
}

#[test]
fn fail_safe_default_is_exactly_medium() {
    let c = config(
        vec![rule("narrow", "High", vec![pattern("delete", "exact-target", "no")], true)],
        true,
        vec!["trusted.com"],
    );
    let engine = RiskEngine::new(c);
    let a = engine.assess("click", "https://other.org/page");
    assert_eq!(a.level, RiskLevel::Medium);
    assert_eq!(a.reason, "No specific rule matched, assuming medium risk");
    assert!(!a.requires_confirmation);
}

#[test]
fn case_insensitive_action_and_target() {
    let c = config(
        vec![rule("del", "High", vec![pattern("delete", "*record*", "delete hit")], true)],
        false,
        vec![],
    );
    let engine = RiskEngine::new(c);
    let upper = engine.assess("DELETE", "Record/123");
    let lower = engine.assess("delete", "record/123");
    assert_eq!(upper, lower);
    assert_eq!(upper.level, RiskLevel::High);
    assert_eq!(upper.reason, "delete hit");
}

#[test]
fn whitelist_wildcard_suffix_domain() {
    let c = config(vec![], true, vec!["*.example.com"]);
    let engine = RiskEngine::new(c);
    assert!(engine.is_whitelisted("https://api.example.com/x"));
    assert!(!engine.is_whitelisted("https://example.org"));
    let a = engine.assess("click", "https://api.example.com/x");
    assert_eq!(a.level, RiskLevel::Low);
}

#[test]
fn token_contains_match() {
    let c = config(vec![], false, vec![]);
    let engine = RiskEngine::new(c);
    let p = pattern("", "*login*", "login page");
    assert!(engine.matches_pattern("click", "https://site/user/login/confirm", &p));
    assert!(!engine.matches_pattern("click", "https://site/user/logout", &p));
}

#[test]
fn token_suffix_match() {
    let c = config(vec![], false, vec![]);
    let engine = RiskEngine::new(c);
    let p = pattern("", "*.pdf", "a pdf");
    assert!(engine.matches_pattern("open", "report.pdf", &p));
    assert!(!engine.matches_pattern("open", "report.pdf.txt", &p));
}

#[test]
fn token_prefix_match() {
    let c = config(vec![], false, vec![]);
    let engine = RiskEngine::new(c);
    let p = pattern("", "admin*", "admin area");
    assert!(engine.matches_pattern("click", "admin-panel", &p));
    assert!(!engine.matches_pattern("click", "my-admin", &p));
}

#[test]
fn token_exact_match_is_case_insensitive() {
    let c = config(vec![], false, vec![]);
    let engine = RiskEngine::new(c);
    let p = pattern("", "Login.HTML", "exact page");
    assert!(engine.matches_pattern("click", "login.html", &p));
    assert!(!engine.matches_pattern("click", "login.html.bak", &p));
}

#[test]
fn comma_separated_tokens_are_trimmed_and_or_combined() {
    let c = config(vec![], false, vec![]);
    let engine = RiskEngine::new(c);
    let p = pattern("", "exact-a, *.pdf , admin*", "several tokens");
    assert!(engine.matches_pattern("click", "exact-a", &p));
    assert!(engine.matches_pattern("click", "notes.PDF", &p));
    assert!(engine.matches_pattern("click", "ADMIN-console", &p));
    assert!(!engine.matches_pattern("click", "other", &p));
}

#[test]
fn lone_star_token_in_list_matches_anything() {
    let c = config(vec![], false, vec![]);
    let engine = RiskEngine::new(c);
    let p = pattern("", "never-this, *", "catch all token");
    assert!(engine.matches_pattern("click", "anything at all", &p));
}

#[test]
fn action_filter_must_be_substring() {
    let c = config(vec![], false, vec![]);
    let engine = RiskEngine::new(c);
    let p = pattern("submit", "*", "submissions");
    assert!(engine.matches_pattern("form_submit_button", "x", &p));
    assert!(!engine.matches_pattern("click", "x", &p));
}

#[test]
fn empty_and_star_action_filters_match_any_action() {
    let c = config(vec![], false, vec![]);
    let engine = RiskEngine::new(c);
    assert!(engine.matches_pattern("whatever", "x", &pattern("", "*", "empty filter")));
    assert!(engine.matches_pattern("whatever", "x", &pattern("*", "*", "star filter")));
}

#[test]
fn pattern_order_within_rule_decides_reason() {
    let c = config(
        vec![rule(
            "r",
            "Medium",
            vec![pattern("", "*a*", "first pattern"), pattern("", "*b*", "second pattern")],
            false,
        )],
        false,
        vec![],
    );
    let engine = RiskEngine::new(c);
    assert_eq!(engine.assess("x", "contains a and b").reason, "first pattern");
    assert_eq!(engine.assess("x", "only b").reason, "second pattern");
}

#[test]
fn unrecognized_risk_level_normalizes_to_low() {
    let c = config(
        vec![rule("odd", "Critical", vec![pattern("", "*", "odd level")], false)],
        false,
        vec![],
    );
    let engine = RiskEngine::new(c);
    assert_eq!(engine.assess("x", "y").level, RiskLevel::Low);
}

#[test]
fn medium_risk_level_string_is_recognized() {
    let c = config(
        vec![rule("m", "Medium", vec![pattern("", "*", "medium hit")], false)],
        false,
        vec![],
    );
    let engine = RiskEngine::new(c);
    assert_eq!(engine.assess("x", "y").level, RiskLevel::Medium);
}

#[test]
fn assess_is_idempotent_for_same_inputs() {
    let engine = RiskEngine::default();
    let a: RiskAssessment = engine.assess("submit", "https://bank.example/pay");
    let b: RiskAssessment = engine.assess("submit", "https://bank.example/pay");
    assert_eq!(a, b);
    assert_eq!(a.reason, b.reason);
}

#[test]
fn default_rules_flag_submit_as_high() {
    let engine = RiskEngine::default();
    let a = engine.assess("submit", "https://bank.example/pay");
    assert_eq!(a.level, RiskLevel::High);
    assert!(a.requires_confirmation);
    assert_eq!(a.reason, "Form submission may change data");
}

#[test]
fn default_rules_flag_delete_as_high_and_whitelist_localhost() {
    let engine = RiskEngine::from_config(None);
    let del = engine.assess("delete", "item/9");
    assert_eq!(del.level, RiskLevel::High);
    assert!(del.requires_confirmation);
    assert_eq!(del.reason, "Delete is irreversible");
    let local = engine.assess("delete", "http://localhost:8080/ris");
    assert_eq!(local.level, RiskLevel::Low);
    assert!(!local.requires_confirmation);
}

#[test]
fn from_config_keeps_a_loaded_configuration() {
    let c = config(
        vec![rule("only", "Medium", vec![pattern("", "*x*", "x hit")], false)],
        false,
        vec![],
    );
    let engine = RiskEngine::from_config(Some(c));
    assert_eq!(engine.assess("a", "x").level, RiskLevel::Medium);
    assert_eq!(engine.assess("a", "y").level, RiskLevel::Medium);
    assert_eq!(engine.assess("a", "y").reason, "No specific rule matched, assuming medium risk");
}

#[test]
fn whitelist_entry_is_a_loose_substring() {
    // A bare entry matches anywhere in the target, so a look-alike host is
    // also whitelisted; rule authors must keep this in mind.
    let c = config(vec![], true, vec!["bank.com"]);
    let engine = RiskEngine::new(c);
    assert!(engine.is_whitelisted("https://notabank.com.attacker.net/"));
}
