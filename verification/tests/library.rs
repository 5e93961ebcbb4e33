use desktop_agent::ai::{AiMessage, RiskLevel};
use desktop_agent::auth::{login, LoginRequest};
use desktop_agent::browser::TabManager;
use desktop_agent::config::AppConfig;
use desktop_agent::config::BusinessSystem;
use desktop_agent::downloader::{choose_filename, filename_from_disposition};
use desktop_agent::file_ops::{organize_target_name, PermissionManager};
use desktop_agent::get_version;
use desktop_agent::personalization::{BehaviorLog, PersonalizationEngine};
use desktop_agent::reminder::{create_reminder_rule, ReminderRule, TriggerConfig};
use desktop_agent::voice::{VoiceConfig, VoiceService};

fn reminder(id: &str) -> ReminderRule {
    ReminderRule {
        id: id.to_string(),
        name: "standup".to_string(),
        trigger_type: "time".to_string(),
        trigger_config: TriggerConfig {
            trigger_type: "time".to_string(),
            value: "09:00".to_string(),
            interval_minutes: Some(30),
        },
        content: "daily standup".to_string(),
        target_url: None,
        enabled: true,
    }
}

#[test]
fn version_string() {
    assert_eq!(get_version(), "0.1.0");
}

#[test]
fn create_tab_assigns_uuid_and_activates() {
    let mut m = TabManager::new();
    assert_eq!(m.tab_count(), 0);
    let tab = m.create_tab("https://a.example/".to_string());
    assert_eq!(tab.id.len(), 36);
    assert_eq!(tab.url, "https://a.example/");
    assert_eq!(tab.title, "New Tab");
    assert!(tab.is_active);
    assert_eq!(m.tab_count(), 1);
    assert_eq!(m.active_tab_id.as_deref(), Some(tab.id.as_str()));
}

#[test]
fn close_active_tab_activates_last_remaining() {
    let mut m = TabManager::new();
    let t1 = m.create_tab("https://one/".to_string());
    let t2 = m.create_tab("https://two/".to_string());
    let closed = m.close_tab(&t2.id).expect("tab should close");
    assert_eq!(closed.id, t2.id);
    assert_eq!(m.tab_count(), 1);
    assert_eq!(m.active_tab_id.as_deref(), Some(t1.id.as_str()));
    assert!(m.tabs[0].is_active);
    assert!(m.close_tab("no-such-id").is_none());
    assert_eq!(m.tab_count(), 1);
}

#[test]
fn set_active_tab_flags_exactly_one() {
    let mut m = TabManager::new();
    let t1 = m.create_tab("https://one/".to_string());
    let t2 = m.create_tab("https://two/".to_string());
    assert!(m.set_active_tab(&t1.id));
    assert!(m.tabs[0].is_active);
    assert!(!m.tabs[1].is_active);
    assert_eq!(m.active_tab_id.as_deref(), Some(t1.id.as_str()));
    assert!(!m.set_active_tab("missing"));
    assert_eq!(m.active_tab_id.as_deref(), Some(t1.id.as_str()));
    let _ = t2;
}

#[test]
fn set_tab_url_updates_first_match_only() {
    let mut m = TabManager::new();
    let t1 = m.create_tab("https://old/".to_string());
    assert!(m.set_tab_url(&t1.id, "https://new/".to_string()));
    assert_eq!(m.tabs[0].url, "https://new/");
    assert_eq!(m.tabs[0].title, "New Tab");
    assert!(!m.set_tab_url("missing", "https://x/".to_string()));
}

#[test]
fn login_rejects_empty_credentials() {
    let r = login(LoginRequest { username: String::new(), password: "pw".to_string() });
    assert!(!r.success);
    assert!(r.user.is_none());
    assert!(r.token.is_none());
    assert_eq!(r.message, "用户名和密码不能为空");
}

#[test]
fn login_accepts_nonempty_credentials() {
    let r = login(LoginRequest { username: "alice".to_string(), password: "pw".to_string() });
    assert!(r.success);
    let user = r.user.expect("user should be present");
    assert_eq!(user.username, "alice");
    assert_eq!(user.display_name, "alice");
    assert_eq!(user.role, "user");
    assert_eq!(user.id.len(), 36);
    assert_eq!(r.token.as_deref(), Some("mock-jwt-token"));
    assert_eq!(r.message, "登录成功");
}

#[test]
fn reminder_rule_keeps_given_id() {
    let r = create_reminder_rule(reminder("fixed-id")).expect("rule accepted");
    assert_eq!(r.id, "fixed-id");
    assert_eq!(r.content, "daily standup");
}

#[test]
fn reminder_rule_gets_fresh_id_when_empty() {
    let r = create_reminder_rule(reminder("")).expect("rule accepted");
    assert_eq!(r.id.len(), 36);
    assert_eq!(r.name, "standup");
    assert_eq!(r.trigger_config.value, "09:00");
}

#[test]
fn permissions_grant_check_revoke() {
    let mut pm = PermissionManager::new();
    assert!(!pm.check_permission("/quarantine/data.txt", "read"));
    pm.grant_permission("/quarantine/data.txt");
    assert!(pm.check_permission("/quarantine/data.txt", "read"));
    pm.revoke_permission("/quarantine/data.txt");
    assert!(!pm.check_permission("/quarantine/data.txt", "read"));
}

#[test]
fn permission_through_parent_directory() {
    let mut pm = PermissionManager::default();
    pm.grant_permission("/quarantine");
    assert!(pm.check_permission("/quarantine/report.txt", "write"));
    assert!(!pm.check_permission("/elsewhere/report.txt", "write"));
}

#[test]
fn organize_by_date_uses_the_date() {
    let r = organize_target_name("by_date", "2024-05-01", None).expect("known rule");
    assert_eq!(r.as_deref(), Some("2024-05-01"));
}

#[test]
fn organize_by_type_uses_extension_or_skips() {
    let ext = "pdf".to_string();
    let some = organize_target_name("by_type", "2024-05-01", Some(&ext)).expect("known rule");
    assert_eq!(some.as_deref(), Some("pdf"));
    let none = organize_target_name("by_type", "2024-05-01", None).expect("known rule");
    assert!(none.is_none());
}

#[test]
fn organize_unknown_rule_is_an_error() {
    let err = organize_target_name("by_owner", "2024-05-01", None).unwrap_err();
    assert_eq!(err, "Unknown organization rule: by_owner");
}

#[test]
fn action_heuristic_levels() {
    assert_eq!(RiskLevel::from_action("form_submit", "x"), RiskLevel::High);
    assert_eq!(RiskLevel::from_action("PAYMENT", "x"), RiskLevel::High);
    assert_eq!(RiskLevel::from_action("download", "x"), RiskLevel::Medium);
    assert_eq!(RiskLevel::from_action("click", "go open_new_tab now"), RiskLevel::Medium);
    assert_eq!(RiskLevel::from_action("click", "https://page/"), RiskLevel::Low);
}

#[test]
fn query_history_split() {
    let empty: Vec<AiMessage> = Vec::new();
    let (q0, h0) = desktop_agent::ai::split_query_history(&empty);
    assert_eq!(q0, "");
    assert!(h0.is_empty());
    let msgs = vec![
        AiMessage { role: "user".to_string(), content: "hello".to_string() },
        AiMessage { role: "assistant".to_string(), content: "hi".to_string() },
        AiMessage { role: "user".to_string(), content: "open the report".to_string() },
    ];
    let (q, h) = desktop_agent::ai::split_query_history(&msgs);
    assert_eq!(q, "open the report");
    assert_eq!(h.len(), 2);
    assert_eq!(h[0].content, "hello");
    assert_eq!(h[1].role, "assistant");
}

#[test]
fn disposition_filename_parsing() {
    let some = filename_from_disposition("attachment; filename=\"report.pdf\"");
    assert_eq!(some.as_deref(), Some("report.pdf"));
    let bare = filename_from_disposition("attachment; filename=data.bin");
    assert_eq!(bare.as_deref(), Some("data.bin"));
    assert!(filename_from_disposition("attachment").is_none());
}

#[test]
fn filename_precedence_requested_then_header_then_url() {
    let requested = "mine.bin".to_string();
    let header = "attachment; filename=\"their.bin\"".to_string();
    let url = "https://host/path/last.bin";
    assert_eq!(choose_filename(Some(&requested), Some(&header), url), "mine.bin");
    assert_eq!(choose_filename(None, Some(&header), url), "their.bin");
    assert_eq!(choose_filename(None, None, url), "last.bin");
    assert_eq!(choose_filename(None, None, "not a url"), "download");
}

#[test]
fn default_app_config_systems() {
    let c = AppConfig::default();
    assert_eq!(c.business_systems.len(), 3);
    assert_eq!(c.business_systems[0].id, "ris");
    assert_eq!(c.business_systems[1].id, "pis");
    assert_eq!(c.business_systems[2].id, "eis");
    assert_eq!(c.user_preferences.language, "zh-CN");
    assert_eq!(c.user_preferences.memory_limit_mb, 500);
}

#[test]
fn upsert_replaces_or_appends_business_system() {
    let mut c = AppConfig::default();
    let replacement = BusinessSystem {
        id: "pis".to_string(),
        name: "PIS v2".to_string(),
        url: "http://localhost:9090/pis".to_string(),
        icon: None,
        enabled: false,
    };
    assert!(c.upsert_business_system(replacement));
    assert_eq!(c.business_systems.len(), 3);
    assert_eq!(c.business_systems[1].name, "PIS v2");
    let fresh = BusinessSystem {
        id: "lis".to_string(),
        name: "LIS".to_string(),
        url: "http://localhost:8080/lis".to_string(),
        icon: None,
        enabled: true,
    };
    assert!(!c.upsert_business_system(fresh));
    assert_eq!(c.business_systems.len(), 4);
    assert_eq!(c.business_systems[3].id, "lis");
}

#[test]
fn voice_service_defaults_and_stubs() {
    let cfg = VoiceConfig::default();
    assert!(cfg.wakeword_enabled);
    assert_eq!(cfg.asr_provider, "third_party");
    assert_eq!(cfg.tts_provider, "kokoro");
    assert_eq!(cfg.language, "zh-CN");
    let svc = VoiceService::new(cfg);
    assert!(svc.init_wakeword().is_ok());
    assert!(svc.init_vad().is_ok());
    assert!(svc.detect_speech(&[1, 2, 3]).expect("vad ok").is_empty());
    assert_eq!(svc.detect_wakeword(&[1, 2, 3]).expect("detector ok"), false);
}

#[test]
fn personalization_stubs() {
    let log = BehaviorLog {
        id: "1".to_string(),
        user_id: "u".to_string(),
        action_type: "click".to_string(),
        target: Some("https://x/".to_string()),
        metadata: None,
        created_at: "2024-01-01T00:00:00Z".to_string(),
    };
    assert!(PersonalizationEngine::log_behavior(log).is_ok());
    let p = PersonalizationEngine::analyze_patterns("u").expect("analysis ok");
    assert_eq!(p.user_id, "u");
    assert!(p.frequent_urls.is_empty());
    assert!(p.frequent_actions.is_empty());
    assert!(p.time_patterns.is_empty());
    assert!(!p.last_updated.is_empty());
    assert!(PersonalizationEngine::learn_feedback("u", "item", "useful").is_ok());
}

#[test]
fn behavior_logging_entry_point_accepts_events() {
    let r = desktop_agent::personalization::log_behavior(
        "click".to_string(),
        Some("https://x/".to_string()),
        None,
    );
    assert!(r.is_ok());
}
