use aether::security::SecurityConfig;

fn policy(global: &str, rules: &[(&str, &str)]) -> SecurityConfig {
    let mut cfg = SecurityConfig::new("1.0".to_string(), global.to_string());
    for (name, action) in rules {
        cfg.add_rule(name.to_string(), action.to_string());
    }
    cfg
}

#[test]
fn absent_tool_follows_global_default() {
    let allow_all = policy("allow", &[]);
    assert!(allow_all.check_permission("anything"));
    let deny_all = policy("deny", &[]);
    assert!(!deny_all.check_permission("anything"));
}

#[test]
fn present_rule_wins_regardless_of_global() {
    let cfg = policy("deny", &[("calculate_sum", "allow")]);
    assert!(cfg.check_permission("calculate_sum"));
    assert!(!cfg.check_permission("other_tool"));

    let cfg = policy("allow", &[("calculate_sum", "deny")]);
    assert!(!cfg.check_permission("calculate_sum"));
    assert!(cfg.check_permission("other_tool"));
}

#[test]
fn deny_by_default_by_omission() {
    let cfg = policy("deny", &[("calculate_sum", "allow")]);
    assert!(!cfg.check_permission("delete_files"));
}

#[test]
fn later_rule_shadows_earlier() {
    let mut cfg = policy("deny", &[("calculate_sum", "allow")]);
    cfg.add_rule("calculate_sum".to_string(), "deny".to_string());
    assert!(!cfg.check_permission("calculate_sum"));
}

#[test]
fn rule_text_other_than_allow_denies() {
    let cfg = policy("allow", &[("calculate_sum", "blocked")]);
    assert!(!cfg.check_permission("calculate_sum"));
}
