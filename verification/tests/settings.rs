use rate_sync::settings::Settings;

#[test]
fn new_settings_are_empty() {
    let settings = Settings::new();
    assert_eq!(settings.database_url, "");
    assert_eq!(settings.fixer_api_key, "");
    assert_eq!(settings.server_port, "");
}

#[test]
fn env_json_gives_key_and_port() {
    let mut settings = Settings::new();
    let parsed =
        settings.read_env_json("{\"fixer_api_key\":\"k-123\",\"server_port\":\"8080\"}");
    assert!(parsed);
    assert_eq!(settings.fixer_api_key, "k-123");
    assert_eq!(settings.server_port, "8080");
    assert_eq!(settings.database_url, "");
}

#[test]
fn env_json_member_that_is_no_string_is_ignored() {
    let mut settings = Settings::new();
    settings.read_env_json("{\"fixer_api_key\":\"first\",\"server_port\":\"1\"}");
    let parsed = settings.read_env_json("{\"fixer_api_key\":17,\"server_port\":8080}");
    assert!(parsed);
    assert_eq!(settings.fixer_api_key, "first");
    assert_eq!(settings.server_port, "1");
}

#[test]
fn env_json_absent_member_keeps_the_setting() {
    let mut settings = Settings::new();
    settings.read_env_json("{\"fixer_api_key\":\"first\",\"server_port\":\"1\"}");
    assert!(settings.read_env_json("{\"server_port\":\"2\"}"));
    assert_eq!(settings.fixer_api_key, "first");
    assert_eq!(settings.server_port, "2");
}

#[test]
fn env_json_that_is_not_json_changes_nothing() {
    let mut settings = Settings::new();
    settings.read_env_json("{\"fixer_api_key\":\"first\",\"server_port\":\"1\"}");
    assert!(!settings.read_env_json("fixer_api_key=second"));
    assert_eq!(settings.fixer_api_key, "first");
    assert_eq!(settings.server_port, "1");
}

#[test]
fn database_url_comes_from_the_variables() {
    let mut settings = Settings::new();
    settings.read_variables(&vec![
        ("HOME".to_string(), "/root".to_string()),
        ("DATABASE_URL".to_string(), "rates.db".to_string()),
        ("PATH".to_string(), "/bin".to_string()),
    ]);
    assert_eq!(settings.database_url, "rates.db");
    assert_eq!(settings.fixer_api_key, "");
}

#[test]
fn last_database_url_wins() {
    let mut settings = Settings::new();
    settings.read_variables(&vec![
        ("DATABASE_URL".to_string(), "a.db".to_string()),
        ("DATABASE_URL".to_string(), "b.db".to_string()),
    ]);
    assert_eq!(settings.database_url, "b.db");
}

#[test]
fn variables_without_database_url_keep_the_setting() {
    let mut settings = Settings::new();
    settings.read_variables(&vec![("DATABASE_URL".to_string(), "a.db".to_string())]);
    settings.read_variables(&vec![("database_url".to_string(), "b.db".to_string())]);
    settings.read_variables(&vec![]);
    assert_eq!(settings.database_url, "a.db");
}

#[test]
fn bind_address_is_local_host_and_port() {
    let mut settings = Settings::new();
    settings.read_env_json("{\"server_port\":\"8080\"}");
    assert_eq!(settings.bind_address(), "127.0.0.1:8080");
    assert_eq!(Settings::new().bind_address(), "127.0.0.1:");
}
