use ymessenger::config;

#[test]
fn test_config_values() {
    assert_eq!(config::OAUTH_CLIENT_ID, "bef24ec2889b481bb39af0b430099845");
    assert_eq!(config::TELEMOST_URL, "https://telemost.yandex.ru");
    assert_eq!(config::FILE_PUBLIC_HOST, "https://files.messenger.yandex.net");
}

#[test]
fn env_flag_values() {
    assert!(config::env_flag_enabled(Some("1")));
    assert!(!config::env_flag_enabled(None));
}
