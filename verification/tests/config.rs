use proxy_monitor::config::{
    find_field_end, get_proxy_credentials, parse_account, AppConfig, ConfigError,
};

fn config_with(accounts: Vec<&str>) -> AppConfig {
    AppConfig {
        telegram_bot_id: String::from("bot"),
        telegram_group_id: String::from("group"),
        telegram_group_thread_id: String::from("thread"),
        telegram_sender: String::from("sender"),
        telegram_receiver: String::from("receiver"),
        telegram_enable: true,
        telegram_env: String::from("test"),
        max_success_timeout: 300,
        proxy_request_interval: 5,
        proxy_addr: String::from("http://proxy.example:8080"),
        download_urls: vec![String::from("http://example.com/file")],
        proxy_acc: accounts.into_iter().map(String::from).collect(),
    }
}

#[test]
fn credentials_are_read_in_order() {
    let config = config_with(vec!["0xuser_1,pass1", "0xuser_2,pass2"]);
    let accounts = get_proxy_credentials(&config);
    assert_eq!(
        accounts,
        Ok(vec![
            (String::from("0xuser_1"), String::from("pass1")),
            (String::from("0xuser_2"), String::from("pass2")),
        ])
    );
}

#[test]
fn no_entries_give_no_accounts() {
    let config = config_with(vec![]);
    assert_eq!(get_proxy_credentials(&config), Ok(vec![]));
}

#[test]
fn entry_without_separator_is_rejected() {
    let config = config_with(vec!["a,b", "missing", "c,d", "also missing"]);
    assert_eq!(
        get_proxy_credentials(&config),
        Err(ConfigError::MalformedAccount { index: 1 })
    );
}

#[test]
fn empty_entry_is_rejected() {
    let config = config_with(vec![""]);
    assert_eq!(
        get_proxy_credentials(&config),
        Err(ConfigError::MalformedAccount { index: 0 })
    );
}

#[test]
fn fields_after_the_second_are_ignored() {
    assert_eq!(
        parse_account("name,secret,extra,more"),
        Some((String::from("name"), String::from("secret")))
    );
}

#[test]
fn empty_fields_are_kept() {
    assert_eq!(parse_account("name,"), Some((String::from("name"), String::new())));
    assert_eq!(parse_account(",secret"), Some((String::new(), String::from("secret"))));
    assert_eq!(parse_account(","), Some((String::new(), String::new())));
    assert_eq!(parse_account(",,"), Some((String::new(), String::new())));
}

#[test]
fn entry_without_separator_has_no_account() {
    assert_eq!(parse_account("name"), None);
    assert_eq!(parse_account(""), None);
    assert_eq!(parse_account("name;secret"), None);
}

#[test]
fn fields_may_hold_wide_characters() {
    assert_eq!(
        parse_account("üser→1,pässwörd"),
        Some((String::from("üser→1"), String::from("pässwörd")))
    );
}

#[test]
fn field_end_counts_characters() {
    assert_eq!(find_field_end("ab,cd,ef", 0), 2);
    assert_eq!(find_field_end("ab,cd,ef", 2), 2);
    assert_eq!(find_field_end("ab,cd,ef", 3), 5);
    assert_eq!(find_field_end("ab,cd,ef", 6), 8);
    assert_eq!(find_field_end("ab,cd,ef", 8), 8);
    assert_eq!(find_field_end("äö,x", 0), 2);
}

#[test]
fn field_end_beyond_the_entry_is_its_length() {
    assert_eq!(find_field_end("ab,cd", 6), 5);
    assert_eq!(find_field_end("ab,cd", usize::MAX), 5);
    assert_eq!(find_field_end("", 0), 0);
    assert_eq!(find_field_end("", 3), 0);
}
