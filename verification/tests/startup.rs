use randobooru::admin::BooruRow;
use randobooru::i18n::I18n;
use randobooru::records::BooruCustomParameter;
use randobooru::startup::{
    build_commands, guild_listing_done, pace, runtime_values, setting_list, setting_string,
    setting_u64, setting_usize, startup_settings,
};

fn row(name: &str, max_tags: usize, description: &str) -> BooruRow {
    BooruRow {
        id: 1,
        name: name.to_string(),
        enabled: true,
        embed_image: false,
        max_tags,
        supports_character: false,
        page_size: 100,
        page_base: 1,
        tag_separator: " ".to_string(),
        encode_tag_separator: true,
        tag_spaces_as_plus: false,
        character_space_replacement: "_".to_string(),
        description: description.to_string(),
        count_url: None,
        count_path_json: "[]".to_string(),
        posts_url: "https://p".to_string(),
        posts_path_json: "[]".to_string(),
        file_url_path_json: "[]".to_string(),
        source_url_path_json: "[]".to_string(),
        detail_url: None,
        detail_id_path_json: "[]".to_string(),
        detail_file_url_path_json: "[]".to_string(),
        detail_source_url_path_json: "[]".to_string(),
        post_url: None,
        headers_json: "{}".to_string(),
        env_params_json: "[]".to_string(),
    }
}

#[test]
fn reads_settings_with_defaults() {
    assert_eq!(setting_string(None, "en"), "en");
    assert_eq!(setting_u64(Some("250".to_string()), 0), 250);
    assert_eq!(setting_u64(Some("x".to_string()), 7), 7);
    assert_eq!(setting_usize(None, 3), 3);
    assert_eq!(setting_list(Some(" A, b ,,C".to_string()), ""), vec!["a".to_string(), "b".to_string(), "c".to_string()]);
    assert!(setting_list(None, "").is_empty());
}

#[test]
fn builds_runtime_values() {
    let params = vec![
        BooruCustomParameter { booru_name: "demo".to_string(), key: "session".to_string(), value: "abc".to_string() },
        BooruCustomParameter { booru_name: "demo".to_string(), key: "session".to_string(), value: "xyz".to_string() },
        BooruCustomParameter { booru_name: "other".to_string(), key: "k".to_string(), value: "v".to_string() },
    ];
    let rv = runtime_values("tok", &vec![("app_lang".to_string(), "fr".to_string())], &params);
    assert_eq!(rv.secrets.get("discord_token"), Some(&"tok".to_string()));
    assert_eq!(rv.settings.get("app_lang"), Some(&"fr".to_string()));
    assert_eq!(rv.custom.get("demo").unwrap().get("session"), Some(&"xyz".to_string()));
    assert_eq!(rv.custom.len(), 2);
}

#[test]
fn builds_server_commands() {
    let i18n = I18n::load("en").unwrap();
    let boorus = vec![row("test.booru!", 0, ""), row("demo", 2, "Demo search")];
    let whitelisted = vec!["megane".to_string()];
    let names = vec!["megane".to_string(), "other".to_string()];
    let commands = build_commands(&i18n, true, &boorus, &whitelisted, &names, &vec![1, 1]);
    let list: Vec<&str> = commands.iter().map(|c| c.name.as_str()).collect();
    assert_eq!(list, vec!["test-booru-custom", "demo-custom", "megane", "art-history", "administrate"]);
    assert_eq!(commands[0].options.len(), 9);
    assert!(commands[0].options[0].required);
    assert!(!commands[0].options[8].required);
    assert_eq!(commands[0].description, "test.booru!");
    assert_eq!(commands[1].options.len(), 2);
    assert_eq!(commands[1].description, "Demo search");
    assert_eq!(commands[3].options[0].min_value, Some(1));
    let none = build_commands(&i18n, true, &boorus, &whitelisted, &names, &vec![0, 1]);
    assert_eq!(none.len(), 4);
    let unvalidated = build_commands(&i18n, false, &boorus, &whitelisted, &names, &vec![1, 1]);
    assert_eq!(unvalidated.len(), 1);
    assert_eq!(unvalidated[0].name, "administrate");
}

#[test]
fn paces_requests() {
    assert_eq!(pace(100, 50, 0), (100, None));
    assert_eq!(pace(100, 150, 30), (180, None));
    assert_eq!(pace(100, 50, 30), (130, Some(50)));
    assert!(guild_listing_done(199));
    assert!(!guild_listing_done(200));
}

#[test]
fn reads_startup_settings_with_defaults() {
    let none = startup_settings("t", &Vec::new(), &Vec::new());
    assert_eq!(none.language, "en");
    assert_eq!(none.api_rate_pace_ms, 0);
    assert_eq!(none.fetch_retry_limit, 3);
    assert_eq!(none.history_limit, 1000);
    assert!(none.tag_blacklist.is_empty());
    let stored = vec![
        ("app_lang".to_string(), "fr".to_string()),
        ("api_rate_pace_ms".to_string(), "250".to_string()),
        ("booru_fetch_retry_limit".to_string(), "x".to_string()),
        ("booru_source_link_history_limit".to_string(), "5".to_string()),
        ("booru_tag_blacklist".to_string(), " Gore, ,spoilers".to_string()),
    ];
    let s = startup_settings("t", &stored, &Vec::new());
    assert_eq!(s.language, "fr");
    assert_eq!(s.api_rate_pace_ms, 250);
    assert_eq!(s.fetch_retry_limit, 3);
    assert_eq!(s.history_limit, 5);
    assert_eq!(s.tag_blacklist, vec!["gore".to_string(), "spoilers".to_string()]);
    assert_eq!(s.runtime_values.settings.get("app_lang"), Some(&"fr".to_string()));
}
