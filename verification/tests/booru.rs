use randobooru::booru::{encode_tags, fill_runtime_template, fill_template, missing_custom_keys};
use randobooru::config::{BooruConfig, EnvParamConfig, JsonPathSegment, RuntimeValueSource, RuntimeValues};
use randobooru::textmap::TextMap;

fn test_booru() -> BooruConfig {
    BooruConfig {
        name: "test".to_string(),
        embed_image: false,
        max_tags: 0,
        page_size: 100,
        page_base: 0,
        tag_separator: " ".to_string(),
        encode_tag_separator: true,
        tag_spaces_as_plus: false,
        character_space_replacement: "_".to_string(),
        count_url: Some("https://example.test/count?tags={tags}".to_string()),
        count_path: vec![JsonPathSegment::Key("count".to_string())],
        posts_url: "https://example.test/posts?tags={tags}&page={page}&limit={limit}".to_string(),
        posts_path: vec![JsonPathSegment::Key("posts".to_string())],
        file_url_path: vec![JsonPathSegment::Key("file_url".to_string())],
        post_url: None,
        source_url_path: vec![],
        detail_url: None,
        detail_id_path: vec![],
        detail_file_url_path: vec![],
        detail_source_url_path: vec![],
        headers: TextMap::new(),
        env_params: vec![],
    }
}

fn runtime_values() -> RuntimeValues {
    let mut secrets = TextMap::new();
    secrets.insert("booru_login".to_string(), "user name".to_string());
    secrets.insert("booru_api_key".to_string(), "key/value".to_string());
    let mut settings = TextMap::new();
    settings.insert("user_agent_name".to_string(), "user name".to_string());
    let mut test_params = TextMap::new();
    test_params.insert("session".to_string(), "abc/123".to_string());
    let mut custom = TextMap::new();
    custom.insert("test".to_string(), test_params);
    RuntimeValues { secrets, settings, custom }
}

#[test]
fn encodes_tags_individually_without_encoding_separator() {
    assert_eq!(
        encode_tags(&["Lumine".to_string(), "Blue Archive".to_string()], ",", false, true),
        "Lumine,Blue+Archive"
    );
}

#[test]
fn encodes_separator_for_query_parameters_by_default() {
    assert_eq!(
        encode_tags(&["rating:safe".to_string(), "blue archive".to_string()], " ", true, false),
        "rating%3Asafe%20blue%20archive"
    );
}

#[test]
fn fills_url_env_placeholders_with_encoding() {
    let mut booru = test_booru();
    booru.env_params = vec![
        EnvParamConfig {
            placeholder: "login".to_string(),
            env: "booru_login".to_string(),
            source: RuntimeValueSource::Secrets,
        },
        EnvParamConfig {
            placeholder: "api_key".to_string(),
            env: "booru_api_key".to_string(),
            source: RuntimeValueSource::Secrets,
        },
    ];

    let runtime_values = runtime_values();
    let url = fill_template(
        &booru,
        &runtime_values,
        "https://example.test?login={login}&api_key={api_key}",
        "rating%3Asafe",
        None,
        100,
    );

    assert_eq!(url, "https://example.test?login=user%20name&api_key=key%2Fvalue");
}

#[test]
fn fills_header_env_placeholders_without_url_encoding() {
    let mut booru = test_booru();
    booru.env_params = vec![EnvParamConfig {
        placeholder: "name".to_string(),
        env: "user_agent_name".to_string(),
        source: RuntimeValueSource::Settings,
    }];

    let runtime_values = runtime_values();

    assert_eq!(
        fill_runtime_template(&booru, &runtime_values, "Randobooru Discord Bot - {name}", false),
        "Randobooru Discord Bot - user name"
    );
}

#[test]
fn fills_custom_booru_placeholders() {
    let mut booru = test_booru();
    booru.env_params = vec![EnvParamConfig {
        placeholder: "session".to_string(),
        env: "session".to_string(),
        source: RuntimeValueSource::Custom,
    }];

    let runtime_values = runtime_values();
    let url = fill_template(
        &booru,
        &runtime_values,
        "https://example.test?session={session}",
        "rating%3Asafe",
        None,
        100,
    );

    assert_eq!(url, "https://example.test?session=abc%2F123");
}

#[test]
fn fills_tags_page_and_limit() {
    let booru = test_booru();
    let url = fill_template(
        &booru,
        &runtime_values(),
        "https://example.test/posts?tags={tags}&page={page}&limit={limit}",
        "a%20b",
        Some(7),
        100,
    );
    assert_eq!(url, "https://example.test/posts?tags=a%20b&page=7&limit=100");
    let url = fill_template(&booru, &runtime_values(), "p={page}", "", None, 1);
    assert_eq!(url, "p=0");
}

#[test]
fn missing_custom_parameter_is_reported_and_left_empty() {
    let mut booru = test_booru();
    booru.name = "other".to_string();
    booru.env_params = vec![EnvParamConfig {
        placeholder: "session".to_string(),
        env: "session".to_string(),
        source: RuntimeValueSource::Custom,
    }];
    let runtime_values = runtime_values();
    assert_eq!(missing_custom_keys(&booru, &runtime_values), vec!["session".to_string()]);
    assert_eq!(
        fill_runtime_template(&booru, &runtime_values, "s={session}", true),
        "s="
    );
    booru.name = "test".to_string();
    assert!(missing_custom_keys(&booru, &runtime_values).is_empty());
}

#[test]
fn encodes_non_ascii_as_utf8_bytes() {
    assert_eq!(encode_tags(&["é".to_string()], " ", true, true), "%C3%A9");
}
