use randobooru::admin::{
    edit_field, non_empty, normalized_json, optional_string, parse_bool, parse_csv,
    single_arg, split_required, try_parse_id, validate, BooruRow,
};
use randobooru::admin_cmd::{
    parse_booru_command, parse_moderator_command, parse_server_command, parse_setting_command,
    parse_tags_command, route_admin_action, with_channel, without_channel, AdminRoute,
    BooruCommand, ModeratorCommand, ParameterCommand, ServerCommand, SettingCommand,
    TagPatternCommand, TagsCommand,
};
use randobooru::admin_reply::{
    booru_list_reply, channel_set_reply, debug_strings, moderator_list_reply, server_list_reply,
};
use randobooru::records::{ChannelConfig, Server};

fn row() -> BooruRow {
    BooruRow {
        id: 1,
        name: "demo".to_string(),
        enabled: true,
        embed_image: false,
        max_tags: 6,
        supports_character: false,
        page_size: 100,
        page_base: 1,
        tag_separator: " ".to_string(),
        encode_tag_separator: true,
        tag_spaces_as_plus: false,
        character_space_replacement: "_".to_string(),
        description: String::new(),
        count_url: None,
        count_path_json: "[]".to_string(),
        posts_url: "https://example.test/posts".to_string(),
        posts_path_json: "[]".to_string(),
        file_url_path_json: "[\"file_url\"]".to_string(),
        source_url_path_json: "[]".to_string(),
        detail_url: None,
        detail_id_path_json: "[]".to_string(),
        detail_file_url_path_json: "[]".to_string(),
        detail_source_url_path_json: "[]".to_string(),
        post_url: Some("https://example.test/p/{id}".to_string()),
        headers_json: "{}".to_string(),
        env_params_json: "[]".to_string(),
    }
}

#[test]
fn parses_leading_ids_with_defaults() {
    assert_eq!(try_parse_id("42 channel add", None), Ok((42, "channel add".to_string())));
    assert_eq!(try_parse_id("list", Some(7)), Ok((7, "list".to_string())));
    assert_eq!(try_parse_id("", Some(7)), Ok((7, String::new())));
    assert_eq!(try_parse_id("", None), Err("no id provided".to_string()));
    assert_eq!(try_parse_id("abc def", None), Err("expected a numeric id, got 'abc'".to_string()));
}

#[test]
fn splits_required_arguments() {
    assert_eq!(split_required("  name  {\"a\":1} ", "usage"), Ok(("name".to_string(), "{\"a\":1}".to_string())));
    assert_eq!(split_required("name", "usage"), Err("usage".to_string()));
    assert_eq!(single_arg(" demo ", "u"), Ok("demo".to_string()));
    assert_eq!(single_arg("two words", "u"), Err("u".to_string()));
    assert_eq!(single_arg("   ", "u"), Err("u".to_string()));
}

#[test]
fn parses_helpers() {
    assert_eq!(parse_csv(" a, ,b ,"), vec!["a".to_string(), "b".to_string()]);
    assert_eq!(parse_bool(" YES "), Ok(true));
    assert_eq!(parse_bool("off"), Ok(false));
    assert_eq!(parse_bool("maybe"), Err("expected boolean value".to_string()));
    assert_eq!(non_empty("", "name"), Err("name cannot be empty".to_string()));
    assert_eq!(optional_string("NULL"), None);
    assert_eq!(optional_string(""), None);
    assert_eq!(optional_string("x"), Some("x".to_string()));
}

#[test]
fn normalizes_json_through_serde() {
    assert_eq!(normalized_json("[ \"posts\" , 0 ]"), Ok("[\"posts\",0]".to_string()));
    assert_eq!(normalized_json("not json"), Err("expected valid json".to_string()));
}

#[test]
fn edits_booru_fields() {
    let mut b = row();
    assert_eq!(edit_field(&mut b, "page_size", "50", reads), Ok(()));
    assert_eq!(b.page_size, 50);
    assert_eq!(edit_field(&mut b, "page_size", "0", reads), Err("page_size must be greater than zero".to_string()));
    let mut b = row();
    assert_eq!(edit_field(&mut b, "max_tags", "x", reads), Err("max_tags must be a number".to_string()));
    assert_eq!(edit_field(&mut b, "colour", "x", reads), Err("unknown booru field colour".to_string()));
    assert_eq!(edit_field(&mut b, "detail_url", "null", reads), Ok(()));
    assert_eq!(b.detail_url, None);
    assert_eq!(edit_field(&mut b, "count_url", "https://c", reads), Ok(()));
    assert_eq!(b.count_url, Some("https://c".to_string()));
    let before = b.count_url.clone();
    assert_eq!(edit_field(&mut b, "count_url", "", reads), Err("count_url cannot be empty".to_string()));
    assert_eq!(b.count_url, before);
    let page_size = b.page_size;
    assert_eq!(edit_field(&mut b, "page_size", "many", reads), Err("page_size must be a number".to_string()));
    assert_eq!(b.page_size, page_size);
    assert_eq!(edit_field(&mut b, "headers", "{ \"a\" : \"b\" }", reads), Ok(()));
    assert_eq!(b.headers_json, "{\"a\":\"b\"}");
    assert_eq!(edit_field(&mut b, "name", " ", reads), Err("booru names cannot be empty".to_string()));
    let mut b = row();
    let refuse = |_: &BooruRow| -> Result<(), String> { Err("failed to parse count_path_json".to_string()) };
    assert_eq!(edit_field(&mut b, "count_path", "{}", refuse), Err("failed to parse count_path_json".to_string()));
    assert_eq!(b.count_path_json, "{}");
}

fn reads(_: &BooruRow) -> Result<(), String> {
    Ok(())
}

#[test]
fn validates_rows() {
    assert_eq!(validate(&row(), Ok(())), Ok(()));
    assert_eq!(
        validate(&row(), Err("failed to parse headers_json".to_string())),
        Err("failed to parse headers_json".to_string())
    );
    let mut blank = row();
    blank.name = " ".to_string();
    blank.page_size = 0;
    assert_eq!(
        validate(&blank, Err("failed to parse headers_json".to_string())),
        Err("booru names cannot be empty".to_string())
    );
    let mut b = row();
    b.character_space_replacement = String::new();
    assert_eq!(validate(&b, Ok(())), Err("character_space_replacement cannot be empty".to_string()));
}

#[test]
fn formats_booru_rows() {
    let text = randobooru::admin::format(&row());
    let lines: Vec<&str> = text.split('\n').collect();
    assert_eq!(lines.len(), 24);
    assert_eq!(lines[0], "name: demo");
    assert_eq!(lines[1], "enabled: true");
    assert_eq!(lines[11], "count_url: null");
    assert_eq!(lines[21], "post_url: https://example.test/p/{id}");
    assert_eq!(lines[23], "env_params: []");
}

#[test]
fn routes_administrate_actions() {
    assert!(matches!(route_admin_action("help", None, 1), AdminRoute::Help));
    match route_admin_action("Booru  list", None, 1) {
        AdminRoute::Booru(r) => assert_eq!(r, "list"),
        _ => panic!("expected booru route"),
    }
    match route_admin_action("channel list", Some(5), 9) {
        AdminRoute::Server(r) => assert_eq!(r, "5 channel list"),
        _ => panic!("expected server route"),
    }
    match route_admin_action("channel list", None, 9) {
        AdminRoute::Reply(r) => assert_eq!(r, "no server context; use 'server <guild_id> channel ...'"),
        _ => panic!("expected reply"),
    }
    match route_admin_action("patterns add megane", None, 9) {
        AdminRoute::Server(r) => assert_eq!(r, "0 patterns 9 add megane"),
        _ => panic!("expected server route"),
    }
    match route_admin_action("patterns", Some(1), 9) {
        AdminRoute::Reply(r) => assert_eq!(r, "usage: patterns add|remove|list [name]"),
        _ => panic!("expected reply"),
    }
    match route_admin_action("frobnicate", None, 9) {
        AdminRoute::Reply(r) => assert_eq!(r, "unknown administrate command: frobnicate\nuse 'help'"),
        _ => panic!("expected reply"),
    }
}

#[test]
fn parses_booru_commands() {
    match parse_booru_command("edit demo page_size 50") {
        BooruCommand::Edit { name, field, value } => {
            assert_eq!((name.as_str(), field.as_str(), value.as_str()), ("demo", "page_size", "50"))
        }
        _ => panic!("expected edit"),
    }
    match parse_booru_command("show") {
        BooruCommand::Reply(r) => assert_eq!(r, "usage: booru show <name>"),
        _ => panic!("expected usage"),
    }
    match parse_booru_command("param set demo session abc") {
        BooruCommand::Parameter(ParameterCommand::Put { booru, key, value }) => {
            assert_eq!((booru.as_str(), key.as_str(), value.as_str()), ("demo", "session", "abc"))
        }
        _ => panic!("expected parameter set"),
    }
    match parse_booru_command("tags add demo megane glasses,1girl nudity") {
        BooruCommand::TagPattern(TagPatternCommand::Add { booru, name, included, excluded }) => {
            assert_eq!(booru, "demo");
            assert_eq!(name, "megane");
            assert_eq!(included, vec!["glasses".to_string(), "1girl".to_string()]);
            assert_eq!(excluded, vec!["nudity".to_string()]);
        }
        _ => panic!("expected tag pattern add"),
    }
    assert!(matches!(parse_booru_command(""), BooruCommand::Reply(_)));
}

#[test]
fn parses_tags_moderator_and_setting_commands() {
    match parse_tags_command("megane add demo glasses") {
        TagsCommand::Add { name, booru, included, excluded } => {
            assert_eq!((name.as_str(), booru.as_str()), ("megane", "demo"));
            assert_eq!(included, vec!["glasses".to_string()]);
            assert!(excluded.is_empty());
        }
        _ => panic!("expected tags add"),
    }
    match parse_tags_command("megane delete") {
        TagsCommand::Delete { name, booru } => {
            assert_eq!(name, "megane");
            assert_eq!(booru, None);
        }
        _ => panic!("expected tags delete"),
    }
    assert!(matches!(parse_moderator_command("123 add 456"), ModeratorCommand::Add { user: 123, guild: Some(456) }));
    match parse_moderator_command("bob add") {
        ModeratorCommand::Reply(r) => assert_eq!(r, "invalid user_id 'bob'"),
        _ => panic!("expected reply"),
    }
    match parse_moderator_command("123 add x") {
        ModeratorCommand::Reply(r) => assert_eq!(r, "invalid guild_id"),
        _ => panic!("expected reply"),
    }
    match parse_setting_command("app_lang set fr") {
        SettingCommand::Put { key, value } => assert_eq!((key.as_str(), value.as_str()), ("app_lang", "fr")),
        _ => panic!("expected setting set"),
    }
    match parse_setting_command("app_lang set") {
        SettingCommand::Reply(r) => assert_eq!(r, "usage: setting <key> set <value>"),
        _ => panic!("expected usage"),
    }
}

#[test]
fn parses_server_commands() {
    assert!(matches!(parse_server_command("validate", Some(5), 9), ServerCommand::Validate(5)));
    match parse_server_command("7 channel set fr a, b", None, 9) {
        ServerCommand::ChannelSet { guild, channel, language, banned } => {
            assert_eq!((guild, channel), (7, 9));
            assert_eq!(language, Some("fr".to_string()));
            assert_eq!(banned, vec!["a".to_string(), "b".to_string()]);
        }
        _ => panic!("expected channel set"),
    }
    match parse_server_command("7 patterns 11 add megane", None, 9) {
        ServerCommand::PatternAdd { guild, channel, name } => {
            assert_eq!((guild, channel, name.as_str()), (7, 11, "megane"))
        }
        _ => panic!("expected pattern add"),
    }
    match parse_server_command("validate", None, 9) {
        ServerCommand::Reply(r) => assert_eq!(r, "expected a numeric id, got 'validate'"),
        _ => panic!("expected reply"),
    }
}

#[test]
fn updates_interaction_channel_lists() {
    assert_eq!(with_channel(&vec![1, 2], 2), vec![1, 2]);
    assert_eq!(with_channel(&vec![1, 2], 3), vec![1, 2, 3]);
    assert_eq!(without_channel(&vec![1, 2, 1], 1), vec![2]);
}

#[test]
fn formats_admin_replies() {
    let mut off = row();
    off.name = "other".to_string();
    off.enabled = false;
    assert_eq!(booru_list_reply(&vec![row(), off]), "demo [enabled]\nother [disabled]");
    assert_eq!(booru_list_reply(&vec![]), "no boorus");
    assert_eq!(moderator_list_reply(&vec![(1, Some(2)), (3, None)]), "1 Some(2)\n3 None");
    assert_eq!(debug_strings(&vec!["a".to_string(), "b c".to_string()]), "[\"a\", \"b c\"]");
    let servers = vec![Server { guild_id: 5, name: "S".to_string(), validated: false, interaction_channels: vec![1, 2] }];
    assert_eq!(server_list_reply(&servers), "5 S [pending] channels=[1, 2]");
    let cfg = ChannelConfig { guild_id: 5, channel_id: 9, language: None, banned_tags: vec!["x".to_string()] };
    assert_eq!(channel_set_reply(&cfg), "channel 9 config set: lang=default, banned=[\"x\"]");
}
