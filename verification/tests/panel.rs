use randobooru::panel::{
    boorus_page, can_truncate, main_menu, server_tags_page, settings_page, truncate, validate_page,
    ButtonStyle, PanelCounts,
};
use randobooru::panel_form::{
    booru_form_text, form_done, form_request, get_value, merged_booru_json, BooruFormCommand,
    BooruRef, FormRequest, PatternAction,
};
use randobooru::panel_route::{
    action_button, category_kind, component_permission, component_route, modal_permission,
    PanelPermission, confirmation, confirmed_request,
    extract_category_from_modal_id, parse_ids, short_label, target_page, target_request,
    ActionResponse, CategoryKind, ComponentRoute, ConfirmedForm, ConfirmedRequest, TargetRequest,
};
use randobooru::records::Server;

#[test]
fn truncates_at_byte_offsets() {
    assert_eq!(truncate("hello", 10), "hello");
    assert_eq!(truncate("hello world", 5), "hello...");
    assert!(can_truncate("héllo", 3));
    assert!(!can_truncate("héllo", 2));
    assert_eq!(truncate("héllo", 3), "hé...");
}

#[test]
fn main_menu_offers_validation_only_for_unvalidated_servers() {
    let counts = PanelCounts { boorus: 3, enabled_boorus: 2, tag_names: 4, servers: 5, validated_servers: 1 };
    let page = main_menu(&counts, Some(false));
    assert_eq!(page.title, "Administration Panel");
    assert_eq!(page.fields[0], ("Boorus".to_string(), "3 total, 2 enabled".to_string()));
    assert_eq!(page.fields[2], ("Servers".to_string(), "5 total, 1 validated".to_string()));
    assert_eq!(page.rows.len(), 3);
    assert_eq!(page.rows[2][0].custom_id, "ac:validate");
    assert_eq!(main_menu(&counts, Some(true)).rows.len(), 2);
    assert_eq!(main_menu(&counts, None).rows.len(), 2);
}

#[test]
fn builds_category_pages() {
    let page = settings_page(&Ok(vec![("app_lang".to_string(), "fr".to_string())])).unwrap();
    assert_eq!(page.description, "**app_lang** = `fr`\n");
    let page = settings_page(&Err("db down".to_string())).unwrap();
    assert_eq!(page.description, "Error: db down");
    let page = boorus_page(&Ok(vec![])).unwrap();
    assert_eq!(page.description, "No boorus configured.");
    let servers = vec![
        Server { guild_id: 1, name: "A".to_string(), validated: true, interaction_channels: vec![] },
        Server { guild_id: 2, name: "B".to_string(), validated: false, interaction_channels: vec![] },
    ];
    let page = validate_page(&Ok(servers), false).unwrap();
    assert_eq!(page.description, "**Validated:**\n  ✅ A (1)\n**Pending:**\n  ⏳ B (2)\n");
    assert_eq!(page.rows[0].len(), 1);
    let page = server_tags_page(Some(9), &vec!["megane".to_string()]).unwrap();
    assert_eq!(page.description, "Enabled tag commands:\n  • megane\n");
    assert_eq!(page.footer, Some("Server ID: 9".to_string()));
    let page = server_tags_page(None, &vec![]).unwrap();
    assert!(page.rows.is_empty());
}

#[test]
fn routes_panel_components() {
    assert!(matches!(component_route("ac:boorus"), ComponentRoute::Category(c) if c == "boorus"));
    assert!(matches!(component_route("an"), ComponentRoute::MainMenu));
    assert!(matches!(component_route("dm:3"), ComponentRoute::DmButton));
    assert!(matches!(component_route("zz"), ComponentRoute::Ignore));
    assert!(matches!(category_kind("settings"), CategoryKind::Settings));
    assert!(matches!(category_kind("nope"), CategoryKind::Main));
    assert_eq!(extract_category_from_modal_id("am:channels:set:1:2"), "channels");
    assert_eq!(extract_category_from_modal_id("other"), "main");
}

#[test]
fn action_buttons_open_forms_and_lists() {
    match action_button("booru:add", false) {
        ActionResponse::Form(m) => {
            assert_eq!(m.custom_id, "am:boorus:add");
            assert_eq!(m.inputs.len(), 5);
        }
        _ => panic!("expected a form"),
    }
    match action_button("ch:set", false) {
        ActionResponse::Targets { action, title, .. } => {
            assert_eq!(action, "set");
            assert_eq!(title, "Select Channel to Edit");
        }
        _ => panic!("expected targets"),
    }
    assert!(matches!(action_button("val:validate", false), ActionResponse::NotAvailable));
    assert!(matches!(action_button("val:validate", true), ActionResponse::Form(_)));
    assert!(matches!(action_button("reload", false), ActionResponse::Reload));
}

#[test]
fn target_pages_chunk_buttons() {
    let items: Vec<(String, String)> = (0..23).map(|i| (format!("as:x:{i}"), format!("item {i}"))).collect();
    let page = target_page("T", "D", &items, "ac:main");
    assert_eq!(page.rows.len(), 5);
    assert_eq!(page.rows[0].len(), 5);
    assert_eq!(page.rows[3].len(), 5);
    assert_eq!(page.rows[4][0].custom_id, "ac:main");
    let empty = target_page("T", "D", &vec![], "ac:main");
    assert_eq!(empty.description, "D\nNo items available.");
    assert_eq!(short_label(&"x".repeat(80)).chars().count(), 70);
}

#[test]
fn target_and_confirmed_requests() {
    assert!(matches!(target_request("boorus:delete:7"), TargetRequest::BooruDeleteConfirm { booru: Some(7), .. }));
    assert!(matches!(target_request("bogus"), TargetRequest::MainMenu));
    let page = confirmation("Delete?", "settings:delete:k");
    assert_eq!(page.rows[0][0].custom_id, "ay:settings:delete:k");
    assert!(matches!(page.rows[0][1].style, ButtonStyle::Secondary));
    assert!(matches!(confirmed_request("booru:delete:x"), ConfirmedRequest::BooruDelete(Err(e)) if e == "Invalid booru id"));
    assert!(matches!(confirmed_request("channel:remove:1:2"), ConfirmedRequest::ChannelRemove(Ok((1, 2)))));
    assert!(matches!(confirmed_request("tag:remove"), ConfirmedRequest::Form(ConfirmedForm::RemovePattern)));
    assert_eq!(parse_ids("1", "x"), Err("Invalid channel ID".to_string()));
}

fn values(pairs: &[(&str, &str)]) -> Vec<(String, String)> {
    pairs.iter().map(|(a, b)| (a.to_string(), b.to_string())).collect()
}

#[test]
fn reads_submitted_forms() {
    let v = values(&[("guild_id", ""), ("channel_id", "5")]);
    assert_eq!(get_value(&v, "channel_id"), "5");
    assert_eq!(get_value(&v, "missing"), "");
    assert!(matches!(form_request("am:channels:add", &v, None), Err(e) if e == "Guild ID is required in modal."));
    let v = values(&[("language", ""), ("banned_tags", "a, b")]);
    match form_request("am:channels:set:3:4", &v, None) {
        Ok(FormRequest::ChannelSet { guild, channel, language, banned }) => {
            assert_eq!((guild, channel, language), (3, 4, None));
            assert_eq!(banned, vec!["a".to_string(), "b".to_string()]);
        }
        _ => panic!("expected channel set"),
    }
    let v = values(&[("pattern_action", "add"), ("pattern_name", "")]);
    assert!(matches!(form_request("am:channels:pattern:3:4", &v, None), Err(e) if e == "Pattern name required."));
    let v = values(&[("pattern_action", "list")]);
    assert!(matches!(
        form_request("am:channels:pattern:3:4", &v, None),
        Ok(FormRequest::ChannelPattern { action: PatternAction::List, .. })
    ));
    let v = values(&[("pattern_name", "megane"), ("booru_name", "demo"), ("included_tags", "glasses"), ("excluded_tags", "")]);
    assert!(matches!(form_request("am:tags:add", &v, None), Ok(FormRequest::Tags(t)) if t == "megane add demo glasses"));
    assert!(matches!(form_request("am:what", &vec![], None), Err(e) if e == "Unknown modal action: am:what"));
    let req = form_request("am:validate:unvalidate", &values(&[("guild_id", "8")]), None).unwrap();
    assert_eq!(form_done(&req), "Server 8 unvalidated.");
    match form_request("am:boorus:edit:12", &values(&[("field_name", "page_size"), ("field_value", "5")]), None) {
        Ok(FormRequest::Booru { booru: BooruRef::ById { booru: Some(12), .. }, command }) => {
            assert_eq!(booru_form_text("demo", &command), Ok("edit demo page_size 5".to_string()));
        }
        _ => panic!("expected booru edit"),
    }
    let cmd = BooruFormCommand::Param { action: "frob".to_string(), key: String::new(), value: String::new() };
    assert_eq!(booru_form_text("demo", &cmd), Err("Action must be set, delete, or list.".to_string()));
}

#[test]
fn merges_booru_form_json() {
    let merged = merged_booru_json(
        "  nice  ",
        "{\"posts_url\":\"p\",\"count_url\":null}",
        "{\"posts_path\":[\"posts\"]}",
        "{\"page_size\":100,\"count_url\":\"c\"}",
    );
    assert_eq!(
        merged,
        Ok("{\"count_url\":\"c\",\"description\":\"nice\",\"page_size\":100,\"posts_path\":[\"posts\"],\"posts_url\":\"p\"}".to_string())
    );
    assert_eq!(merged_booru_json("", "[1]", "{}", "{}"), Err("API URLs JSON must be a JSON object".to_string()));
    assert!(merged_booru_json("", "{}", "nope", "{}").unwrap_err().starts_with("JSON Paths JSON must be valid JSON: "));
}

#[test]
fn refuses_panel_clicks_from_other_users() {
    let delete = component_route("ay:booru:delete:3");
    assert_eq!(component_permission(&delete, false, false), PanelPermission::AdminOnly);
    assert_eq!(component_permission(&delete, true, false), PanelPermission::Allowed);
    assert_eq!(component_permission(&delete, false, true), PanelPermission::Allowed);
    for id in ["ac:boorus", "aa:booru:add", "as:boorus:edit:1", "an"] {
        assert_eq!(component_permission(&component_route(id), false, false), PanelPermission::AdminOnly);
    }
    assert_eq!(component_permission(&component_route("dm:7"), false, false), PanelPermission::Allowed);
    assert_eq!(modal_permission("am:boorus:add", false, false), PanelPermission::AdminOnly);
    assert_eq!(modal_permission("am:boorus:add", false, true), PanelPermission::Allowed);
    assert_eq!(modal_permission("other", false, false), PanelPermission::Allowed);
}
