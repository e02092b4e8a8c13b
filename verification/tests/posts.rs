use randobooru::json::Json;
use randobooru::posts::{extract_post_tags, extract_upstream_source_url, reject_blacklisted_post};

fn text(s: &str) -> Json {
    Json::String(s.to_string())
}

#[test]
fn extracts_direct_source_url() {
    assert_eq!(
        extract_upstream_source_url("https://source.example/path?source=test"),
        Some("https://source.example/path?source=test".to_string())
    );
}

#[test]
fn extracts_embedded_source_url() {
    assert_eq!(
        extract_upstream_source_url("Source: <https://source.example/test/status/123>"),
        Some("https://source.example/test/status/123".to_string())
    );
}

#[test]
fn extracts_blacklist_tags_from_common_post_shapes() {
    let post = Json::Object(vec![
        ("tag_string".to_string(), text("megane 1girl")),
        ("tag_string_artist".to_string(), text("foo_bar")),
        (
            "tags".to_string(),
            Json::Array(vec![text("solo"), Json::Object(vec![("name".to_string(), text("artist_name"))])]),
        ),
    ]);

    let tags = extract_post_tags(&post);

    assert!(tags.contains(&"megane".to_string()));
    assert!(tags.contains(&"foo_bar".to_string()));
    assert!(tags.contains(&"artist_name".to_string()));
}

#[test]
fn rejects_post_with_blacklisted_tag() {
    let post = Json::Object(vec![("tag_string".to_string(), text("megane banned_tag"))]);

    let err = reject_blacklisted_post(&post, &["banned_tag".to_string()]).unwrap_err();

    assert!(err.contains("blacklisted tag: banned_tag"));
}

#[test]
fn post_without_blacklisted_tags_passes() {
    let post = Json::Object(vec![("tag_string".to_string(), text("megane 1girl"))]);
    assert_eq!(reject_blacklisted_post(&post, &["banned".to_string()]), Ok(()));
}

#[test]
fn source_without_link_gives_nothing() {
    assert_eq!(extract_upstream_source_url("no link here"), None);
}
