use randobooru::booru::ImageResult;
use randobooru::config::{BooruConfig, JsonPathSegment};
use randobooru::responses::{
    custom_command_name, custom_tag_count, discord_name_component, format_image_response,
    format_inline_image_response, format_recent_art_links, host_site_label, normalize_user_tag,
    source_site_label,
};
use randobooru::textmap::TextMap;

fn booru(name: &str, max_tags: usize) -> BooruConfig {
    BooruConfig {
        name: name.to_string(),
        embed_image: false,
        max_tags,
        page_size: 100,
        page_base: 1,
        tag_separator: " ".to_string(),
        encode_tag_separator: true,
        tag_spaces_as_plus: false,
        character_space_replacement: "_".to_string(),
        count_url: Some("https://example.test/count".to_string()),
        count_path: vec![],
        posts_url: "https://example.test/posts".to_string(),
        posts_path: vec![],
        file_url_path: vec![JsonPathSegment::Key("file_url".to_string())],
        post_url: None,
        source_url_path: vec![],
        detail_url: None,
        detail_id_path: vec![],
        detail_file_url_path: vec![],
        detail_source_url_path: vec![],
        headers: TextMap::new(),
        env_params: vec![],
    }
}

#[test]
fn formats_recent_art_links_as_plain_urls() {
    let output = format_recent_art_links(&[
        "https://example.test/1".to_string(),
        "https://example.test/2".to_string(),
    ]);

    assert_eq!(
        output,
        "1. <https://example.test/1>\n2. <https://example.test/2>"
    );
}

#[test]
fn builds_custom_command_name() {
    assert_eq!(custom_command_name("test"), "test-custom");
}

#[test]
fn builds_custom_command_name_with_special_chars() {
    assert_eq!(custom_command_name("test.booru!"), "test-booru-custom");
}

#[test]
fn uses_nine_total_custom_tag_options_when_unlimited() {
    let mut b = booru("test", 0);
    b.page_base = 1;
    b.count_url = Some("https://test/count".to_string());
    b.posts_url = "https://test/posts".to_string();
    assert_eq!(custom_tag_count(&b), 9);
}

#[test]
fn formats_source_links_before_image_url() {
    let response = format_image_response(
        &booru("demo", 2),
        &ImageResult {
            image_url: "https://example.test/image.jpg".to_string(),
            post_url: Some("https://example.test/post/1".to_string()),
            upstream_source_url: Some("https://source.example/artworks/123".to_string()),
        },
        false,
    );

    assert_eq!(
        response,
        "[source (demo)](<https://example.test/post/1>) | [source (source.example)](<https://source.example/artworks/123>)\nhttps://example.test/image.jpg"
    );
}

#[test]
fn custom_tag_count_uses_nine_when_unlimited() {
    let mut b = booru("demo", 2);
    b.max_tags = 0;
    assert_eq!(custom_tag_count(&b), 9);
}

#[test]
fn custom_tag_count_keeps_configured_limit() {
    assert_eq!(custom_tag_count(&booru("demo", 4)), 4);
}

#[test]
fn name_component_collapses_and_trims_separators() {
    assert_eq!(discord_name_component("--Blue  Archive!!"), "blue-archive");
    assert_eq!(discord_name_component("Über Tag"), "ber-tag");
    assert_eq!(discord_name_component("***"), "");
}

#[test]
fn compressed_marker_and_www_stripping() {
    let response = format_image_response(
        &booru("demo", 2),
        &ImageResult {
            image_url: "https://example.test/image.jpg".to_string(),
            post_url: None,
            upstream_source_url: Some("https://www.WWW.Site.Example/a".to_string()),
        },
        true,
    );
    assert_eq!(
        response,
        "[source (site.example)](<https://www.WWW.Site.Example/a>) | compressed\nhttps://example.test/image.jpg"
    );
}

#[test]
fn bare_image_url_when_no_links() {
    let image = ImageResult {
        image_url: "https://example.test/image.jpg".to_string(),
        post_url: None,
        upstream_source_url: None,
    };
    assert_eq!(format_image_response(&booru("demo", 2), &image, false), "https://example.test/image.jpg");
    assert_eq!(format_inline_image_response(&booru("demo", 2), &image, false), None);
    assert_eq!(
        format_inline_image_response(&booru("demo", 2), &image, true),
        Some("compressed".to_string())
    );
}

#[test]
fn source_without_host_has_plain_label() {
    let image = ImageResult {
        image_url: "https://example.test/image.jpg".to_string(),
        post_url: None,
        upstream_source_url: Some("mailto:someone@example.test".to_string()),
    };
    assert_eq!(
        format_image_response(&booru("demo", 2), &image, false),
        "[source](<mailto:someone@example.test>)\nhttps://example.test/image.jpg"
    );
}

#[test]
fn user_tags_are_trimmed_and_spaces_replaced() {
    assert_eq!(normalize_user_tag("  blue archive  ", "_"), "blue_archive");
    assert_eq!(normalize_user_tag("a b c", "+"), "a+b+c");
}

#[test]
fn labels_sites_by_host() {
    assert_eq!(host_site_label("www.www.Example.COM"), "example.com");
    assert_eq!(host_site_label("WWW.example.com"), "www.example.com");
    assert_eq!(source_site_label("https://www.Pixiv.net/artworks/1"), Some("pixiv.net".to_string()));
    assert_eq!(source_site_label("not a url"), None);
}

#[test]
fn name_components_are_tidy_and_stable() {
    let r = discord_name_component("--Foo  Bar!!_baz--");
    assert_eq!(r, "foo-bar-baz");
    assert_eq!(discord_name_component(&r), r);
    assert_eq!(discord_name_component("Danbooru2"), "danbooru2");
    assert_eq!(discord_name_component("***"), "");
}
