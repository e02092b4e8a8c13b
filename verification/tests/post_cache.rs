use randobooru::booru::ImageResult;
use randobooru::post_cache::{dm_button_id, format_dm_content, parse_dm_button_id, CachedPost, PostCache};

fn post(url: &str) -> CachedPost {
    CachedPost {
        image: ImageResult {
            image_url: url.to_string(),
            post_url: Some("https://b/post/1".to_string()),
            upstream_source_url: None,
        },
        booru_name: "demo".to_string(),
        embed_image: false,
        inline_data: None,
        inline_filename: None,
    }
}

const HOUR: u64 = 3_600_000_000_000;

#[test]
fn stored_posts_stay_until_they_expire() {
    let mut cache = PostCache::new();
    let first = cache.store(post("https://i/1.png"), 0);
    let second = cache.store(post("https://i/2.png"), 10);
    assert_eq!(first, "0");
    assert_eq!(second, "1");
    cache.cleanup(HOUR - 1);
    let found = cache.get(&first).unwrap();
    assert_eq!(found.image.image_url, "https://i/1.png");
    assert_eq!(found.booru_name, "demo");
    assert_eq!(cache.get(&first).unwrap().image.image_url, "https://i/1.png");
    assert!(cache.get("7").is_none());
    assert!(cache.get("00").is_none());
    cache.cleanup(HOUR);
    assert!(cache.get(&first).is_none());
    assert_eq!(cache.get(&second).unwrap().image.image_url, "https://i/2.png");
}

#[test]
fn dm_buttons_carry_the_cache_id() {
    assert_eq!(dm_button_id("12"), "dm:12");
    assert_eq!(parse_dm_button_id(&dm_button_id("12")), Some("12".to_string()));
    assert_eq!(
        format_dm_content(&post("https://i/1.png")),
        "[source (demo)](<https://b/post/1>)\n\nhttps://i/1.png"
    );
}
