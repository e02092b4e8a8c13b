//! Plain records read from the bot's database.
use vstd::prelude::*;

verus! {

/// A Discord server the bot has joined.
pub struct Server {
    pub guild_id: i64,
    pub name: String,
    pub validated: bool,
    pub interaction_channels: Vec<i64>,
}

/// The configuration of one channel of a server.
pub struct ChannelConfig {
    pub guild_id: i64,
    pub channel_id: i64,
    pub language: Option<String>,
    pub banned_tags: Vec<String>,
}

/// A named tag pattern of one booru.
pub struct TagPattern {
    pub id: i64,
    pub name: String,
    pub booru_id: i64,
}

/// One tag of a tag pattern, included or excluded.
pub struct TagPatternEntry {
    pub id: i64,
    pub pattern_id: i64,
    pub tag: String,
    pub is_excluded: bool,
}

/// A custom parameter of a booru.
pub struct BooruCustomParameter {
    pub booru_name: String,
    pub key: String,
    pub value: String,
}

/// A source link that was posted in a channel.
pub struct ArtHistoryEntry {
    pub source_link: String,
    pub channel_id: i64,
    pub guild_id: Option<i64>,
    pub booru_name: Option<String>,
}

} // verus!
