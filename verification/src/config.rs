//! Booru configuration and the runtime values that URL templates draw on.
use vstd::prelude::*;
use crate::textmap::TextMap;

verus! {

/// One step of a path into a JSON document.
#[derive(Clone)]
pub enum JsonPathSegment {
    /// An object member, or an array position written as text.
    Key(String),
    /// An array position, or an object member named by the number.
    Index(usize),
}

/// Where a template placeholder takes its value from.
#[derive(Clone, Copy, PartialEq, Eq, Structural)]
pub enum RuntimeValueSource {
    Secrets,
    Settings,
    Custom,
}

/// Values looked up when URL and header templates are filled.
pub struct RuntimeValues {
    pub secrets: TextMap<String>,
    pub settings: TextMap<String>,
    /// Per booru name, that booru's custom parameters.
    pub custom: TextMap<TextMap<String>>,
}

/// A placeholder filled from a runtime value.
#[derive(Clone)]
pub struct EnvParamConfig {
    pub placeholder: String,
    pub env: String,
    pub source: RuntimeValueSource,
}

/// How one booru API is queried and read.
pub struct BooruConfig {
    pub name: String,
    pub embed_image: bool,
    pub max_tags: usize,
    pub page_size: u64,
    pub page_base: u64,
    pub tag_separator: String,
    pub encode_tag_separator: bool,
    pub tag_spaces_as_plus: bool,
    pub character_space_replacement: String,
    pub count_url: Option<String>,
    pub count_path: Vec<JsonPathSegment>,
    pub posts_url: String,
    pub posts_path: Vec<JsonPathSegment>,
    pub file_url_path: Vec<JsonPathSegment>,
    pub post_url: Option<String>,
    pub source_url_path: Vec<JsonPathSegment>,
    pub detail_url: Option<String>,
    pub detail_id_path: Vec<JsonPathSegment>,
    pub detail_file_url_path: Vec<JsonPathSegment>,
    pub detail_source_url_path: Vec<JsonPathSegment>,
    pub headers: TextMap<String>,
    pub env_params: Vec<EnvParamConfig>,
}

/// A lookup in a map of texts.
pub open spec fn lookup(m: Map<Seq<char>, Seq<char>>, k: Seq<char>) -> Option<Seq<char>> {
    if m.dom().contains(k) {
        Some(m[k])
    } else {
        None
    }
}

/// The runtime value for a source and key; custom values are per booru.
pub open spec fn runtime_value(
    rv: RuntimeValues,
    booru_name: Seq<char>,
    source: RuntimeValueSource,
    key: Seq<char>,
) -> Option<Seq<char>> {
    match source {
        RuntimeValueSource::Secrets => lookup(rv.secrets@, key),
        RuntimeValueSource::Settings => lookup(rv.settings@, key),
        RuntimeValueSource::Custom => if rv.custom@.dom().contains(booru_name) {
            lookup(rv.custom@[booru_name], key)
        } else {
            None
        },
    }
}

pub open spec fn opt_str_view(v: Option<&str>) -> Option<Seq<char>> {
    match v {
        Some(s) => Some(s@),
        None => None,
    }
}

impl RuntimeValues {
    /// The value of `key` from `source`; custom values are those of `booru_name`.
    pub fn get(&self, booru_name: &str, source: &RuntimeValueSource, key: &str) -> (r: Option<&str>)
        ensures
            opt_str_view(r) == runtime_value(*self, booru_name@, *source, key@),
    {
        match source {
            RuntimeValueSource::Secrets => match self.secrets.get(key) {
                Some(v) => Some(v.as_str()),
                None => None,
            },
            RuntimeValueSource::Settings => match self.settings.get(key) {
                Some(v) => Some(v.as_str()),
                None => None,
            },
            RuntimeValueSource::Custom => match self.custom.get(booru_name) {
                Some(params) => match params.get(key) {
                    Some(v) => Some(v.as_str()),
                    None => None,
                },
                None => None,
            },
        }
    }
}

} // verus!
