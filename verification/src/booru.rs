//! Building booru request URLs: tag encoding and template filling.
use vstd::prelude::*;
use vstd::utf8::encode_utf8;
use crate::config::{runtime_value, BooruConfig, EnvParamConfig, RuntimeValueSource, RuntimeValues};
use crate::num::{dec, u64_to_string};
use crate::outside::{percent_encode, url_encode};
use crate::text::{
    chars_of, extend_chars, extend_str, join_seq, join_strings, replace_seq, replace_str,
    string_of, string_views,
};

verus! {

/// A post picked from a booru.
#[derive(Clone)]
pub struct ImageResult {
    pub image_url: String,
    pub post_url: Option<String>,
    pub upstream_source_url: Option<String>,
}

/// An image downloaded to be attached to a message.
pub struct InlineImageResult {
    pub filename: String,
    pub data: Vec<u8>,
    pub compressed: bool,
    pub compression_time: Option<String>,
}

/// Images larger than this many bytes are re-encoded before they are attached.
pub const INLINE_IMAGE_MAX_BYTES: usize = 10485760usize;

/// One tag percent-encoded; with `plus`, encoded spaces become `+`.
pub open spec fn encode_tag_spec(tag: Seq<char>, plus: bool) -> Seq<char> {
    let e = percent_encode(encode_utf8(tag));
    if plus {
        replace_seq(e, "%20"@, "+"@)
    } else {
        e
    }
}

/// The tag query: each tag encoded, joined by the separator, itself encoded
/// when `encode_separator` holds.
pub open spec fn encode_tags_spec(
    tags: Seq<String>,
    separator: Seq<char>,
    encode_separator: bool,
    plus: bool,
) -> Seq<char> {
    let sep = if encode_separator {
        encode_tag_spec(separator, plus)
    } else {
        separator
    };
    join_seq(tags.map_values(|t: String| encode_tag_spec(t@, plus)), sep)
}

/// Percent-encodes one tag; with `spaces_as_plus`, spaces end up as `+`.
pub fn encode_tag(tag: &str, spaces_as_plus: bool) -> (r: String)
    ensures
        r@ == encode_tag_spec(tag@, spaces_as_plus),
{
    let encoded = url_encode(tag);
    if spaces_as_plus {
        replace_str(encoded.as_str(), "%20", "+")
    } else {
        encoded
    }
}

/// Encodes each tag on its own and joins them with the separator.
pub fn encode_tags(
    tags: &[String],
    separator: &str,
    encode_separator: bool,
    spaces_as_plus: bool,
) -> (r: String)
    ensures
        r@ == encode_tags_spec(tags@, separator@, encode_separator, spaces_as_plus),
{
    let separator = if encode_separator {
        encode_tag(separator, spaces_as_plus)
    } else {
        String::from_str(separator)
    };
    let mut encoded: Vec<String> = Vec::new();
    let mut i: usize = 0;
    while i < tags.len()
        invariant
            i <= tags@.len(),
            string_views(encoded@) == tags@.take(i as int).map_values(
                |t: String| encode_tag_spec(t@, spaces_as_plus),
            ),
        decreases tags@.len() - i,
    {
        let ghost before = encoded@;
        let e = encode_tag(tags[i].as_str(), spaces_as_plus);
        encoded.push(e);
        assert(string_views(encoded@) =~= string_views(before).push(
            encode_tag_spec(tags@[i as int]@, spaces_as_plus),
        ));
        i = i + 1;
        assert(tags@.take(i as int).map_values(|t: String| encode_tag_spec(t@, spaces_as_plus))
            =~= tags@.take(i - 1 as int).map_values(
            |t: String| encode_tag_spec(t@, spaces_as_plus),
        ).push(encode_tag_spec(tags@[i - 1]@, spaces_as_plus)));
    }
    assert(tags@.take(tags@.len() as int) =~= tags@);
    join_strings(&encoded, separator.as_str())
}

/// The text that a placeholder takes: the runtime value, percent-encoded
/// when `encode`, or nothing when the value is missing.
pub open spec fn placeholder_text(
    rv: RuntimeValues,
    booru_name: Seq<char>,
    source: RuntimeValueSource,
    name: Seq<char>,
    encode: bool,
) -> Seq<char> {
    match runtime_value(rv, booru_name, source, name) {
        Some(v) => if encode {
            percent_encode(encode_utf8(v))
        } else {
            v
        },
        None => Seq::<char>::empty(),
    }
}

/// `{name}` for a placeholder name.
pub open spec fn braced(name: Seq<char>) -> Seq<char> {
    seq!['{'] + name + seq!['}']
}

/// The template with the first `k` declared placeholders of the booru filled.
pub open spec fn fill_runtime_prefix(
    booru: BooruConfig,
    rv: RuntimeValues,
    template: Seq<char>,
    encode: bool,
    k: nat,
) -> Seq<char>
    decreases k,
{
    if k == 0 {
        template
    } else {
        let p = booru.env_params@[k - 1];
        replace_seq(
            fill_runtime_prefix(booru, rv, template, encode, (k - 1) as nat),
            braced(p.placeholder@),
            placeholder_text(rv, booru.name@, p.source, p.env@, encode),
        )
    }
}

/// Every declared placeholder of the booru filled, in declaration order.
pub open spec fn fill_runtime_spec(
    booru: BooruConfig,
    rv: RuntimeValues,
    template: Seq<char>,
    encode: bool,
) -> Seq<char> {
    fill_runtime_prefix(booru, rv, template, encode, booru.env_params@.len())
}

/// `{tags}`, `{page}` (0 when absent) and `{limit}` filled, then the declared placeholders.
pub open spec fn fill_template_spec(
    booru: BooruConfig,
    rv: RuntimeValues,
    template: Seq<char>,
    encoded_tags: Seq<char>,
    page: Option<u64>,
    limit: u64,
) -> Seq<char> {
    let page_n: u64 = match page {
        Some(p) => p,
        None => 0,
    };
    let t = replace_seq(
        replace_seq(replace_seq(template, "{tags}"@, encoded_tags), "{page}"@, dec(page_n as nat)),
        "{limit}"@,
        dec(limit as nat),
    );
    fill_runtime_spec(booru, rv, t, true)
}

/// The text for one placeholder (see `placeholder_text`).
pub fn runtime_placeholder(
    booru_name: &str,
    runtime_values: &RuntimeValues,
    source: &RuntimeValueSource,
    name: &str,
    encode: bool,
) -> (r: String)
    ensures
        r@ == placeholder_text(*runtime_values, booru_name@, *source, name@, encode),
{
    match runtime_values.get(booru_name, source, name) {
        Some(value) => if encode {
            url_encode(value)
        } else {
            String::from_str(value)
        },
        None => String::new(),
    }
}

fn braced_name(name: &str) -> (r: String)
    ensures
        r@ == braced(name@),
{
    let mut v: Vec<char> = Vec::new();
    v.push('{');
    extend_str(&mut v, name);
    v.push('}');
    assert(v@ =~= braced(name@));
    string_of(&v)
}

/// Fills the booru's declared placeholders, percent-encoding the values when `encode_values`.
pub fn fill_runtime_template(
    booru: &BooruConfig,
    runtime_values: &RuntimeValues,
    template: &str,
    encode_values: bool,
) -> (r: String)
    ensures
        r@ == fill_runtime_spec(*booru, *runtime_values, template@, encode_values),
{
    let mut output = String::from_str(template);
    let mut i: usize = 0;
    while i < booru.env_params.len()
        invariant
            i <= booru.env_params@.len(),
            output@ == fill_runtime_prefix(
                *booru,
                *runtime_values,
                template@,
                encode_values,
                i as nat,
            ),
        decreases booru.env_params@.len() - i,
    {
        let param: &EnvParamConfig = &booru.env_params[i];
        let pattern = braced_name(param.placeholder.as_str());
        let value = runtime_placeholder(
            booru.name.as_str(),
            runtime_values,
            &param.source,
            param.env.as_str(),
            encode_values,
        );
        output = replace_str(output.as_str(), pattern.as_str(), value.as_str());
        i = i + 1;
    }
    output
}

/// Fills `{tags}`, `{page}`, `{limit}` and the declared placeholders of a URL template.
pub fn fill_template(
    booru: &BooruConfig,
    runtime_values: &RuntimeValues,
    template: &str,
    encoded_tags: &str,
    page: Option<u64>,
    limit: u64,
) -> (r: String)
    ensures
        r@ == fill_template_spec(*booru, *runtime_values, template@, encoded_tags@, page, limit),
{
    let page_n: u64 = match page {
        Some(p) => p,
        None => 0,
    };
    let page_text = u64_to_string(page_n);
    let limit_text = u64_to_string(limit);
    let a = replace_str(template, "{tags}", encoded_tags);
    let b = replace_str(a.as_str(), "{page}", page_text.as_str());
    let c = replace_str(b.as_str(), "{limit}", limit_text.as_str());
    fill_runtime_template(booru, runtime_values, c.as_str(), true)
}

/// The custom parameters that the declared placeholders ask for and that are
/// missing, in declaration order.
pub open spec fn missing_custom_prefix(booru: BooruConfig, rv: RuntimeValues, k: nat) -> Seq<
    Seq<char>,
>
    decreases k,
{
    if k == 0 {
        Seq::<Seq<char>>::empty()
    } else {
        let p = booru.env_params@[k - 1];
        let rest = missing_custom_prefix(booru, rv, (k - 1) as nat);
        if p.source == RuntimeValueSource::Custom && runtime_value(
            rv,
            booru.name@,
            p.source,
            p.env@,
        ) is None {
            rest.push(p.env@)
        } else {
            rest
        }
    }
}

/// The keys of custom placeholders without a value for this booru; filling a
/// template with such a placeholder leaves it empty, which is worth a warning.
pub fn missing_custom_keys(booru: &BooruConfig, runtime_values: &RuntimeValues) -> (r: Vec<String>)
    ensures
        string_views(r@) == missing_custom_prefix(
            *booru,
            *runtime_values,
            booru.env_params@.len(),
        ),
{
    let mut out: Vec<String> = Vec::new();
    let mut i: usize = 0;
    while i < booru.env_params.len()
        invariant
            i <= booru.env_params@.len(),
            string_views(out@) == missing_custom_prefix(*booru, *runtime_values, i as nat),
        decreases booru.env_params@.len() - i,
    {
        let param: &EnvParamConfig = &booru.env_params[i];
        if param.source == RuntimeValueSource::Custom {
            let found = runtime_values.get(booru.name.as_str(), &param.source, param.env.as_str());
            if found.is_none() {
                let ghost before = out@;
                out.push(String::from_str(param.env.as_str()));
                assert(string_views(out@) =~= string_views(before).push(param.env@));
            }
        }
        i = i + 1;
    }
    out
}

/// The post link for an ID: the booru's post URL template filled (no tags,
/// no page) with `{id}` replaced by the percent-encoded ID.
pub open spec fn post_url_from_id_spec(booru: BooruConfig, rv: RuntimeValues, id: Seq<char>) -> Option<
    Seq<char>,
> {
    match booru.post_url {
        Some(t) => Some(
            replace_seq(
                fill_template_spec(booru, rv, t@, Seq::<char>::empty(), None, booru.page_size),
                "{id}"@,
                percent_encode(encode_utf8(id)),
            ),
        ),
        None => None,
    }
}

/// The detail API URL for an ID.
pub open spec fn detail_url_from_id_spec(
    booru: BooruConfig,
    rv: RuntimeValues,
    template: Seq<char>,
    id: Seq<char>,
) -> Seq<char> {
    replace_seq(
        fill_template_spec(booru, rv, template, Seq::<char>::empty(), None, booru.page_size),
        "{id}"@,
        percent_encode(encode_utf8(id)),
    )
}

/// The post link for an ID, when the booru has a post URL template.
pub fn post_url_from_id(booru: &BooruConfig, runtime_values: &RuntimeValues, id: &str) -> (r:
    Option<String>)
    ensures
        match r {
            Some(s) => post_url_from_id_spec(*booru, *runtime_values, id@) == Some(s@),
            None => post_url_from_id_spec(*booru, *runtime_values, id@) is None,
        },
{
    match &booru.post_url {
        Some(template) => {
            proof {
                reveal_strlit("");
                assert(""@ =~= Seq::<char>::empty());
            }
            let filled = fill_template(
                booru,
                runtime_values,
                template.as_str(),
                "",
                None,
                booru.page_size,
            );
            let encoded_id = url_encode(id);
            Some(replace_str(filled.as_str(), "{id}", encoded_id.as_str()))
        },
        None => None,
    }
}

/// The detail API URL for an ID.
pub fn detail_url_from_id(
    booru: &BooruConfig,
    runtime_values: &RuntimeValues,
    template: &str,
    id: &str,
) -> (r: String)
    ensures
        r@ == detail_url_from_id_spec(*booru, *runtime_values, template@, id@),
{
    proof {
        reveal_strlit("");
        assert(""@ =~= Seq::<char>::empty());
    }
    let filled = fill_template(booru, runtime_values, template, "", None, booru.page_size);
    let encoded_id = url_encode(id);
    replace_str(filled.as_str(), "{id}", encoded_id.as_str())
}

} // verus!
