//! The steps of fetching a random post from a booru. The caller performs the
//! HTTP requests between the steps and hands each answer back.
use vstd::prelude::*;
use crate::booru::{
    detail_url_from_id, detail_url_from_id_spec, encode_tags, encode_tags_spec, fill_template,
    fill_template_spec, post_url_from_id, post_url_from_id_spec, ImageResult,
};
use crate::config::{BooruConfig, RuntimeValues};
use crate::json::Json;
use crate::outside::{opt_string_view, random_below};
use crate::posts::{
    blacklist_hit, extract_upstream_source_url, optional_string_spec, post_url, post_url_spec,
    read_array_path, read_optional_string_path, read_path, read_path_spec, read_string_path,
    read_u64_path, read_u64_spec, reject_blacklisted_post, template_text, upstream_source_spec,
    value_to_template_string,
};
use crate::text::{chars_of, extend_str, join_seq, join_strings, string_of, string_views};

verus! {

/// `"{prefix}{name}"`.
pub open spec fn about(prefix: Seq<char>, name: Seq<char>) -> Seq<char> {
    prefix + name
}

fn message(prefix: &str, name: &str) -> (r: String)
    ensures
        r@ == about(prefix@, name@),
{
    let mut v = chars_of(prefix);
    extend_str(&mut v, name);
    string_of(&v)
}

/// What a search needs before its first request: the encoded tag query and,
/// when the booru counts posts, the count URL.
pub struct SearchStart {
    pub encoded_tags: String,
    pub count_url: Option<String>,
}

/// Starts a search: refuses an empty tag list, encodes the tags, and fills
/// the count URL template (no page) when the booru has one.
pub fn start_search(booru: &BooruConfig, runtime_values: &RuntimeValues, tags: &[String]) -> (r:
    Result<SearchStart, String>)
    ensures
        match r {
            Ok(s) => tags@.len() > 0 && s.encoded_tags@ == encode_tags_spec(
                tags@,
                booru.tag_separator@,
                booru.encode_tag_separator,
                booru.tag_spaces_as_plus,
            ) && match booru.count_url {
                Some(t) => s.count_url matches Some(u) && u@ == fill_template_spec(
                    *booru,
                    *runtime_values,
                    t@,
                    s.encoded_tags@,
                    None,
                    booru.page_size,
                ),
                None => s.count_url is None,
            },
            Err(e) => tags@.len() == 0 && e@ == about("no tags provided for "@, booru.name@),
        },
{
    if tags.len() == 0 {
        return Err(message("no tags provided for ", booru.name.as_str()));
    }
    let encoded_tags = encode_tags(
        tags,
        booru.tag_separator.as_str(),
        booru.encode_tag_separator,
        booru.tag_spaces_as_plus,
    );
    let count_url = match &booru.count_url {
        Some(t) => Some(
            fill_template(
                booru,
                runtime_values,
                t.as_str(),
                encoded_tags.as_str(),
                None,
                booru.page_size,
            ),
        ),
        None => None,
    };
    Ok(SearchStart { encoded_tags, count_url })
}

/// Reads the post count out of the count answer.
pub fn read_count(booru: &BooruConfig, count_json: &Json) -> (r: Result<u64, String>)
    ensures
        match r {
            Ok(n) => read_u64_spec(*count_json, booru.count_path@) == Some(n),
            Err(e) => read_u64_spec(*count_json, booru.count_path@) is None && e@ == about(
                "failed to read count for "@,
                booru.name@,
            ),
        },
{
    match read_u64_path(count_json, booru.count_path.as_slice()) {
        Some(n) => Ok(n),
        None => Err(message("failed to read count for ", booru.name.as_str())),
    }
}

/// The number of pages that `count` posts fill.
pub open spec fn page_count(count: u64, page_size: u64) -> int {
    (count + page_size - 1) / (page_size as int)
}

/// The page to fetch for a draw: without a count, the first page; else the
/// drawn page after the first one. `pick` must be below the page count.
pub open spec fn page_for_spec(booru: BooruConfig, count: Option<u64>, pick: u64) -> Result<
    u64,
    Seq<char>,
> {
    match count {
        None => Ok(booru.page_base),
        Some(0) => Err(Seq::<char>::empty()),
        Some(_) => Ok((pick + booru.page_base) as u64),
    }
}

/// `"{name} has no posts for tags: {tags joined by spaces}"`.
pub open spec fn no_posts_message(booru: BooruConfig, tags: Seq<String>) -> Seq<char> {
    booru.name@ + " has no posts for tags: "@ + join_seq(string_views(tags), " "@)
}

/// The page to fetch, given the count (none when the booru does not count)
/// and a draw below the page count.
pub fn page_for(booru: &BooruConfig, tags: &Vec<String>, count: Option<u64>, pick: u64) -> (r: Result<
    u64,
    String,
>)
    requires
        match count {
            Some(c) => c > 0 ==> booru.page_size > 0 && pick < page_count(c, booru.page_size)
                && pick + booru.page_base <= u64::MAX,
            None => true,
        },
    ensures
        match r {
            Ok(p) => page_for_spec(*booru, count, pick) == Ok::<u64, Seq<char>>(p),
            Err(e) => count == Some(0u64) && e@ == no_posts_message(*booru, tags@),
        },
{
    match count {
        None => Ok(booru.page_base),
        Some(c) => if c == 0 {
            let joined = join_strings(tags, " ");
            let mut v = chars_of(booru.name.as_str());
            extend_str(&mut v, " has no posts for tags: ");
            extend_str(&mut v, joined.as_str());
            Err(string_of(&v))
        } else {
            Ok(pick + booru.page_base)
        },
    }
}

/// Draws the page to fetch: without a count the booru's first page; with a
/// count, a random page among those the posts fill; an error for no posts.
pub fn choose_page(booru: &BooruConfig, tags: &Vec<String>, count: Option<u64>) -> (r: Result<
    u64,
    String,
>)
    requires
        match count {
            Some(c) => c > 0 ==> booru.page_size > 0 && page_count(c, booru.page_size) - 1
                + booru.page_base <= u64::MAX,
            None => true,
        },
    ensures
        match r {
            Ok(p) => match count {
                None => p == booru.page_base,
                Some(c) => c > 0 && booru.page_base <= p < booru.page_base + page_count(
                    c,
                    booru.page_size,
                ),
            },
            Err(e) => count == Some(0u64) && e@ == no_posts_message(*booru, tags@),
        },
{
    match count {
        Some(c) => if c > 0 {
            assert(c % booru.page_size != 0 ==> c / booru.page_size < u64::MAX) by (nonlinear_arith)
                requires
                    booru.page_size > 0,
            ;
            let pages = c / booru.page_size + if c % booru.page_size != 0 {
                1
            } else {
                0
            };
            assert(pages == page_count(c, booru.page_size)) by (nonlinear_arith)
                requires
                    booru.page_size > 0,
                    pages == c / booru.page_size + if c % booru.page_size != 0 {
                        1int
                    } else {
                        0int
                    },
            ;
            assert(pages > 0) by (nonlinear_arith)
                requires
                    booru.page_size > 0,
                    c > 0,
                    pages == (c + booru.page_size - 1) / (booru.page_size as int),
            ;
            let pick = random_below(pages);
            page_for(booru, tags, count, pick)
        } else {
            page_for(booru, tags, count, 0)
        },
        None => page_for(booru, tags, count, 0),
    }
}

/// The URL of a post page.
pub fn posts_request_url(
    booru: &BooruConfig,
    runtime_values: &RuntimeValues,
    encoded_tags: &str,
    page: u64,
) -> (r: String)
    ensures
        r@ == fill_template_spec(
            *booru,
            *runtime_values,
            booru.posts_url@,
            encoded_tags@,
            Some(page),
            booru.page_size,
        ),
{
    fill_template(
        booru,
        runtime_values,
        booru.posts_url.as_str(),
        encoded_tags,
        Some(page),
        booru.page_size,
    )
}

/// The posts of a post page; an error when they cannot be read or there are none.
pub fn read_posts<'a>(booru: &BooruConfig, posts_json: &'a Json) -> (r: Result<&'a Vec<Json>, String>)
    ensures
        match r {
            Ok(a) => read_path_spec(*posts_json, booru.posts_path@) == Some(Json::Array(*a))
                && a@.len() > 0,
            Err(e) => match read_path_spec(*posts_json, booru.posts_path@) {
                Some(Json::Array(a)) => a@.len() == 0 && e@ == booru.name@
                    + " returned an empty post page"@,
                _ => e@ == about("failed to read posts for "@, booru.name@),
            },
        },
{
    match read_array_path(posts_json, booru.posts_path.as_slice()) {
        Some(a) => if a.len() == 0 {
            let mut v = chars_of(booru.name.as_str());
            extend_str(&mut v, " returned an empty post page");
            Err(string_of(&v))
        } else {
            Ok(a)
        },
        None => Err(message("failed to read posts for ", booru.name.as_str())),
    }
}

/// A random post of a non-empty page.
pub fn pick_post(posts: &Vec<Json>) -> (r: usize)
    requires
        posts@.len() > 0,
    ensures
        r < posts@.len(),
{
    random_below(posts.len() as u64) as usize
}

/// What a listed post gives: the image already, or the detail request to make.
pub enum ListingOutcome {
    Image(ImageResult),
    Detail { url: String, id: String },
}

/// The image of a listed post read without a detail request.
pub open spec fn listing_image_ok(
    booru: BooruConfig,
    rv: RuntimeValues,
    post: Json,
    image: ImageResult,
) -> bool {
    &&& read_path_spec(post, booru.file_url_path@) matches Some(Json::String(u)) && u@
        == image.image_url@
    &&& opt_string_view(image.upstream_source_url) == match optional_string_spec(
        post,
        booru.source_url_path@,
    ) {
        Some(s) => upstream_source_spec(s),
        None => None,
    }
    &&& opt_string_view(image.post_url) == post_url_spec(booru, rv, post)
}

/// Reads a listed post: refuses a blacklisted one; without a detail URL,
/// reads the image, source and post links from the post; with one, gives the
/// detail URL for the post's ID.
pub fn image_from_listing(
    booru: &BooruConfig,
    runtime_values: &RuntimeValues,
    post: &Json,
    blacklisted_tags: &[String],
) -> (r: Result<ListingOutcome, String>)
    ensures
        match r {
            Ok(ListingOutcome::Image(image)) => blacklist_hit(blacklisted_tags@, *post) is None
                && booru.detail_url is None && listing_image_ok(
                *booru,
                *runtime_values,
                *post,
                image,
            ),
            Ok(ListingOutcome::Detail { url, id }) => {
                &&& blacklist_hit(blacklisted_tags@, *post) is None
                &&& booru.detail_url matches Some(t)
                &&& read_path_spec(*post, booru.detail_id_path@) matches Some(v)
                &&& template_text(v) == Some(id@)
                &&& url@ == detail_url_from_id_spec(*booru, *runtime_values, t@, id@)
            },
            Err(e) => match blacklist_hit(blacklisted_tags@, *post) {
                Some(t) => e@ == "post matched blacklisted tag: "@ + t,
                None => match booru.detail_url {
                    None => !(read_path_spec(*post, booru.file_url_path@) matches Some(
                        Json::String(_),
                    )) && e@ == about("failed to read file URL for "@, booru.name@),
                    Some(_) => !(read_path_spec(*post, booru.detail_id_path@) matches Some(v)
                        && template_text(v) is Some) && e@ == about(
                        "failed to read detail ID for "@,
                        booru.name@,
                    ),
                },
            },
        },
{
    match reject_blacklisted_post(post, blacklisted_tags) {
        Ok(()) => {},
        Err(e) => return Err(e),
    }
    match &booru.detail_url {
        None => {
            let image_url = match read_string_path(post, booru.file_url_path.as_slice()) {
                Some(u) => String::from_str(u),
                None => return Err(message("failed to read file URL for ", booru.name.as_str())),
            };
            let upstream_source_url = match read_optional_string_path(
                post,
                booru.source_url_path.as_slice(),
            ) {
                Some(s) => extract_upstream_source_url(s),
                None => None,
            };
            let link = post_url(booru, runtime_values, post);
            Ok(
                ListingOutcome::Image(
                    ImageResult { image_url, post_url: link, upstream_source_url },
                ),
            )
        },
        Some(template) => {
            let id = match read_path(post, booru.detail_id_path.as_slice()) {
                Some(v) => match value_to_template_string(v) {
                    Some(id) => id,
                    None => return Err(
                        message("failed to read detail ID for ", booru.name.as_str()),
                    ),
                },
                None => return Err(message("failed to read detail ID for ", booru.name.as_str())),
            };
            let url = detail_url_from_id(booru, runtime_values, template.as_str(), id.as_str());
            Ok(ListingOutcome::Detail { url, id })
        },
    }
}

/// The image read from a detail answer: file from the detail, source from the
/// detail or else from the listed post, post link from the ID or else the post.
pub open spec fn detail_image_ok(
    booru: BooruConfig,
    rv: RuntimeValues,
    post: Json,
    id: Seq<char>,
    detail: Json,
    image: ImageResult,
) -> bool {
    &&& read_path_spec(detail, booru.detail_file_url_path@) matches Some(Json::String(u)) && u@
        == image.image_url@
    &&& opt_string_view(image.upstream_source_url) == match optional_string_spec(
        detail,
        booru.detail_source_url_path@,
    ) {
        Some(s) => upstream_source_spec(s),
        None => match optional_string_spec(post, booru.source_url_path@) {
            Some(s) => upstream_source_spec(s),
            None => None,
        },
    }
    &&& opt_string_view(image.post_url) == match post_url_from_id_spec(booru, rv, id) {
        Some(u) => Some(u),
        None => post_url_spec(booru, rv, post),
    }
}

/// Reads the detail answer of a post: refuses a blacklisted one, then reads
/// the image (see `detail_image_ok`).
pub fn image_from_detail(
    booru: &BooruConfig,
    runtime_values: &RuntimeValues,
    post: &Json,
    id: &str,
    detail_json: &Json,
    blacklisted_tags: &[String],
) -> (r: Result<ImageResult, String>)
    ensures
        match r {
            Ok(image) => blacklist_hit(blacklisted_tags@, *detail_json) is None && detail_image_ok(
                *booru,
                *runtime_values,
                *post,
                id@,
                *detail_json,
                image,
            ),
            Err(e) => match blacklist_hit(blacklisted_tags@, *detail_json) {
                Some(t) => e@ == "post matched blacklisted tag: "@ + t,
                None => !(read_path_spec(*detail_json, booru.detail_file_url_path@) matches Some(
                    Json::String(_),
                )) && e@ == about("failed to read detail file URL for "@, booru.name@),
            },
        },
{
    match reject_blacklisted_post(detail_json, blacklisted_tags) {
        Ok(()) => {},
        Err(e) => return Err(e),
    }
    let image_url = match read_string_path(detail_json, booru.detail_file_url_path.as_slice()) {
        Some(u) => String::from_str(u),
        None => return Err(message("failed to read detail file URL for ", booru.name.as_str())),
    };
    let source = match read_optional_string_path(
        detail_json,
        booru.detail_source_url_path.as_slice(),
    ) {
        Some(s) => Some(s),
        None => read_optional_string_path(post, booru.source_url_path.as_slice()),
    };
    let upstream_source_url = match source {
        Some(s) => extract_upstream_source_url(s),
        None => None,
    };
    let link = match post_url_from_id(booru, runtime_values, id) {
        Some(u) => Some(u),
        None => post_url(booru, runtime_values, post),
    };
    Ok(ImageResult { image_url, post_url: link, upstream_source_url })
}

} // verus!
