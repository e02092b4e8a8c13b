//! Reading posts out of booru API answers.
use vstd::prelude::*;
use crate::booru::post_url_from_id_spec;
use crate::booru::post_url_from_id;
use crate::config::{BooruConfig, JsonPathSegment, RuntimeValues};
use crate::json::{Json, JsonNumber};
use crate::num::{dec, dec_int, i64_to_string, parse_u64, parse_u64_spec, u64_to_string, usize_to_string};
use crate::outside::{parse_url, url_parse};
use crate::text::{
    before_first, find_sep, find_text, find_sub, chars_of, extend_str, subvec, lemma_lex_irrefl, lemma_lex_total, lemma_lex_trans, lex_less, lex_lt,
    lower_seq, lower_vec, split_seq, split_vec, str_eq, string_of, string_views, trim_seq,
    trim_vec, views, Sep,
};

verus! {

// ---------------------------------------------------------------------------
// Paths into JSON documents
// ---------------------------------------------------------------------------

/// The position of the first member with this key.
pub open spec fn member_index(m: Seq<(String, Json)>, key: Seq<char>) -> Option<int>
    decreases m.len(),
{
    if m.len() == 0 {
        None
    } else if m[0].0@ == key {
        Some(0)
    } else {
        match member_index(m.drop_first(), key) {
            Some(k) => Some(k + 1),
            None => None,
        }
    }
}

proof fn lemma_member_index_is(m: Seq<(String, Json)>, key: Seq<char>, k: Option<int>)
    requires
        match k {
            Some(k) => 0 <= k < m.len() && m[k].0@ == key && forall|j: int|
                0 <= j < k ==> #[trigger] m[j].0@ != key,
            None => forall|j: int| 0 <= j < m.len() ==> #[trigger] m[j].0@ != key,
        },
    ensures
        member_index(m, key) == k,
    decreases m.len(),
{
    if m.len() > 0 {
        let t = m.drop_first();
        if m[0].0@ == key {
            if let Some(kk) = k {
                if kk > 0 {
                    assert(m[0].0@ != key);
                }
            } else {
                assert(m[0].0@ != key);
            }
        } else {
            match k {
                Some(kk) => {
                    assert(kk != 0);
                    assert forall|j: int| 0 <= j < kk - 1 implies #[trigger] t[j].0@ != key by {
                        assert(t[j] == m[j + 1]);
                    }
                    assert(t[kk - 1] == m[kk]);
                    lemma_member_index_is(t, key, Some(kk - 1));
                },
                None => {
                    assert forall|j: int| 0 <= j < t.len() implies #[trigger] t[j].0@ != key by {
                        assert(t[j] == m[j + 1]);
                    }
                    lemma_member_index_is(t, key, None);
                },
            }
        }
    }
}

/// `str::parse::<usize>`.
pub open spec fn parse_usize_spec(s: Seq<char>) -> Option<usize> {
    match parse_u64_spec(s) {
        Some(n) => if n <= usize::MAX {
            Some(n as usize)
        } else {
            None
        },
        None => None,
    }
}

/// One path step: an object member by key (an index names the member by its
/// decimal text), or an array element by position (a key must parse as one).
pub open spec fn path_step(v: Json, seg: JsonPathSegment) -> Option<Json> {
    match v {
        Json::Object(m) => {
            let key = match seg {
                JsonPathSegment::Key(k) => k@,
                JsonPathSegment::Index(i) => dec(i as nat),
            };
            match member_index(m@, key) {
                Some(i) => Some(m@[i].1),
                None => None,
            }
        },
        Json::Array(a) => {
            let idx = match seg {
                JsonPathSegment::Key(k) => parse_usize_spec(k@),
                JsonPathSegment::Index(i) => Some(i),
            };
            match idx {
                Some(i) => if i < a@.len() {
                    Some(a@[i as int])
                } else {
                    None
                },
                None => None,
            }
        },
        _ => None,
    }
}

/// The value at the end of a path, if every step exists.
pub open spec fn read_path_spec(v: Json, path: Seq<JsonPathSegment>) -> Option<Json>
    decreases path.len(),
{
    if path.len() == 0 {
        Some(v)
    } else {
        match path_step(v, path[0]) {
            Some(n) => read_path_spec(n, path.drop_first()),
            None => None,
        }
    }
}

fn member<'a>(m: &'a Vec<(String, Json)>, key: &str) -> (r: Option<&'a Json>)
    ensures
        match r {
            Some(x) => member_index(m@, key@) matches Some(i) && m@[i].1 == *x,
            None => member_index(m@, key@) is None,
        },
{
    let mut i: usize = 0;
    while i < m.len()
        invariant
            i <= m@.len(),
            forall|j: int| 0 <= j < i ==> #[trigger] m@[j].0@ != key@,
        decreases m@.len() - i,
    {
        if str_eq(m[i].0.as_str(), key) {
            proof {
                lemma_member_index_is(m@, key@, Some(i as int));
            }
            return Some(&m[i].1);
        }
        i = i + 1;
    }
    proof {
        assert(forall|j: int| 0 <= j < m@.len() ==> #[trigger] m@[j].0@ != key@);
        lemma_member_index_is(m@, key@, None);
    }
    None
}

pub fn parse_usize(s: &str) -> (r: Option<usize>)
    ensures
        r == parse_usize_spec(s@),
{
    match parse_u64(s) {
        Some(n) => if n <= usize::MAX as u64 {
            Some(n as usize)
        } else {
            None
        },
        None => None,
    }
}

fn step<'a>(v: &'a Json, seg: &JsonPathSegment) -> (r: Option<&'a Json>)
    ensures
        match r {
            Some(x) => path_step(*v, *seg) == Some(*x),
            None => path_step(*v, *seg) is None,
        },
{
    match v {
        Json::Object(m) => match seg {
            JsonPathSegment::Key(k) => member(m, k.as_str()),
            JsonPathSegment::Index(i) => {
                let key = usize_to_string(*i);
                member(m, key.as_str())
            },
        },
        Json::Array(a) => {
            let idx = match seg {
                JsonPathSegment::Key(k) => parse_usize(k.as_str()),
                JsonPathSegment::Index(i) => Some(*i),
            };
            match idx {
                Some(i) => if i < a.len() {
                    Some(&a[i])
                } else {
                    None
                },
                None => None,
            }
        },
        _ => None,
    }
}

/// Follows a path into a JSON value.
pub fn read_path<'a>(value: &'a Json, path: &[JsonPathSegment]) -> (r: Option<&'a Json>)
    ensures
        match r {
            Some(x) => read_path_spec(*value, path@) == Some(*x),
            None => read_path_spec(*value, path@) is None,
        },
{
    let mut current: &Json = value;
    let mut i: usize = 0;
    assert(path@.skip(0) =~= path@);
    while i < path.len()
        invariant
            i <= path@.len(),
            read_path_spec(*current, path@.skip(i as int)) == read_path_spec(*value, path@),
        decreases path@.len() - i,
    {
        let ghost rest = path@.skip(i as int);
        assert(rest.drop_first() =~= path@.skip(i + 1));
        assert(rest[0] == path@[i as int]);
        match step(current, &path[i]) {
            Some(next) => {
                current = next;
            },
            None => {
                return None;
            },
        }
        i = i + 1;
    }
    assert(path@.skip(path@.len() as int) =~= Seq::<JsonPathSegment>::empty());
    Some(current)
}

/// The text of a JSON number.
pub open spec fn number_text(n: JsonNumber) -> Seq<char> {
    match n {
        JsonNumber::PosInt(u) => dec(u as nat),
        JsonNumber::NegInt(i) => dec_int(i as int),
        JsonNumber::Float(s) => s@,
    }
}

/// A number or a string as template text; other values have none.
pub open spec fn template_text(v: Json) -> Option<Seq<char>> {
    match v {
        Json::Number(n) => Some(number_text(n)),
        Json::String(s) => Some(s@),
        _ => None,
    }
}

/// A number or string value as text, for an ID placeholder.
pub fn value_to_template_string(value: &Json) -> (r: Option<String>)
    ensures
        match r {
            Some(s) => template_text(*value) == Some(s@),
            None => template_text(*value) is None,
        },
{
    match value {
        Json::Number(n) => match n {
            JsonNumber::PosInt(u) => Some(u64_to_string(*u)),
            JsonNumber::NegInt(i) => Some(i64_to_string(*i)),
            JsonNumber::Float(s) => Some(s.clone()),
        },
        Json::String(s) => Some(s.clone()),
        _ => None,
    }
}

/// A count read from an answer: with no path, the length of the top-level
/// array; else the number (an unsigned integer), the number written in a
/// string, or the length of the array at the path.
pub open spec fn read_u64_spec(v: Json, path: Seq<JsonPathSegment>) -> Option<u64> {
    if path.len() == 0 {
        match v {
            Json::Array(a) => Some(a@.len() as u64),
            _ => None,
        }
    } else {
        match read_path_spec(v, path) {
            Some(Json::Number(JsonNumber::PosInt(u))) => Some(u),
            Some(Json::Number(_)) => None,
            Some(Json::String(s)) => parse_u64_spec(s@),
            Some(Json::Array(a)) => Some(a@.len() as u64),
            _ => None,
        }
    }
}

/// Reads a count (see `read_u64_spec`).
pub fn read_u64_path(value: &Json, path: &[JsonPathSegment]) -> (r: Option<u64>)
    ensures
        r == read_u64_spec(*value, path@),
{
    if path.len() == 0 {
        return match value {
            Json::Array(a) => Some(a.len() as u64),
            _ => None,
        };
    }
    match read_path(value, path) {
        Some(v) => match v {
            Json::Number(n) => match n {
                JsonNumber::PosInt(u) => Some(*u),
                _ => None,
            },
            Json::String(s) => parse_u64(s.as_str()),
            Json::Array(a) => Some(a.len() as u64),
            _ => None,
        },
        None => None,
    }
}

/// The array at the end of a path.
pub fn read_array_path<'a>(value: &'a Json, path: &[JsonPathSegment]) -> (r: Option<&'a Vec<Json>>)
    ensures
        match r {
            Some(a) => read_path_spec(*value, path@) == Some(Json::Array(*a)),
            None => !(read_path_spec(*value, path@) matches Some(Json::Array(_))),
        },
{
    match read_path(value, path) {
        Some(v) => match v {
            Json::Array(a) => Some(a),
            _ => None,
        },
        None => None,
    }
}

/// The string at the end of a path.
pub fn read_string_path<'a>(value: &'a Json, path: &[JsonPathSegment]) -> (r: Option<&'a str>)
    ensures
        match r {
            Some(s) => read_path_spec(*value, path@) matches Some(Json::String(t)) && t@ == s@,
            None => !(read_path_spec(*value, path@) matches Some(Json::String(_))),
        },
{
    match read_path(value, path) {
        Some(v) => match v {
            Json::String(s) => Some(s.as_str()),
            _ => None,
        },
        None => None,
    }
}

/// An optional string field: none for an empty path, a missing value, or
/// blank text.
pub open spec fn optional_string_spec(v: Json, path: Seq<JsonPathSegment>) -> Option<Seq<char>> {
    if path.len() == 0 {
        None
    } else {
        match read_path_spec(v, path) {
            Some(Json::String(t)) => if trim_seq(t@).len() > 0 {
                Some(t@)
            } else {
                None
            },
            _ => None,
        }
    }
}

/// Reads an optional string field (see `optional_string_spec`).
pub fn read_optional_string_path<'a>(value: &'a Json, path: &[JsonPathSegment]) -> (r: Option<&'a str>)
    ensures
        match r {
            Some(s) => optional_string_spec(*value, path@) == Some(s@),
            None => optional_string_spec(*value, path@) is None,
        },
{
    if path.len() == 0 {
        return None;
    }
    match read_string_path(value, path) {
        Some(s) => {
            let v = chars_of(s);
            let t = trim_vec(&v);
            if t.len() > 0 {
                Some(s)
            } else {
                None
            }
        },
        None => None,
    }
}

/// The post link of a listed post: its ID read by the detail ID path, put in
/// the booru's post URL template.
pub open spec fn post_url_spec(booru: BooruConfig, rv: RuntimeValues, post: Json) -> Option<Seq<char>> {
    match read_path_spec(post, booru.detail_id_path@) {
        Some(v) => match template_text(v) {
            Some(id) => post_url_from_id_spec(booru, rv, id),
            None => None,
        },
        None => None,
    }
}

/// The post link of a listed post (see `post_url_spec`).
pub fn post_url(booru: &BooruConfig, runtime_values: &RuntimeValues, post: &Json) -> (r: Option<String>)
    ensures
        match r {
            Some(s) => post_url_spec(*booru, *runtime_values, *post) == Some(s@),
            None => post_url_spec(*booru, *runtime_values, *post) is None,
        },
{
    let v = match read_path(post, booru.detail_id_path.as_slice()) {
        Some(v) => v,
        None => return None,
    };
    let id = match value_to_template_string(v) {
        Some(id) => id,
        None => return None,
    };
    post_url_from_id(booru, runtime_values, id.as_str())
}

// ---------------------------------------------------------------------------
// Post tags
// ---------------------------------------------------------------------------

/// Pieces trimmed, blank ones dropped, the rest ASCII-lowercased.
pub open spec fn tag_tokens(ps: Seq<Seq<char>>) -> Seq<Seq<char>>
    decreases ps.len(),
{
    if ps.len() == 0 {
        ps
    } else {
        let r = tag_tokens(ps.drop_last());
        let t = trim_seq(ps.last());
        if t.len() > 0 {
            r.push(lower_seq(t))
        } else {
            r
        }
    }
}

/// The tags in a tag string: split at white space and commas, lowercased.
pub open spec fn split_tags_spec(s: Seq<char>) -> Seq<Seq<char>> {
    tag_tokens(split_seq(s, Sep::WsOrComma))
}

/// Splits a tag string at white space and commas; tags come out lowercased.
pub fn split_tag_string(value: &str) -> (r: Vec<String>)
    ensures
        string_views(r@) == split_tags_spec(value@),
{
    let v = chars_of(value);
    let pieces = split_vec(&v, Sep::WsOrComma);
    let mut out: Vec<String> = Vec::new();
    let mut i: usize = 0;
    while i < pieces.len()
        invariant
            i <= pieces@.len(),
            views(pieces@) == split_seq(v@, Sep::WsOrComma),
            string_views(out@) == tag_tokens(views(pieces@).take(i as int)),
        decreases pieces@.len() - i,
    {
        let ghost pre = views(pieces@).take(i as int);
        assert(views(pieces@).take(i + 1).drop_last() =~= pre);
        assert(views(pieces@).take(i + 1).last() == pieces@[i as int]@);
        let t = trim_vec(&pieces[i]);
        if t.len() > 0 {
            let l = lower_vec(&t);
            let ghost before = out@;
            out.push(string_of(&l));
            assert(string_views(out@) =~= string_views(before).push(l@));
        }
        i = i + 1;
    }
    assert(views(pieces@).take(pieces@.len() as int) =~= views(pieces@));
    out
}

/// The tags found in a value: the tags of a string, of each element of an
/// array, and of an object's `name`, `tag` and `value` members.
pub open spec fn tags_of(v: Json) -> Seq<Seq<char>>
    decreases v,
{
    match v {
        Json::String(s) => split_tags_spec(s@),
        Json::Array(a) => tags_of_list(a@),
        Json::Object(m) => {
            let name = match member_index(m@, "name"@) {
                Some(i) => if 0 <= i < m@.len() {
                    tags_of(m@[i].1)
                } else {
                    Seq::<Seq<char>>::empty()
                },
                None => Seq::<Seq<char>>::empty(),
            };
            let tag = match member_index(m@, "tag"@) {
                Some(i) => if 0 <= i < m@.len() {
                    tags_of(m@[i].1)
                } else {
                    Seq::<Seq<char>>::empty()
                },
                None => Seq::<Seq<char>>::empty(),
            };
            let value = match member_index(m@, "value"@) {
                Some(i) => if 0 <= i < m@.len() {
                    tags_of(m@[i].1)
                } else {
                    Seq::<Seq<char>>::empty()
                },
                None => Seq::<Seq<char>>::empty(),
            };
            name + tag + value
        },
        _ => Seq::<Seq<char>>::empty(),
    }
}

/// The tags of a list of values, in order.
pub open spec fn tags_of_list(s: Seq<Json>) -> Seq<Seq<char>>
    decreases s,
{
    if s.len() == 0 {
        Seq::<Seq<char>>::empty()
    } else {
        tags_of_list(s.drop_last()) + tags_of(s.last())
    }
}

fn append_strings(tags: &mut Vec<String>, more: Vec<String>)
    ensures
        string_views(final(tags)@) == string_views(old(tags)@) + string_views(more@),
{
    let mut i: usize = 0;
    let ghost start = string_views(tags@);
    while i < more.len()
        invariant
            i <= more@.len(),
            string_views(tags@) == start + string_views(more@).take(i as int),
        decreases more@.len() - i,
    {
        let ghost before = tags@;
        tags.push(more[i].clone());
        assert(string_views(tags@) =~= string_views(before).push(more@[i as int]@));
        i = i + 1;
        assert(string_views(more@).take(i as int) =~= string_views(more@).take(i - 1 as int).push(
            more@[i - 1]@,
        ));
        assert(string_views(tags@) =~= start + string_views(more@).take(i as int));
    }
    assert(string_views(more@).take(more@.len() as int) =~= string_views(more@));
}

/// The tags of a member of an object value, if it has one with this key.
pub open spec fn member_tags(m: Seq<(String, Json)>, key: Seq<char>) -> Seq<Seq<char>> {
    match member_index(m, key) {
        Some(i) => if 0 <= i < m.len() {
            tags_of(m[i].1)
        } else {
            Seq::<Seq<char>>::empty()
        },
        None => Seq::<Seq<char>>::empty(),
    }
}

proof fn lemma_member_index_range(m: Seq<(String, Json)>, key: Seq<char>)
    ensures
        member_index(m, key) matches Some(i) ==> 0 <= i < m.len(),
    decreases m.len(),
{
    if m.len() > 0 && m[0].0@ != key {
        lemma_member_index_range(m.drop_first(), key);
    }
}

fn collect_member(m: &Vec<(String, Json)>, key: &str, tags: &mut Vec<String>, parent: &Json)
    requires
        *parent == Json::Object(*m),
    ensures
        string_views(final(tags)@) == string_views(old(tags)@) + member_tags(m@, key@),
    decreases *parent, 0nat,
{
    proof {
        lemma_member_index_range(m@, key@);
    }
    match member(m, key) {
        Some(x) => {
            proof {
                let i = member_index(m@, key@)->0;
                assert(decreases_to!(*parent => parent->Object_0));
                assert(decreases_to!(parent->Object_0 => parent->Object_0@));
                assert(decreases_to!(parent->Object_0@ => parent->Object_0@[i]));
                assert(decreases_to!(parent->Object_0@[i] => parent->Object_0@[i].1));
                assert(decreases_to!(*parent => m@[i].1));
            }
            collect_tags(x, tags);
        },
        None => {
            assert(string_views(tags@) =~= string_views(tags@) + Seq::<Seq<char>>::empty());
        },
    }
}

/// Appends the tags found in a value (see `tags_of`).
fn collect_tags(value: &Json, tags: &mut Vec<String>)
    ensures
        string_views(final(tags)@) == string_views(old(tags)@) + tags_of(*value),
    decreases *value, 1nat,
{
    match value {
        Json::String(s) => {
            let found = split_tag_string(s.as_str());
            append_strings(tags, found);
        },
        Json::Array(a) => {
            let ghost start = string_views(tags@);
            let mut i: usize = 0;
            assert(a@.take(0) =~= Seq::<Json>::empty());
            assert(start + tags_of_list(Seq::<Json>::empty()) =~= start);
            while i < a.len()
                invariant
                    i <= a@.len(),
                    *value == Json::Array(*a),
                    string_views(tags@) == start + tags_of_list(a@.take(i as int)),
                decreases a@.len() - i,
            {
                proof {
                    assert(decreases_to!(*value => value->Array_0));
                    assert(decreases_to!(value->Array_0 => value->Array_0@));
                    assert(decreases_to!(value->Array_0@ => value->Array_0@[i as int]));
                    assert(decreases_to!(*value => a@[i as int]));
                }
                collect_tags(&a[i], tags);
                assert(a@.take(i + 1).drop_last() =~= a@.take(i as int));
                i = i + 1;
                assert(string_views(tags@) =~= start + tags_of_list(a@.take(i as int)));
            }
            assert(a@.take(a@.len() as int) =~= a@);
        },
        Json::Object(m) => {
            let ghost start = string_views(tags@);
            collect_member(m, "name", tags, value);
            collect_member(m, "tag", tags, value);
            collect_member(m, "value", tags, value);
            assert(string_views(tags@) =~= start + tags_of(*value));
        },
        _ => {
            assert(string_views(tags@) =~= string_views(tags@) + Seq::<Seq<char>>::empty());
        },
    }
}

/// Appends the tags of a value, when there is one.
pub fn collect_tags_from_value(value: Option<&Json>, tags: &mut Vec<String>)
    ensures
        string_views(final(tags)@) == string_views(old(tags)@) + match value {
            Some(v) => tags_of(*v),
            None => Seq::<Seq<char>>::empty(),
        },
{
    match value {
        Some(v) => collect_tags(v, tags),
        None => {
            assert(string_views(tags@) =~= string_views(tags@) + Seq::<Seq<char>>::empty());
        },
    }
}

/// The keys of a post that hold tags.
pub open spec fn post_tag_keys() -> Seq<Seq<char>> {
    seq![
        "tag_string"@,
        "tag_string_general"@,
        "tag_string_character"@,
        "tag_string_copyright"@,
        "tag_string_artist"@,
        "tag_string_meta"@,
        "tag_string_species"@,
        "tags"@,
        "tag_names"@,
    ]
}

/// The tags under the first `k` tag keys of a post.
pub open spec fn post_tags_prefix(post: Json, k: nat) -> Seq<Seq<char>>
    decreases k,
{
    if k == 0 {
        Seq::<Seq<char>>::empty()
    } else {
        post_tags_prefix(post, (k - 1) as nat) + match post {
            Json::Object(m) => member_tags(m@, post_tag_keys()[k - 1]),
            _ => Seq::<Seq<char>>::empty(),
        }
    }
}

/// All tags of a post, under its tag keys, in key order.
pub open spec fn all_post_tags(post: Json) -> Seq<Seq<char>> {
    post_tags_prefix(post, 9)
}

/// Texts in strictly increasing order.
pub open spec fn strictly_sorted(s: Seq<Seq<char>>) -> bool {
    forall|i: int, j: int| 0 <= i < j < s.len() ==> lex_lt(#[trigger] s[i], #[trigger] s[j])
}

pub proof fn lemma_sorted_insert(s: Seq<Seq<char>>, p: int, x: Seq<char>)
    requires
        strictly_sorted(s),
        0 <= p <= s.len(),
        forall|k: int| 0 <= k < p ==> lex_lt(#[trigger] s[k], x),
        forall|k: int| p <= k < s.len() ==> lex_lt(x, #[trigger] s[k]),
    ensures
        strictly_sorted(s.insert(p, x)),
{
    let u = s.insert(p, x);
    assert forall|i: int, j: int| 0 <= i < j < u.len() implies lex_lt(#[trigger] u[i], #[trigger] u[j]) by {
        if j < p {
            assert(u[i] == s[i] && u[j] == s[j]);
        } else if j == p {
            assert(u[i] == s[i]);
        } else if i < p {
            assert(u[i] == s[i] && u[j] == s[j - 1]);
            lemma_lex_trans(s[i], x, s[j - 1]);
        } else if i == p {
            assert(u[j] == s[j - 1]);
        } else {
            assert(u[i] == s[i - 1] && u[j] == s[j - 1]);
        }
    }
}

/// Adds a text to a strictly sorted list, unless it is there already.
fn insert_sorted(list: &mut Vec<String>, x: String)
    requires
        strictly_sorted(string_views(old(list)@)),
    ensures
        strictly_sorted(string_views(final(list)@)),
        string_views(final(list)@).to_set() == string_views(old(list)@).to_set().insert(x@),
{
    let xv = chars_of(x.as_str());
    let mut p: usize = 0;
    let ghost s = string_views(list@);
    while p < list.len() && lex_less(&chars_of(list[p].as_str()), &xv)
        invariant
            p <= list@.len(),
            s == string_views(list@),
            xv@ == x@,
            forall|k: int| 0 <= k < p ==> lex_lt(#[trigger] s[k], x@),
        decreases list@.len() - p,
    {
        assert(s[p as int] == list@[p as int]@);
        p = p + 1;
    }
    if p < list.len() && str_eq(list[p].as_str(), x.as_str()) {
        assert(s[p as int] == list@[p as int]@);
        assert(s[p as int] == x@);
        assert(s.contains(x@));
        assert(s.to_set() =~= s.to_set().insert(x@));
        return;
    }
    proof {
        if p < s.len() {
            assert(s[p as int] == list@[p as int]@);
            assert(!lex_lt(s[p as int], x@));
            assert(s[p as int] != x@);
            lemma_lex_total(s[p as int], x@);
            assert forall|k: int| p <= k < s.len() implies lex_lt(x@, #[trigger] s[k]) by {
                if k > p {
                    lemma_lex_trans(x@, s[p as int], s[k]);
                }
            }
        }
        lemma_sorted_insert(s, p as int, x@);
    }
    let ghost xs = x@;
    list.insert(p, x);
    assert(string_views(list@) =~= s.insert(p as int, xs));
    assert forall|y: Seq<char>| string_views(list@).contains(y) <==> (s.contains(y) || y == xs) by {
        let u = s.insert(p as int, xs);
        if u.contains(y) {
            let k = choose|k: int| 0 <= k < u.len() && u[k] == y;
            if k < p {
                assert(s[k] == y);
            } else if k > p {
                assert(s[k - 1] == y);
            }
        }
        if s.contains(y) {
            let k = choose|k: int| 0 <= k < s.len() && s[k] == y;
            if k < p {
                assert(u[k] == y);
            } else {
                assert(u[k + 1] == y);
            }
        }
        if y == xs {
            assert(u[p as int] == y);
        }
    }
    let ghost u = string_views(list@);
    assert forall|y: Seq<char>| u.to_set().contains(y) <==> s.to_set().insert(xs).contains(y) by {
        assert(u.to_set().contains(y) <==> u.contains(y));
        assert(s.to_set().insert(xs).contains(y) <==> (s.contains(y) || y == xs));
    }
    assert(u.to_set() =~= s.to_set().insert(xs));
}

/// The distinct tags of a post, in increasing order: those under the keys
/// `tag_string`, `tag_string_general`, `tag_string_character`,
/// `tag_string_copyright`, `tag_string_artist`, `tag_string_meta`,
/// `tag_string_species`, `tags` and `tag_names`.
pub fn extract_post_tags(post: &Json) -> (r: Vec<String>)
    ensures
        strictly_sorted(string_views(r@)),
        forall|y: Seq<char>| string_views(r@).contains(y) <==> all_post_tags(*post).contains(y),
{
    let mut tags: Vec<String> = Vec::new();
    let keys: [&str; 9] = [
        "tag_string",
        "tag_string_general",
        "tag_string_character",
        "tag_string_copyright",
        "tag_string_artist",
        "tag_string_meta",
        "tag_string_species",
        "tags",
        "tag_names",
    ];
    let mut k: usize = 0;
    assert(string_views(tags@) =~= Seq::<Seq<char>>::empty());
    while k < 9
        invariant
            k <= 9,
            keys@ == seq![
                "tag_string",
                "tag_string_general",
                "tag_string_character",
                "tag_string_copyright",
                "tag_string_artist",
                "tag_string_meta",
                "tag_string_species",
                "tags",
                "tag_names",
            ],
            string_views(tags@) == post_tags_prefix(*post, k as nat),
        decreases 9 - k,
    {
        let key = keys[k];
        assert(key@ == post_tag_keys()[k as int]);
        match post {
            Json::Object(m) => {
                collect_member(m, key, &mut tags, post);
            },
            _ => {
                assert(string_views(tags@) =~= string_views(tags@) + Seq::<Seq<char>>::empty());
            },
        }
        k = k + 1;
    }
    let mut sorted: Vec<String> = Vec::new();
    let ghost all = string_views(tags@);
    let mut i: usize = 0;
    while i < tags.len()
        invariant
            i <= tags@.len(),
            all == string_views(tags@),
            strictly_sorted(string_views(sorted@)),
            forall|y: Seq<char>| string_views(sorted@).contains(y) <==> all.take(i as int).contains(y),
        decreases tags@.len() - i,
    {
        let ghost prev = string_views(sorted@);
        let item = tags[i].clone();
        assert(item@ == all[i as int]);
        insert_sorted(&mut sorted, item);
        proof {
            assert forall|y: Seq<char>| all.take(i + 1).contains(y) <==> (all.take(i as int).contains(y)
                || y == all[i as int]) by {
                if all.take(i + 1).contains(y) {
                    let j = choose|j: int| 0 <= j < i + 1 && #[trigger] all.take(i + 1)[j] == y;
                    if j < i {
                        assert(all.take(i as int)[j] == y);
                    }
                }
                if all.take(i as int).contains(y) {
                    let j = choose|j: int| 0 <= j < i && #[trigger] all.take(i as int)[j] == y;
                    assert(all.take(i + 1)[j] == y);
                }
                if y == all[i as int] {
                    assert(all.take(i + 1)[i as int] == y);
                }
            }
            assert forall|y: Seq<char>| string_views(sorted@).contains(y) <==> all.take(i + 1).contains(y) by {
                assert(string_views(sorted@).to_set().contains(y) <==> prev.to_set().insert(
                    all[i as int],
                ).contains(y));
                assert(prev.contains(y) <==> all.take(i as int).contains(y));
                assert(all.take(i + 1).contains(y) <==> (all.take(i as int).contains(y)
                    || y == all[i as int]));
            }
        }
        i = i + 1;
    }
    assert(all.take(tags@.len() as int) =~= all);
    sorted
}

// ---------------------------------------------------------------------------
// Blacklisted posts
// ---------------------------------------------------------------------------

/// The position of the first blacklisted tag that is among `tags`.
pub open spec fn first_listed(bl: Seq<String>, tags: Seq<Seq<char>>) -> Option<int>
    decreases bl.len(),
{
    if bl.len() == 0 {
        None
    } else if tags.contains(bl[0]@) {
        Some(0)
    } else {
        match first_listed(bl.drop_first(), tags) {
            Some(k) => Some(k + 1),
            None => None,
        }
    }
}

proof fn lemma_first_listed_is(bl: Seq<String>, tags: Seq<Seq<char>>, k: Option<int>)
    requires
        match k {
            Some(k) => 0 <= k < bl.len() && tags.contains(bl[k]@) && forall|j: int|
                0 <= j < k ==> !tags.contains(#[trigger] bl[j]@),
            None => forall|j: int| 0 <= j < bl.len() ==> !tags.contains(#[trigger] bl[j]@),
        },
    ensures
        first_listed(bl, tags) == k,
    decreases bl.len(),
{
    if bl.len() > 0 {
        let t = bl.drop_first();
        if tags.contains(bl[0]@) {
            if let Some(kk) = k {
                if kk > 0 {
                    assert(!tags.contains(bl[0]@));
                }
            } else {
                assert(!tags.contains(bl[0]@));
            }
        } else {
            match k {
                Some(kk) => {
                    assert(kk != 0);
                    assert forall|j: int| 0 <= j < kk - 1 implies !tags.contains(#[trigger] t[j]@) by {
                        assert(t[j] == bl[j + 1]);
                    }
                    assert(t[kk - 1] == bl[kk]);
                    lemma_first_listed_is(t, tags, Some(kk - 1));
                },
                None => {
                    assert forall|j: int| 0 <= j < t.len() implies !tags.contains(#[trigger] t[j]@) by {
                        assert(t[j] == bl[j + 1]);
                    }
                    lemma_first_listed_is(t, tags, None);
                },
            }
        }
    }
}

/// The blacklisted tag that rejects a post: the first one, in blacklist order,
/// that the post carries.
pub open spec fn blacklist_hit(bl: Seq<String>, post: Json) -> Option<Seq<char>> {
    match first_listed(bl, all_post_tags(post)) {
        Some(k) => Some(bl[k]@),
        None => None,
    }
}

proof fn lemma_first_listed_facts(bl: Seq<String>, tags: Seq<Seq<char>>)
    ensures
        match first_listed(bl, tags) {
            Some(k) => 0 <= k < bl.len() && tags.contains(bl[k]@) && forall|j: int|
                0 <= j < k ==> !tags.contains(#[trigger] bl[j]@),
            None => forall|j: int| 0 <= j < bl.len() ==> !tags.contains(#[trigger] bl[j]@),
        },
    decreases bl.len(),
{
    if bl.len() > 0 && !tags.contains(bl[0]@) {
        let t = bl.drop_first();
        lemma_first_listed_facts(t, tags);
        match first_listed(t, tags) {
            Some(k) => {
                assert(bl[k + 1] == t[k]);
                assert forall|j: int| 0 <= j < k + 1 implies !tags.contains(#[trigger] bl[j]@) by {
                    if j > 0 {
                        assert(bl[j] == t[j - 1]);
                    }
                }
            },
            None => {
                assert forall|j: int| 0 <= j < bl.len() implies !tags.contains(#[trigger] bl[j]@) by {
                    if j > 0 {
                        assert(bl[j] == t[j - 1]);
                    }
                }
            },
        }
    }
}

/// A post passes the blacklist exactly when it carries none of the
/// blacklisted tags, wherever they stand in the list; when it is refused,
/// the tag named is a blacklisted tag that the post carries, the first such
/// in the list.
pub proof fn law_blacklist_refuses_any_listed_tag(bl: Seq<String>, post: Json)
    ensures
        blacklist_hit(bl, post) is None <==> forall|i: int|
            0 <= i < bl.len() ==> !all_post_tags(post).contains(#[trigger] bl[i]@),
        blacklist_hit(bl, post) matches Some(t) ==> exists|i: int|
            0 <= i < bl.len() && #[trigger] bl[i]@ == t && all_post_tags(post).contains(t)
                && forall|j: int| 0 <= j < i ==> !all_post_tags(post).contains(#[trigger] bl[j]@),
{
    let tags = all_post_tags(post);
    lemma_first_listed_facts(bl, tags);
    match first_listed(bl, tags) {
        Some(k) => {
            assert(bl[k]@ == blacklist_hit(bl, post)->Some_0);
        },
        None => {},
    }
}

fn list_contains(list: &Vec<String>, x: &str) -> (r: bool)
    ensures
        r == string_views(list@).contains(x@),
{
    let mut i: usize = 0;
    while i < list.len()
        invariant
            i <= list@.len(),
            forall|j: int| 0 <= j < i ==> #[trigger] string_views(list@)[j] != x@,
        decreases list@.len() - i,
    {
        if str_eq(list[i].as_str(), x) {
            assert(string_views(list@)[i as int] == x@);
            return true;
        }
        i = i + 1;
    }
    false
}

/// Refuses a post that carries a blacklisted tag, naming the tag.
pub fn reject_blacklisted_post(post: &Json, blacklisted_tags: &[String]) -> (r: Result<(), String>)
    ensures
        match r {
            Ok(()) => blacklist_hit(blacklisted_tags@, *post) is None,
            Err(e) => blacklist_hit(blacklisted_tags@, *post) matches Some(t) && e@
                == "post matched blacklisted tag: "@ + t,
        },
{
    if blacklisted_tags.len() == 0 {
        proof {
            lemma_first_listed_is(blacklisted_tags@, all_post_tags(*post), None);
        }
        return Ok(());
    }
    let post_tags = extract_post_tags(post);
    let ghost all = all_post_tags(*post);
    let mut k: usize = 0;
    while k < blacklisted_tags.len()
        invariant
            k <= blacklisted_tags@.len(),
            forall|y: Seq<char>| string_views(post_tags@).contains(y) <==> all.contains(y),
            all == all_post_tags(*post),
            forall|j: int| 0 <= j < k ==> !all.contains(#[trigger] blacklisted_tags@[j]@),
        decreases blacklisted_tags@.len() - k,
    {
        if list_contains(&post_tags, blacklisted_tags[k].as_str()) {
            proof {
                lemma_first_listed_is(blacklisted_tags@, all, Some(k as int));
            }
            let mut v = chars_of("post matched blacklisted tag: ");
            extend_str(&mut v, blacklisted_tags[k].as_str());
            return Err(string_of(&v));
        }
        k = k + 1;
    }
    proof {
        lemma_first_listed_is(blacklisted_tags@, all, None);
    }
    Ok(())
}

// ---------------------------------------------------------------------------
// Source links
// ---------------------------------------------------------------------------

/// A text that parses as an `http` or `https` URL, in its normalized form.
pub open spec fn http_url(text: Seq<char>) -> Option<Seq<char>> {
    match url_parse(text) {
        Some(parts) => if parts.0 == "http"@ || parts.0 == "https"@ {
            Some(parts.2)
        } else {
            None
        },
        None => None,
    }
}

/// Trailing `.`, `,`, `;` and `:` removed.
pub open spec fn trim_end_punct(s: Seq<char>) -> Seq<char>
    decreases s.len(),
{
    if s.len() > 0 && (s.last() == '.' || s.last() == ',' || s.last() == ';' || s.last() == ':') {
        trim_end_punct(s.drop_last())
    } else {
        s
    }
}

/// The first link in a text: from the first `http://` (or, when there is
/// none, the first `https://`) up to white space or one of `<>"')]`, without
/// trailing punctuation, kept when it parses as an http(s) URL.
pub open spec fn first_http_url_spec(s: Seq<char>) -> Option<Seq<char>> {
    let start = match find_sub(s, "http://"@) {
        Some(i) => Some(i),
        None => find_sub(s, "https://"@),
    };
    match start {
        Some(i) => http_url(trim_end_punct(before_first(s.skip(i), Sep::UrlEnd))),
        None => None,
    }
}

/// The upstream source of a post: the trimmed field when it is an http(s)
/// URL, else the first such link inside it.
pub open spec fn upstream_source_spec(value: Seq<char>) -> Option<Seq<char>> {
    let t = trim_seq(value);
    match http_url(t) {
        Some(u) => Some(u),
        None => first_http_url_spec(t),
    }
}

fn http_url_of(text: &str) -> (r: Option<String>)
    ensures
        match r {
            Some(u) => http_url(text@) == Some(u@),
            None => http_url(text@) is None,
        },
{
    match parse_url(text) {
        Some(parts) => if str_eq(parts.scheme.as_str(), "http") || str_eq(
            parts.scheme.as_str(),
            "https",
        ) {
            Some(parts.serialization)
        } else {
            None
        },
        None => None,
    }
}

fn trim_end_punct_vec(v: &Vec<char>) -> (r: Vec<char>)
    ensures
        r@ == trim_end_punct(v@),
{
    let mut j: usize = v.len();
    assert(v@.subrange(0, j as int) =~= v@);
    while j > 0 && (v[j - 1] == '.' || v[j - 1] == ',' || v[j - 1] == ';' || v[j - 1] == ':')
        invariant
            j <= v.len(),
            trim_end_punct(v@.subrange(0, j as int)) == trim_end_punct(v@),
        decreases j,
    {
        assert(v@.subrange(0, j as int).drop_last() =~= v@.subrange(0, j - 1));
        j = j - 1;
    }
    subvec(v, 0, j)
}

/// The first http(s) link inside a text (see `first_http_url_spec`).
pub fn extract_first_http_url(value: &str) -> (r: Option<String>)
    ensures
        match r {
            Some(u) => first_http_url_spec(value@) == Some(u@),
            None => first_http_url_spec(value@) is None,
        },
{
    let v = chars_of(value);
    let http = chars_of("http://");
    let https = chars_of("https://");
    let start = match find_text(&v, &http) {
        Some(i) => i,
        None => match find_text(&v, &https) {
            Some(i) => i,
            None => return None,
        },
    };
    assert(start <= v@.len());
    let rest = subvec(&v, start, v.len());
    assert(rest@ =~= v@.skip(start as int));
    let candidate = match find_sep(&rest, Sep::UrlEnd) {
        Some(k) => subvec(&rest, 0, k),
        None => subvec(&rest, 0, rest.len()),
    };
    assert(candidate@ =~= before_first(rest@, Sep::UrlEnd));
    let trimmed = trim_end_punct_vec(&candidate);
    let text = string_of(&trimmed);
    http_url_of(text.as_str())
}

/// The upstream source link of a post's source field (see `upstream_source_spec`).
pub fn extract_upstream_source_url(value: &str) -> (r: Option<String>)
    ensures
        match r {
            Some(u) => upstream_source_spec(value@) == Some(u@),
            None => upstream_source_spec(value@) is None,
        },
{
    let v = chars_of(value);
    let t = trim_vec(&v);
    let trimmed = string_of(&t);
    match http_url_of(trimmed.as_str()) {
        Some(u) => Some(u),
        None => extract_first_http_url(trimmed.as_str()),
    }
}

} // verus!
