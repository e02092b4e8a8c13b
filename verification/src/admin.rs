//! The administration text commands: argument helpers, the routing of an
//! `administrate` action, and the booru rows that the commands edit.
use vstd::prelude::*;
use crate::num::{dec, dec_int, i64_to_string, parse_i64, parse_i64_spec, parse_u64, parse_u64_spec, u64_to_string, usize_to_string};
use crate::outside::opt_string_view;
use crate::posts::{parse_usize, parse_usize_spec};
use crate::text::{
    cat2, cat3, chars_of, contains_char, csv_spec, join_seq, join_strings, lower_seq, lower_vec,
    rest_after, rest_or_empty, split_once_seq, split_once_str, split_trimmed, str_eq, string_of,
    string_views, trim, trim_seq, Sep,
};

verus! {

// ---------------------------------------------------------------------------
// Argument helpers
// ---------------------------------------------------------------------------

/// The text before the first space (`s.splitn(2, ' ')` first part).
pub open spec fn head_word(s: Seq<char>) -> Seq<char> {
    split_once_seq(s, Sep::Char(' ')).0
}

/// The first word, trimmed and lower-cased: a sub-command name.
pub open spec fn command_word(s: Seq<char>) -> Seq<char> {
    lower_seq(trim_seq(head_word(s)))
}

/// `(command_word(s), head_word(s), rest after the first space or empty)`.
pub fn take_word(s: &str) -> (r: (String, String, String))
    ensures
        r.0@ == command_word(s@),
        r.1@ == head_word(s@),
        r.2@ == rest_after(s@, ' '),
{
    let (head, rest) = split_once_str(s, ' ');
    let t = trim(head.as_str());
    let tv = chars_of(t.as_str());
    let lv = lower_vec(&tv);
    (string_of(&lv), head, rest_or_empty(rest))
}

pub open spec fn id_view(r: Result<(i64, String), String>) -> Result<(i64, Seq<char>), Seq<char>> {
    match r {
        Ok((id, rest)) => Ok((id, rest@)),
        Err(e) => Err(e@),
    }
}

/// A leading numeric id and the rest of the text; without one, the default
/// id and the whole text; without a default, an error.
pub open spec fn try_parse_id_spec(s: Seq<char>, default: Option<i64>) -> Result<
    (i64, Seq<char>),
    Seq<char>,
> {
    if s.len() == 0 {
        match default {
            Some(d) => Ok((d, Seq::<char>::empty())),
            None => Err("no id provided"@),
        }
    } else {
        match parse_i64_spec(head_word(s)) {
            Some(id) => Ok((id, rest_after(s, ' '))),
            None => match default {
                Some(d) => Ok((d, s)),
                None => Err("expected a numeric id, got '"@ + head_word(s) + "'"@),
            },
        }
    }
}

pub fn try_parse_id(s: &str, default: Option<i64>) -> (r: Result<(i64, String), String>)
    ensures
        id_view(r) == try_parse_id_spec(s@, default),
{
    if s.is_empty() {
        return match default {
            Some(d) => Ok((d, String::new())),
            None => Err(String::from_str("no id provided")),
        };
    }
    let (_, head, rest) = take_word(s);
    match parse_i64(head.as_str()) {
        Some(id) => Ok((id, rest)),
        None => match default {
            Some(d) => Ok((d, String::from_str(s))),
            None => Err(cat3("expected a numeric id, got '", head.as_str(), "'")),
        },
    }
}

pub open spec fn pair_view(r: Result<(String, String), String>) -> Result<(Seq<char>, Seq<char>), Seq<char>> {
    match r {
        Ok((a, b)) => Ok((a@, b@)),
        Err(e) => Err(e@),
    }
}

/// Two trimmed, non-empty parts: the first word of the trimmed input and
/// the rest; the usage text otherwise.
pub open spec fn split_required_spec(input: Seq<char>, usage: Seq<char>) -> Result<
    (Seq<char>, Seq<char>),
    Seq<char>,
> {
    let t = trim_seq(input);
    match split_once_seq(t, Sep::Char(' ')) {
        (a, Some(b)) => if trim_seq(a).len() == 0 || trim_seq(b).len() == 0 {
            Err(usage)
        } else {
            Ok((trim_seq(a), trim_seq(b)))
        },
        (_, None) => Err(usage),
    }
}

pub fn split_required(input: &str, usage: &str) -> (r: Result<(String, String), String>)
    ensures
        pair_view(r) == split_required_spec(input@, usage@),
{
    let t = trim(input);
    let (a, b) = split_once_str(t.as_str(), ' ');
    match b {
        Some(b) => {
            let ta = trim(a.as_str());
            let tb = trim(b.as_str());
            if ta.as_str().is_empty() || tb.as_str().is_empty() {
                Err(String::from_str(usage))
            } else {
                Ok((ta, tb))
            }
        },
        None => Err(String::from_str(usage)),
    }
}

pub open spec fn text_view(r: Result<String, String>) -> Result<Seq<char>, Seq<char>> {
    match r {
        Ok(a) => Ok(a@),
        Err(e) => Err(e@),
    }
}

/// One trimmed word without inner spaces; the usage text otherwise.
pub open spec fn single_arg_spec(input: Seq<char>, usage: Seq<char>) -> Result<Seq<char>, Seq<char>> {
    let v = trim_seq(input);
    if v.len() == 0 || v.contains(' ') {
        Err(usage)
    } else {
        Ok(v)
    }
}

pub fn single_arg(input: &str, usage: &str) -> (r: Result<String, String>)
    ensures
        text_view(r) == single_arg_spec(input@, usage@),
{
    let v = trim(input);
    if v.as_str().is_empty() || contains_char(v.as_str(), ' ') {
        Err(String::from_str(usage))
    } else {
        Ok(v)
    }
}

/// The trimmed, non-empty items of a comma-separated list.
pub fn parse_csv(input: &str) -> (r: Vec<String>)
    ensures
        string_views(r@) == csv_spec(input@, ','),
{
    split_trimmed(input, ',')
}

/// The accepted spellings of a boolean, compared after trimming and ASCII lower-casing.
pub open spec fn parse_bool_spec(value: Seq<char>) -> Result<bool, Seq<char>> {
    let w = lower_seq(trim_seq(value));
    if w == "true"@ || w == "1"@ || w == "yes"@ || w == "on"@ {
        Ok(true)
    } else if w == "false"@ || w == "0"@ || w == "no"@ || w == "off"@ {
        Ok(false)
    } else {
        Err("expected boolean value"@)
    }
}

pub open spec fn bool_view(r: Result<bool, String>) -> Result<bool, Seq<char>> {
    match r {
        Ok(b) => Ok(b),
        Err(e) => Err(e@),
    }
}

pub fn parse_bool(value: &str) -> (r: Result<bool, String>)
    ensures
        bool_view(r) == parse_bool_spec(value@),
{
    let t = trim(value);
    let tv = chars_of(t.as_str());
    let lv = lower_vec(&tv);
    let w = string_of(&lv);
    let ws = w.as_str();
    if str_eq(ws, "true") || str_eq(ws, "1") || str_eq(ws, "yes") || str_eq(ws, "on") {
        Ok(true)
    } else if str_eq(ws, "false") || str_eq(ws, "0") || str_eq(ws, "no") || str_eq(ws, "off") {
        Ok(false)
    } else {
        Err(String::from_str("expected boolean value"))
    }
}

/// The value itself; an error naming the field when it is empty.
pub open spec fn non_empty_spec(value: Seq<char>, field: Seq<char>) -> Result<Seq<char>, Seq<char>> {
    if value.len() == 0 {
        Err(field + " cannot be empty"@)
    } else {
        Ok(value)
    }
}

pub fn non_empty(value: &str, field: &str) -> (r: Result<String, String>)
    ensures
        text_view(r) == non_empty_spec(value@, field@),
{
    if value.is_empty() {
        Err(cat2(field, " cannot be empty"))
    } else {
        Ok(String::from_str(value))
    }
}

/// `None` for an empty value or `null` in any ASCII case, else the value.
pub open spec fn optional_string_spec(value: Seq<char>) -> Option<Seq<char>> {
    if lower_seq(value) == "null"@ || value.len() == 0 {
        None
    } else {
        Some(value)
    }
}

pub fn optional_string(value: &str) -> (r: Option<String>)
    ensures
        opt_string_view(r) == optional_string_spec(value@),
{
    let v = chars_of(value);
    let lv = lower_vec(&v);
    let l = string_of(&lv);
    if str_eq(l.as_str(), "null") || value.is_empty() {
        None
    } else {
        Some(String::from_str(value))
    }
}

/// What `serde_json` makes of a text read as a JSON value and written back
/// compactly (`None` when the text is not JSON).
pub uninterp spec fn json_normalized(text: Seq<char>) -> Option<Seq<char>>;

/// `serde_json::from_str::<serde_json::Value>` followed by
/// `serde_json::to_string`: the compact form of a JSON text, `None` when the
/// text does not parse. The contract names the result without restating JSON.
#[verifier::external_body]
fn json_compact(text: &str) -> (r: Option<String>)
    ensures
        opt_string_view(r) == json_normalized(text@),
{
    match serde_json::from_str::<serde_json::Value>(text) {
        Ok(v) => serde_json::to_string(&v).ok(),
        Err(_) => None,
    }
}

pub open spec fn normalized_json_spec(value: Seq<char>) -> Result<Seq<char>, Seq<char>> {
    match json_normalized(value) {
        Some(t) => Ok(t),
        None => Err("expected valid json"@),
    }
}

/// The compact form of a JSON text; an error when it is not JSON.
pub fn normalized_json(value: &str) -> (r: Result<String, String>)
    ensures
        text_view(r) == normalized_json_spec(value@),
{
    match json_compact(value) {
        Some(t) => Ok(t),
        None => Err(String::from_str("expected valid json")),
    }
}


// ---------------------------------------------------------------------------
// Booru rows
// ---------------------------------------------------------------------------

/// A booru as stored: configuration columns, JSON paths and maps kept as JSON text.
pub struct BooruRow {
    pub id: i64,
    pub name: String,
    pub enabled: bool,
    pub embed_image: bool,
    pub max_tags: usize,
    pub supports_character: bool,
    pub page_size: u64,
    pub page_base: u64,
    pub tag_separator: String,
    pub encode_tag_separator: bool,
    pub tag_spaces_as_plus: bool,
    pub character_space_replacement: String,
    pub description: String,
    pub count_url: Option<String>,
    pub count_path_json: String,
    pub posts_url: String,
    pub posts_path_json: String,
    pub file_url_path_json: String,
    pub source_url_path_json: String,
    pub detail_url: Option<String>,
    pub detail_id_path_json: String,
    pub detail_file_url_path_json: String,
    pub detail_source_url_path_json: String,
    pub post_url: Option<String>,
    pub headers_json: String,
    pub env_params_json: String,
}

/// A booru row with its texts as character sequences.
pub struct RowView {
    pub id: i64,
    pub name: Seq<char>,
    pub enabled: bool,
    pub embed_image: bool,
    pub max_tags: usize,
    pub supports_character: bool,
    pub page_size: u64,
    pub page_base: u64,
    pub tag_separator: Seq<char>,
    pub encode_tag_separator: bool,
    pub tag_spaces_as_plus: bool,
    pub character_space_replacement: Seq<char>,
    pub description: Seq<char>,
    pub count_url: Option<Seq<char>>,
    pub count_path_json: Seq<char>,
    pub posts_url: Seq<char>,
    pub posts_path_json: Seq<char>,
    pub file_url_path_json: Seq<char>,
    pub source_url_path_json: Seq<char>,
    pub detail_url: Option<Seq<char>>,
    pub detail_id_path_json: Seq<char>,
    pub detail_file_url_path_json: Seq<char>,
    pub detail_source_url_path_json: Seq<char>,
    pub post_url: Option<Seq<char>>,
    pub headers_json: Seq<char>,
    pub env_params_json: Seq<char>,
}

impl View for BooruRow {
    type V = RowView;

    open spec fn view(&self) -> RowView {
        RowView {
            id: self.id,
            name: self.name@,
            enabled: self.enabled,
            embed_image: self.embed_image,
            max_tags: self.max_tags,
            supports_character: self.supports_character,
            page_size: self.page_size,
            page_base: self.page_base,
            tag_separator: self.tag_separator@,
            encode_tag_separator: self.encode_tag_separator,
            tag_spaces_as_plus: self.tag_spaces_as_plus,
            character_space_replacement: self.character_space_replacement@,
            description: self.description@,
            count_url: opt_string_view(self.count_url),
            count_path_json: self.count_path_json@,
            posts_url: self.posts_url@,
            posts_path_json: self.posts_path_json@,
            file_url_path_json: self.file_url_path_json@,
            source_url_path_json: self.source_url_path_json@,
            detail_url: opt_string_view(self.detail_url),
            detail_id_path_json: self.detail_id_path_json@,
            detail_file_url_path_json: self.detail_file_url_path_json@,
            detail_source_url_path_json: self.detail_source_url_path_json@,
            post_url: opt_string_view(self.post_url),
            headers_json: self.headers_json@,
            env_params_json: self.env_params_json@,
        }
    }
}

/// The checks of a row's own columns: a name, a page size and a space
/// replacement, in that order.
pub open spec fn row_checks_spec(b: RowView) -> Result<(), Seq<char>> {
    if trim_seq(b.name).len() == 0 {
        Err("booru names cannot be empty"@)
    } else if b.page_size == 0 {
        Err("page_size must be greater than zero"@)
    } else if b.character_space_replacement.len() == 0 {
        Err("character_space_replacement cannot be empty"@)
    } else {
        Ok(())
    }
}

/// The checks a row must pass before it is stored: its own columns (see
/// `row_checks_spec`), then its JSON columns must read as a booru
/// configuration; `config` is the outcome of reading them.
pub open spec fn validate_spec(b: RowView, config: Result<(), Seq<char>>) -> Result<(), Seq<char>> {
    match row_checks_spec(b) {
        Err(e) => Err(e),
        Ok(()) => config,
    }
}

pub open spec fn unit_view(r: Result<(), String>) -> Result<(), Seq<char>> {
    match r {
        Ok(()) => Ok(()),
        Err(e) => Err(e@),
    }
}

fn row_checks(booru: &BooruRow) -> (r: Result<(), String>)
    ensures
        unit_view(r) == row_checks_spec(booru@),
{
    let name = trim(booru.name.as_str());
    if name.as_str().is_empty() {
        Err(String::from_str("booru names cannot be empty"))
    } else if booru.page_size == 0 {
        Err(String::from_str("page_size must be greater than zero"))
    } else if booru.character_space_replacement.as_str().is_empty() {
        Err(String::from_str("character_space_replacement cannot be empty"))
    } else {
        Ok(())
    }
}

/// Refuses a blank name, a zero page size and an empty space replacement,
/// then a row whose JSON columns do not read as a booru configuration
/// (`config`: the outcome of reading them, done by the caller).
pub fn validate(booru: &BooruRow, config: Result<(), String>) -> (r: Result<(), String>)
    ensures
        unit_view(r) == validate_spec(booru@, unit_view(config)),
{
    match row_checks(booru) {
        Err(e) => Err(e),
        Ok(()) => config,
    }
}

/// The row with one field set from text, or why the text does not fit it.
pub open spec fn set_field_spec(b: RowView, field: Seq<char>, value: Seq<char>) -> Result<RowView, Seq<char>> {
    if field == "name"@ {
        match non_empty_spec(value, field) {
            Ok(v) => Ok(RowView { name: v, ..b }),
            Err(e) => Err(e),
        }
    } else if field == "enabled"@ {
        match parse_bool_spec(value) {
            Ok(x) => Ok(RowView { enabled: x, ..b }),
            Err(e) => Err(e),
        }
    } else if field == "embed_image"@ {
        match parse_bool_spec(value) {
            Ok(x) => Ok(RowView { embed_image: x, ..b }),
            Err(e) => Err(e),
        }
    } else if field == "max_tags"@ {
        match parse_usize_spec(value) {
            Some(n) => Ok(RowView { max_tags: n, ..b }),
            None => Err(field + " must be a number"@),
        }
    } else if field == "supports_character"@ {
        match parse_bool_spec(value) {
            Ok(x) => Ok(RowView { supports_character: x, ..b }),
            Err(e) => Err(e),
        }
    } else if field == "page_size"@ {
        match parse_u64_spec(value) {
            Some(n) => Ok(RowView { page_size: n, ..b }),
            None => Err(field + " must be a number"@),
        }
    } else if field == "page_base"@ {
        match parse_u64_spec(value) {
            Some(n) => Ok(RowView { page_base: n, ..b }),
            None => Err(field + " must be a number"@),
        }
    } else if field == "tag_separator"@ {
        Ok(RowView { tag_separator: value, ..b })
    } else if field == "encode_tag_separator"@ {
        match parse_bool_spec(value) {
            Ok(x) => Ok(RowView { encode_tag_separator: x, ..b }),
            Err(e) => Err(e),
        }
    } else if field == "tag_spaces_as_plus"@ {
        match parse_bool_spec(value) {
            Ok(x) => Ok(RowView { tag_spaces_as_plus: x, ..b }),
            Err(e) => Err(e),
        }
    } else if field == "character_space_replacement"@ {
        match non_empty_spec(value, field) {
            Ok(v) => Ok(RowView { character_space_replacement: v, ..b }),
            Err(e) => Err(e),
        }
    } else if field == "count_url"@ {
        match non_empty_spec(value, field) {
            Ok(v) => Ok(RowView { count_url: Some(v), ..b }),
            Err(e) => Err(e),
        }
    } else if field == "posts_url"@ {
        match non_empty_spec(value, field) {
            Ok(v) => Ok(RowView { posts_url: v, ..b }),
            Err(e) => Err(e),
        }
    } else if field == "detail_url"@ {
        Ok(RowView { detail_url: optional_string_spec(value), ..b })
    } else if field == "post_url"@ {
        Ok(RowView { post_url: optional_string_spec(value), ..b })
    } else if json_field(field) {
        match normalized_json_spec(value) {
            Ok(j) => Ok(set_json_field(b, field, j)),
            Err(e) => Err(e),
        }
    } else {
        Err("unknown booru field "@ + field)
    }
}

/// The fields that hold JSON text.
pub open spec fn json_field(field: Seq<char>) -> bool {
    field == "count_path"@ || field == "posts_path"@ || field == "file_url_path"@ || field
        == "source_url_path"@ || field == "detail_id_path"@ || field == "detail_file_url_path"@
        || field == "detail_source_url_path"@ || field == "headers"@ || field == "env_params"@
}

pub open spec fn set_json_field(b: RowView, field: Seq<char>, j: Seq<char>) -> RowView {
    if field == "count_path"@ {
        RowView { count_path_json: j, ..b }
    } else if field == "posts_path"@ {
        RowView { posts_path_json: j, ..b }
    } else if field == "file_url_path"@ {
        RowView { file_url_path_json: j, ..b }
    } else if field == "source_url_path"@ {
        RowView { source_url_path_json: j, ..b }
    } else if field == "detail_id_path"@ {
        RowView { detail_id_path_json: j, ..b }
    } else if field == "detail_file_url_path"@ {
        RowView { detail_file_url_path_json: j, ..b }
    } else if field == "detail_source_url_path"@ {
        RowView { detail_source_url_path_json: j, ..b }
    } else if field == "headers"@ {
        RowView { headers_json: j, ..b }
    } else {
        RowView { env_params_json: j, ..b }
    }
}

fn number_error(field: &str) -> (r: String)
    ensures
        r@ == field@ + " must be a number"@,
{
    cat2(field, " must be a number")
}

/// Sets one field of a row from text, then checks the row (`validate`),
/// its JSON columns read by `read_config` (called only once the row's own
/// columns pass). A value that is refused leaves the row as it was; a row
/// that then fails the check keeps the new value of the field.
pub fn edit_field<F: Fn(&BooruRow) -> Result<(), String>>(
    booru: &mut BooruRow,
    field: &str,
    value: &str,
    read_config: F,
) -> (r: Result<(), String>)
    requires
        forall|b: &BooruRow| read_config.requires((b,)),
    ensures
        match set_field_spec(old(booru)@, field@, value@) {
            Ok(b) => final(booru)@ == b && match row_checks_spec(b) {
                Err(e) => unit_view(r) == Err::<(), Seq<char>>(e),
                Ok(()) => read_config.ensures((&*final(booru),), r),
            },
            Err(e) => r matches Err(m) && m@ == e && final(booru)@ == old(booru)@,
        },
{
    let f = field;
    if str_eq(f, "name") {
        match non_empty(value, field) {
            Ok(v) => booru.name = v,
            Err(e) => return Err(e),
        }
    } else if str_eq(f, "enabled") {
        match parse_bool(value) {
            Ok(x) => booru.enabled = x,
            Err(e) => return Err(e),
        }
    } else if str_eq(f, "embed_image") {
        match parse_bool(value) {
            Ok(x) => booru.embed_image = x,
            Err(e) => return Err(e),
        }
    } else if str_eq(f, "max_tags") {
        match parse_usize(value) {
            Some(n) => booru.max_tags = n,
            None => return Err(number_error(field)),
        }
    } else if str_eq(f, "supports_character") {
        match parse_bool(value) {
            Ok(x) => booru.supports_character = x,
            Err(e) => return Err(e),
        }
    } else if str_eq(f, "page_size") {
        match parse_u64(value) {
            Some(n) => booru.page_size = n,
            None => return Err(number_error(field)),
        }
    } else if str_eq(f, "page_base") {
        match parse_u64(value) {
            Some(n) => booru.page_base = n,
            None => return Err(number_error(field)),
        }
    } else if str_eq(f, "tag_separator") {
        booru.tag_separator = String::from_str(value);
    } else if str_eq(f, "encode_tag_separator") {
        match parse_bool(value) {
            Ok(x) => booru.encode_tag_separator = x,
            Err(e) => return Err(e),
        }
    } else if str_eq(f, "tag_spaces_as_plus") {
        match parse_bool(value) {
            Ok(x) => booru.tag_spaces_as_plus = x,
            Err(e) => return Err(e),
        }
    } else if str_eq(f, "character_space_replacement") {
        match non_empty(value, field) {
            Ok(v) => booru.character_space_replacement = v,
            Err(e) => return Err(e),
        }
    } else if str_eq(f, "count_url") {
        match non_empty(value, field) {
            Ok(v) => booru.count_url = Some(v),
            Err(e) => return Err(e),
        }
    } else if str_eq(f, "posts_url") {
        match non_empty(value, field) {
            Ok(v) => booru.posts_url = v,
            Err(e) => return Err(e),
        }
    } else if str_eq(f, "detail_url") {
        booru.detail_url = optional_string(value);
    } else if str_eq(f, "post_url") {
        booru.post_url = optional_string(value);
    } else if str_eq(f, "count_path") || str_eq(f, "posts_path") || str_eq(f, "file_url_path")
        || str_eq(f, "source_url_path") || str_eq(f, "detail_id_path") || str_eq(
        f,
        "detail_file_url_path",
    ) || str_eq(f, "detail_source_url_path") || str_eq(f, "headers") || str_eq(
        f,
        "env_params",
    ) {
        let j = match normalized_json(value) {
            Ok(j) => j,
            Err(e) => return Err(e),
        };
        if str_eq(f, "count_path") {
            booru.count_path_json = j;
        } else if str_eq(f, "posts_path") {
            booru.posts_path_json = j;
        } else if str_eq(f, "file_url_path") {
            booru.file_url_path_json = j;
        } else if str_eq(f, "source_url_path") {
            booru.source_url_path_json = j;
        } else if str_eq(f, "detail_id_path") {
            booru.detail_id_path_json = j;
        } else if str_eq(f, "detail_file_url_path") {
            booru.detail_file_url_path_json = j;
        } else if str_eq(f, "detail_source_url_path") {
            booru.detail_source_url_path_json = j;
        } else if str_eq(f, "headers") {
            booru.headers_json = j;
        } else {
            booru.env_params_json = j;
        }
    } else {
        return Err(cat2("unknown booru field ", field));
    }
    match row_checks(booru) {
        Err(e) => Err(e),
        Ok(()) => read_config(&*booru),
    }
}


/// `true` or `false`.
pub open spec fn bool_text(b: bool) -> Seq<char> {
    if b {
        "true"@
    } else {
        "false"@
    }
}

pub fn bool_string(b: bool) -> (r: String)
    ensures
        r@ == bool_text(b),
{
    if b {
        String::from_str("true")
    } else {
        String::from_str("false")
    }
}

/// The text of an optional value, `null` when there is none.
pub open spec fn or_null(v: Option<Seq<char>>) -> Seq<char> {
    match v {
        Some(t) => t,
        None => "null"@,
    }
}

fn or_null_string(v: &Option<String>) -> (r: String)
    ensures
        r@ == or_null(opt_string_view(*v)),
{
    match v {
        Some(t) => String::from_str(t.as_str()),
        None => String::from_str("null"),
    }
}

/// The lines that describe a booru row, one `field: value` per line.
pub open spec fn format_lines(b: RowView) -> Seq<Seq<char>> {
    seq![
        "name: "@ + b.name,
        "enabled: "@ + bool_text(b.enabled),
        "embed_image: "@ + bool_text(b.embed_image),
        "max_tags: "@ + dec(b.max_tags as nat),
        "supports_character: "@ + bool_text(b.supports_character),
        "page_size: "@ + dec(b.page_size as nat),
        "page_base: "@ + dec(b.page_base as nat),
        "tag_separator: "@ + b.tag_separator,
        "encode_tag_separator: "@ + bool_text(b.encode_tag_separator),
        "tag_spaces_as_plus: "@ + bool_text(b.tag_spaces_as_plus),
        "character_space_replacement: "@ + b.character_space_replacement,
        "count_url: "@ + or_null(b.count_url),
        "count_path: "@ + b.count_path_json,
        "posts_url: "@ + b.posts_url,
        "posts_path: "@ + b.posts_path_json,
        "file_url_path: "@ + b.file_url_path_json,
        "source_url_path: "@ + b.source_url_path_json,
        "detail_url: "@ + or_null(b.detail_url),
        "detail_id_path: "@ + b.detail_id_path_json,
        "detail_file_url_path: "@ + b.detail_file_url_path_json,
        "detail_source_url_path: "@ + b.detail_source_url_path_json,
        "post_url: "@ + or_null(b.post_url),
        "headers: "@ + b.headers_json,
        "env_params: "@ + b.env_params_json,
    ]
}

fn push_line(lines: &mut Vec<String>, label: &str, value: &str)
    ensures
        string_views(final(lines)@) == string_views(old(lines)@).push(label@ + value@),
{
    let ghost before = lines@;
    lines.push(cat2(label, value));
    assert(string_views(lines@) =~= string_views(before).push(label@ + value@));
}

/// The booru row as `field: value` lines.
#[verifier::rlimit(40)]
pub fn format(booru: &BooruRow) -> (r: String)
    ensures
        r@ == join_seq(format_lines(booru@), "\n"@),
{
    let b = booru;
    let mut lines: Vec<String> = Vec::new();
    push_line(&mut lines, "name: ", b.name.as_str());
    push_line(&mut lines, "enabled: ", bool_string(b.enabled).as_str());
    push_line(&mut lines, "embed_image: ", bool_string(b.embed_image).as_str());
    push_line(&mut lines, "max_tags: ", usize_to_string(b.max_tags).as_str());
    push_line(&mut lines, "supports_character: ", bool_string(b.supports_character).as_str());
    push_line(&mut lines, "page_size: ", u64_to_string(b.page_size).as_str());
    push_line(&mut lines, "page_base: ", u64_to_string(b.page_base).as_str());
    push_line(&mut lines, "tag_separator: ", b.tag_separator.as_str());
    push_line(&mut lines, "encode_tag_separator: ", bool_string(b.encode_tag_separator).as_str());
    push_line(&mut lines, "tag_spaces_as_plus: ", bool_string(b.tag_spaces_as_plus).as_str());
    push_line(&mut lines, "character_space_replacement: ", b.character_space_replacement.as_str());
    push_line(&mut lines, "count_url: ", or_null_string(&b.count_url).as_str());
    push_line(&mut lines, "count_path: ", b.count_path_json.as_str());
    push_line(&mut lines, "posts_url: ", b.posts_url.as_str());
    push_line(&mut lines, "posts_path: ", b.posts_path_json.as_str());
    push_line(&mut lines, "file_url_path: ", b.file_url_path_json.as_str());
    push_line(&mut lines, "source_url_path: ", b.source_url_path_json.as_str());
    push_line(&mut lines, "detail_url: ", or_null_string(&b.detail_url).as_str());
    push_line(&mut lines, "detail_id_path: ", b.detail_id_path_json.as_str());
    push_line(&mut lines, "detail_file_url_path: ", b.detail_file_url_path_json.as_str());
    push_line(&mut lines, "detail_source_url_path: ", b.detail_source_url_path_json.as_str());
    push_line(&mut lines, "post_url: ", or_null_string(&b.post_url).as_str());
    push_line(&mut lines, "headers: ", b.headers_json.as_str());
    push_line(&mut lines, "env_params: ", b.env_params_json.as_str());
    assert(string_views(lines@) =~= format_lines(booru@));
    join_strings(&lines, "\n")
}

} // verus!
