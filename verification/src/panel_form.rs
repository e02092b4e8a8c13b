//! What a submitted panel form asks for: the values typed in it are checked
//! and turned into a request, or into the error shown above the page.
use vstd::prelude::*;
use crate::admin::text_view;
use crate::json_object::{
    insert_string, json_map_entries, json_object_parse, json_object_text, json_string_literal,
    merge_json_object, new_object, object_error, object_text,
};
use crate::num::{dec_int, i64_to_string, parse_i64, parse_i64_spec};
use crate::outside::opt_string_view;
use crate::panel_route::{colon_parts, parse_ids, parse_ids_spec, res_view};
use crate::text::{
    cat2, cat3, cat4, cat5, chars_of, copy_string, csv_spec, has_prefix, join_seq, join_strings,
    split_trimmed, split_vec, str_eq, strip_prefix, string_of, string_views, trim, trim_seq, views, Sep,
};

verus! {

/// The value typed in the input `id` (the first with that id), empty when
/// there is none.
pub open spec fn form_value(values: Seq<(String, String)>, id: Seq<char>) -> Seq<char>
    decreases values.len(),
{
    if values.len() == 0 {
        Seq::<char>::empty()
    } else if values[0].0@ == id {
        values[0].1@
    } else {
        form_value(values.drop_first(), id)
    }
}

pub fn get_value(values: &Vec<(String, String)>, id: &str) -> (r: String)
    ensures
        r@ == form_value(values@, id@),
{
    let mut i: usize = 0;
    assert(values@.skip(0) =~= values@);
    while i < values.len()
        invariant
            i <= values.len(),
            form_value(values@.skip(i as int), id@) == form_value(values@, id@),
        decreases values.len() - i,
    {
        assert(values@.skip(i as int).drop_first() =~= values@.skip(i + 1));
        assert(values@.skip(i as int)[0] == values@[i as int]);
        if str_eq(values[i].0.as_str(), id) {
            return copy_string(values[i].1.as_str());
        }
        i = i + 1;
    }
    assert(values@.skip(values.len() as int) =~= Seq::<(String, String)>::empty());
    String::new()
}

/// The entries of the three JSON objects of the booru form (a later key
/// replaces an earlier one), then the trimmed description as a string when
/// there is one.
pub open spec fn booru_form_entries(
    description: Seq<char>,
    urls: Seq<char>,
    paths: Seq<char>,
    options: Seq<char>,
) -> Result<Map<Seq<char>, Seq<char>>, Seq<char>> {
    match json_object_parse(urls) {
        Err(e) => Err(object_error("API URLs JSON"@, e)),
        Ok(a) => match json_object_parse(paths) {
            Err(e) => Err(object_error("JSON Paths JSON"@, e)),
            Ok(b) => match json_object_parse(options) {
                Err(e) => Err(object_error("Options JSON"@, e)),
                Ok(c) => {
                    let merged = a.union_prefer_right(b).union_prefer_right(c);
                    if trim_seq(description).len() == 0 {
                        Ok(merged)
                    } else {
                        Ok(merged.insert("description"@, json_string_literal(trim_seq(description))))
                    }
                },
            },
        },
    }
}

/// One JSON object holding the entries of the three objects of the booru
/// form and the description, as `serde_json` writes it.
pub fn merged_booru_json(description: &str, urls_json: &str, paths_json: &str, options_json: &str) -> (r:
    Result<String, String>)
    ensures
        match booru_form_entries(description@, urls_json@, paths_json@, options_json@) {
            Err(e) => r matches Err(m) && m@ == e,
            Ok(all) => r matches Ok(t) && t@ == json_object_text(all),
        },
{
    let mut out = new_object();
    match merge_json_object(&mut out, urls_json, "API URLs JSON") {
        Ok(()) => {},
        Err(e) => return Err(e),
    }
    proof {
        let a = json_object_parse(urls_json@)->Ok_0;
        assert(Map::<Seq<char>, Seq<char>>::empty().union_prefer_right(a) =~= a);
    }
    match merge_json_object(&mut out, paths_json, "JSON Paths JSON") {
        Ok(()) => {},
        Err(e) => return Err(e),
    }
    match merge_json_object(&mut out, options_json, "Options JSON") {
        Ok(()) => {},
        Err(e) => return Err(e),
    }
    let d = trim(description);
    if !d.as_str().is_empty() {
        insert_string(&mut out, String::from_str("description"), d);
    }
    Ok(object_text(out))
}

/// Which booru a form is about: by the id in the form's identifier (with
/// its parsed value), or by the name typed in the form.
pub enum BooruRef<T> {
    ById { id: T, booru: Option<i64> },
    Named(T),
}

/// What a booru form asks of the `booru` text command.
pub enum BooruFormCommand<T> {
    Add { description: T, urls: T, paths: T, options: T },
    Edit { field: T, value: T },
    Delete,
    Param { action: T, key: T, value: T },
}

/// What a channel pattern form asks.
pub enum PatternAction<T> {
    Add(T),
    Remove(T),
    List,
}

/// The request a submitted form makes.
pub enum FormRequest<T, L> {
    /// Run as a `booru` text command once the booru's name is known.
    Booru { booru: BooruRef<T>, command: BooruFormCommand<T> },
    BooruToggle(T),
    SettingSet { key: T, value: T },
    /// Run as a `tags` text command.
    Tags(T),
    ServerTagAdd { guild: i64, tag: T },
    ChannelAdd { guild: i64, channel: i64 },
    ChannelRemove { guild: i64, channel: i64 },
    ChannelSet { guild: i64, channel: i64, language: Option<T>, banned: L },
    ChannelPattern { guild: i64, channel: i64, action: PatternAction<T> },
    Validate { guild: i64, validated: bool },
}

impl View for BooruRef<String> {
    type V = BooruRef<Seq<char>>;

    open spec fn view(&self) -> BooruRef<Seq<char>> {
        match self {
            BooruRef::ById { id, booru } => BooruRef::ById { id: id@, booru: *booru },
            BooruRef::Named(n) => BooruRef::Named(n@),
        }
    }
}

impl View for BooruFormCommand<String> {
    type V = BooruFormCommand<Seq<char>>;

    open spec fn view(&self) -> BooruFormCommand<Seq<char>> {
        match self {
            BooruFormCommand::Add { description, urls, paths, options } => BooruFormCommand::Add {
                description: description@,
                urls: urls@,
                paths: paths@,
                options: options@,
            },
            BooruFormCommand::Edit { field, value } => BooruFormCommand::Edit { field: field@, value: value@ },
            BooruFormCommand::Delete => BooruFormCommand::Delete,
            BooruFormCommand::Param { action, key, value } => BooruFormCommand::Param {
                action: action@,
                key: key@,
                value: value@,
            },
        }
    }
}

impl View for PatternAction<String> {
    type V = PatternAction<Seq<char>>;

    open spec fn view(&self) -> PatternAction<Seq<char>> {
        match self {
            PatternAction::Add(n) => PatternAction::Add(n@),
            PatternAction::Remove(n) => PatternAction::Remove(n@),
            PatternAction::List => PatternAction::List,
        }
    }
}

impl View for FormRequest<String, Vec<String>> {
    type V = FormRequest<Seq<char>, Seq<Seq<char>>>;

    open spec fn view(&self) -> FormRequest<Seq<char>, Seq<Seq<char>>> {
        match self {
            FormRequest::Booru { booru, command } => FormRequest::Booru { booru: booru@, command: command@ },
            FormRequest::BooruToggle(n) => FormRequest::BooruToggle(n@),
            FormRequest::SettingSet { key, value } => FormRequest::SettingSet { key: key@, value: value@ },
            FormRequest::Tags(t) => FormRequest::Tags(t@),
            FormRequest::ServerTagAdd { guild, tag } => FormRequest::ServerTagAdd { guild: *guild, tag: tag@ },
            FormRequest::ChannelAdd { guild, channel } => FormRequest::ChannelAdd {
                guild: *guild,
                channel: *channel,
            },
            FormRequest::ChannelRemove { guild, channel } => FormRequest::ChannelRemove {
                guild: *guild,
                channel: *channel,
            },
            FormRequest::ChannelSet { guild, channel, language, banned } => FormRequest::ChannelSet {
                guild: *guild,
                channel: *channel,
                language: opt_string_view(*language),
                banned: string_views(banned@),
            },
            FormRequest::ChannelPattern { guild, channel, action } => FormRequest::ChannelPattern {
                guild: *guild,
                channel: *channel,
                action: action@,
            },
            FormRequest::Validate { guild, validated } => FormRequest::Validate {
                guild: *guild,
                validated: *validated,
            },
        }
    }
}

pub open spec fn req_view(r: Result<FormRequest<String, Vec<String>>, String>) -> Result<
    FormRequest<Seq<char>, Seq<Seq<char>>>,
    Seq<char>,
> {
    match r {
        Ok(q) => Ok(q@),
        Err(e) => Err(e@),
    }
}

/// The ids of a channel form: from the form's identifier when it holds
/// them, else from its guild and channel inputs.
pub open spec fn form_ids(p: Seq<Seq<char>>, values: Seq<(String, String)>) -> Result<(i64, i64), Seq<char>> {
    if p.len() >= 4 {
        parse_ids_spec(p[2], p[3])
    } else {
        parse_ids_spec(form_value(values, "guild_id"@), form_value(values, "channel_id"@))
    }
}

/// Typed guild and channel ids: the guild id is required.
pub open spec fn typed_ids(values: Seq<(String, String)>, missing: Seq<char>) -> Result<(i64, i64), Seq<char>> {
    let g = form_value(values, "guild_id"@);
    if g.len() == 0 {
        Err(missing)
    } else {
        parse_ids_spec(g, form_value(values, "channel_id"@))
    }
}

/// The text after `am:` (or the whole identifier), split at `:`.
pub open spec fn form_parts(custom_id: Seq<char>) -> Seq<Seq<char>> {
    if has_prefix(custom_id, "am:"@) {
        colon_parts(custom_id.skip(3))
    } else {
        colon_parts(custom_id)
    }
}

/// Text, then a space and `extra` unless `extra` is empty.
pub open spec fn with_optional(text: Seq<char>, extra: Seq<char>) -> Seq<char> {
    if extra.len() == 0 {
        text
    } else {
        text + " "@ + extra
    }
}

pub open spec fn pattern_request(g: i64, ch: i64, act: Seq<char>, name: Seq<char>) -> Result<
    FormRequest<Seq<char>, Seq<Seq<char>>>,
    Seq<char>,
> {
    if act == "add"@ || act == "remove"@ {
        if name.len() == 0 {
            Err("Pattern name required."@)
        } else if act == "add"@ {
            Ok(FormRequest::ChannelPattern { guild: g, channel: ch, action: PatternAction::Add(name) })
        } else {
            Ok(FormRequest::ChannelPattern { guild: g, channel: ch, action: PatternAction::Remove(name) })
        }
    } else if act == "list"@ {
        Ok(FormRequest::ChannelPattern { guild: g, channel: ch, action: PatternAction::List })
    } else {
        Err("Action must be add, remove, or list."@)
    }
}

pub open spec fn form_request_spec(custom_id: Seq<char>, values: Seq<(String, String)>, guild: Option<i64>) -> Result<
    FormRequest<Seq<char>, Seq<Seq<char>>>,
    Seq<char>,
> {
    let p = form_parts(custom_id);
    let c = p[0];
    let a = if p.len() > 1 {
        p[1]
    } else {
        Seq::<char>::empty()
    };
    let by = if p.len() > 2 {
        BooruRef::ById { id: p[2], booru: parse_i64_spec(p[2]) }
    } else {
        BooruRef::Named(form_value(values, "booru_name"@))
    };
    if c == "boorus"@ && a == "add"@ {
        if form_value(values, "booru_name"@).len() == 0 || form_value(values, "urls_json"@).len() == 0
            || form_value(values, "paths_json"@).len() == 0 || form_value(values, "options_json"@).len()
            == 0 {
            Err("Name, URLs, paths, and options are required."@)
        } else {
            Ok(
                FormRequest::Booru {
                    booru: BooruRef::Named(form_value(values, "booru_name"@)),
                    command: BooruFormCommand::Add {
                        description: form_value(values, "description"@),
                        urls: form_value(values, "urls_json"@),
                        paths: form_value(values, "paths_json"@),
                        options: form_value(values, "options_json"@),
                    },
                },
            )
        }
    } else if c == "boorus"@ && a == "edit"@ {
        Ok(
            FormRequest::Booru {
                booru: by,
                command: BooruFormCommand::Edit {
                    field: form_value(values, "field_name"@),
                    value: form_value(values, "field_value"@),
                },
            },
        )
    } else if c == "boorus"@ && a == "delete"@ {
        Ok(
            FormRequest::Booru {
                booru: BooruRef::Named(form_value(values, "booru_name"@)),
                command: BooruFormCommand::Delete,
            },
        )
    } else if c == "boorus"@ && a == "toggle"@ {
        Ok(FormRequest::BooruToggle(form_value(values, "booru_name"@)))
    } else if c == "boorus"@ && a == "param"@ {
        Ok(
            FormRequest::Booru {
                booru: by,
                command: BooruFormCommand::Param {
                    action: form_value(values, "param_action"@),
                    key: form_value(values, "param_key"@),
                    value: form_value(values, "param_value"@),
                },
            },
        )
    } else if c == "settings"@ && a == "set"@ {
        if trim_seq(form_value(values, "setting_key"@)).len() == 0 {
            Err("Setting key is required."@)
        } else {
            Ok(
                FormRequest::SettingSet {
                    key: form_value(values, "setting_key"@),
                    value: form_value(values, "setting_value"@),
                },
            )
        }
    } else if c == "tags"@ && a == "add"@ {
        Ok(
            FormRequest::Tags(
                with_optional(
                    form_value(values, "pattern_name"@) + " add "@ + form_value(values, "booru_name"@)
                        + " "@ + form_value(values, "included_tags"@),
                    form_value(values, "excluded_tags"@),
                ),
            ),
        )
    } else if c == "tags"@ && a == "remove"@ {
        Ok(
            FormRequest::Tags(
                with_optional(
                    form_value(values, "pattern_name"@) + " delete"@,
                    form_value(values, "booru_name"@),
                ),
            ),
        )
    } else if c == "server_tags"@ && a == "add"@ {
        let tag = trim_seq(form_value(values, "tag_name"@));
        if tag.len() == 0 {
            Err("Tag name is required."@)
        } else {
            match guild {
                None => Err("Run this from inside a server channel."@),
                Some(g) => Ok(FormRequest::ServerTagAdd { guild: g, tag }),
            }
        }
    } else if c == "channels"@ && a == "add"@ {
        match typed_ids(values, "Guild ID is required in modal."@) {
            Err(e) => Err(e),
            Ok((g, ch)) => Ok(FormRequest::ChannelAdd { guild: g, channel: ch }),
        }
    } else if c == "channels"@ && a == "remove"@ {
        match typed_ids(values, "Guild ID is required."@) {
            Err(e) => Err(e),
            Ok((g, ch)) => Ok(FormRequest::ChannelRemove { guild: g, channel: ch }),
        }
    } else if c == "channels"@ && a == "set"@ {
        match form_ids(p, values) {
            Err(e) => Err(e),
            Ok((g, ch)) => {
                let lang = form_value(values, "language"@);
                Ok(
                    FormRequest::ChannelSet {
                        guild: g,
                        channel: ch,
                        language: if lang.len() == 0 {
                            None
                        } else {
                            Some(lang)
                        },
                        banned: csv_spec(form_value(values, "banned_tags"@), ','),
                    },
                )
            },
        }
    } else if c == "channels"@ && a == "pattern"@ {
        match form_ids(p, values) {
            Err(e) => Err(e),
            Ok((g, ch)) => pattern_request(
                g,
                ch,
                form_value(values, "pattern_action"@),
                form_value(values, "pattern_name"@),
            ),
        }
    } else if c == "validate"@ && (a == "validate"@ || a == "unvalidate"@) {
        match parse_i64_spec(form_value(values, "guild_id"@)) {
            None => Err("Invalid guild ID"@),
            Some(g) => Ok(FormRequest::Validate { guild: g, validated: a == "validate"@ }),
        }
    } else {
        Err("Unknown modal action: "@ + custom_id)
    }
}

fn with_optional_text(text: String, extra: &str) -> (r: String)
    ensures
        r@ == with_optional(text@, extra@),
{
    if extra.is_empty() {
        text
    } else {
        cat3(text.as_str(), " ", extra)
    }
}

fn typed_ids_exec(values: &Vec<(String, String)>, missing: &str) -> (r: Result<(i64, i64), String>)
    ensures
        res_view(r) == typed_ids(values@, missing@),
{
    let g = get_value(values, "guild_id");
    if g.as_str().is_empty() {
        return Err(String::from_str(missing));
    }
    parse_ids(g.as_str(), get_value(values, "channel_id").as_str())
}

fn form_ids_exec(p: &Vec<Vec<char>>, values: &Vec<(String, String)>) -> (r: Result<(i64, i64), String>)
    ensures
        res_view(r) == form_ids(views(p@), values@),
{
    if p.len() >= 4 {
        let g = string_of(&p[2]);
        let c = string_of(&p[3]);
        parse_ids(g.as_str(), c.as_str())
    } else {
        parse_ids(get_value(values, "guild_id").as_str(), get_value(values, "channel_id").as_str())
    }
}

fn pattern_request_exec(g: i64, ch: i64, act: String, name: String) -> (r: Result<
    FormRequest<String, Vec<String>>,
    String,
>)
    ensures
        req_view(r) == pattern_request(g, ch, act@, name@),
{
    let is_add = str_eq(act.as_str(), "add");
    if is_add || str_eq(act.as_str(), "remove") {
        if name.as_str().is_empty() {
            Err(String::from_str("Pattern name required."))
        } else if is_add {
            Ok(FormRequest::ChannelPattern { guild: g, channel: ch, action: PatternAction::Add(name) })
        } else {
            Ok(FormRequest::ChannelPattern { guild: g, channel: ch, action: PatternAction::Remove(name) })
        }
    } else if str_eq(act.as_str(), "list") {
        Ok(FormRequest::ChannelPattern { guild: g, channel: ch, action: PatternAction::List })
    } else {
        Err(String::from_str("Action must be add, remove, or list."))
    }
}

fn booru_ref(p: &Vec<Vec<char>>, values: &Vec<(String, String)>) -> (r: BooruRef<String>)
    ensures
        r@ == (if p@.len() > 2 {
            BooruRef::ById { id: p@[2]@, booru: parse_i64_spec(p@[2]@) }
        } else {
            BooruRef::Named(form_value(values@, "booru_name"@))
        }),
{
    if p.len() > 2 {
        let id = string_of(&p[2]);
        let n = parse_i64(id.as_str());
        BooruRef::ById { id, booru: n }
    } else {
        BooruRef::Named(get_value(values, "booru_name"))
    }
}

/// Turns a submitted form into its request, or the error to show. `values`
/// are the form's inputs (id, typed value); `guild` the server it was sent from.
pub fn form_request(custom_id: &str, values: &Vec<(String, String)>, guild: Option<i64>) -> (r: Result<
    FormRequest<String, Vec<String>>,
    String,
>)
    ensures
        req_view(r) == form_request_spec(custom_id@, values@, guild),
{
    proof {
        reveal_strlit("am:");
    }
    let rest = match strip_prefix(custom_id, "am:") {
        Some(r) => r,
        None => copy_string(custom_id),
    };
    let rv = chars_of(rest.as_str());
    let p = split_vec(&rv, Sep::Char(':'));
    proof {
        crate::text::lemma_split_len(rv@, Sep::Char(':'));
    }
    let ghost ps = views(p@);
    assert(ps == form_parts(custom_id@));
    let c = string_of(&p[0]);
    let a = if p.len() > 1 {
        string_of(&p[1])
    } else {
        String::new()
    };
    let cs = c.as_str();
    let as_ = a.as_str();
    if str_eq(cs, "boorus") && str_eq(as_, "add") {
        let name = get_value(values, "booru_name");
        let urls = get_value(values, "urls_json");
        let paths = get_value(values, "paths_json");
        let options = get_value(values, "options_json");
        if name.as_str().is_empty() || urls.as_str().is_empty() || paths.as_str().is_empty()
            || options.as_str().is_empty() {
            return Err(String::from_str("Name, URLs, paths, and options are required."));
        }
        let description = get_value(values, "description");
        Ok(
            FormRequest::Booru {
                booru: BooruRef::Named(name),
                command: BooruFormCommand::Add { description, urls, paths, options },
            },
        )
    } else if str_eq(cs, "boorus") && str_eq(as_, "edit") {
        Ok(
            FormRequest::Booru {
                booru: booru_ref(&p, values),
                command: BooruFormCommand::Edit {
                    field: get_value(values, "field_name"),
                    value: get_value(values, "field_value"),
                },
            },
        )
    } else if str_eq(cs, "boorus") && str_eq(as_, "delete") {
        Ok(
            FormRequest::Booru {
                booru: BooruRef::Named(get_value(values, "booru_name")),
                command: BooruFormCommand::Delete,
            },
        )
    } else if str_eq(cs, "boorus") && str_eq(as_, "toggle") {
        Ok(FormRequest::BooruToggle(get_value(values, "booru_name")))
    } else if str_eq(cs, "boorus") && str_eq(as_, "param") {
        Ok(
            FormRequest::Booru {
                booru: booru_ref(&p, values),
                command: BooruFormCommand::Param {
                    action: get_value(values, "param_action"),
                    key: get_value(values, "param_key"),
                    value: get_value(values, "param_value"),
                },
            },
        )
    } else if str_eq(cs, "settings") && str_eq(as_, "set") {
        let key = get_value(values, "setting_key");
        if trim(key.as_str()).as_str().is_empty() {
            Err(String::from_str("Setting key is required."))
        } else {
            Ok(FormRequest::SettingSet { key, value: get_value(values, "setting_value") })
        }
    } else if str_eq(cs, "tags") && str_eq(as_, "add") {
        let head = cat5(
            get_value(values, "pattern_name").as_str(),
            " add ",
            get_value(values, "booru_name").as_str(),
            " ",
            get_value(values, "included_tags").as_str(),
        );
        Ok(FormRequest::Tags(with_optional_text(head, get_value(values, "excluded_tags").as_str())))
    } else if str_eq(cs, "tags") && str_eq(as_, "remove") {
        let head = cat2(get_value(values, "pattern_name").as_str(), " delete");
        Ok(FormRequest::Tags(with_optional_text(head, get_value(values, "booru_name").as_str())))
    } else if str_eq(cs, "server_tags") && str_eq(as_, "add") {
        let tag = trim(get_value(values, "tag_name").as_str());
        if tag.as_str().is_empty() {
            Err(String::from_str("Tag name is required."))
        } else {
            match guild {
                None => Err(String::from_str("Run this from inside a server channel.")),
                Some(g) => Ok(FormRequest::ServerTagAdd { guild: g, tag }),
            }
        }
    } else if str_eq(cs, "channels") && str_eq(as_, "add") {
        match typed_ids_exec(values, "Guild ID is required in modal.") {
            Err(e) => Err(e),
            Ok((g, ch)) => Ok(FormRequest::ChannelAdd { guild: g, channel: ch }),
        }
    } else if str_eq(cs, "channels") && str_eq(as_, "remove") {
        match typed_ids_exec(values, "Guild ID is required.") {
            Err(e) => Err(e),
            Ok((g, ch)) => Ok(FormRequest::ChannelRemove { guild: g, channel: ch }),
        }
    } else if str_eq(cs, "channels") && str_eq(as_, "set") {
        match form_ids_exec(&p, values) {
            Err(e) => Err(e),
            Ok((g, ch)) => {
                let lang = get_value(values, "language");
                let language = if lang.as_str().is_empty() {
                    None
                } else {
                    Some(lang)
                };
                let banned = split_trimmed(get_value(values, "banned_tags").as_str(), ',');
                Ok(FormRequest::ChannelSet { guild: g, channel: ch, language, banned })
            },
        }
    } else if str_eq(cs, "channels") && str_eq(as_, "pattern") {
        match form_ids_exec(&p, values) {
            Err(e) => Err(e),
            Ok((g, ch)) => pattern_request_exec(
                g,
                ch,
                get_value(values, "pattern_action"),
                get_value(values, "pattern_name"),
            ),
        }
    } else if str_eq(cs, "validate") && (str_eq(as_, "validate") || str_eq(as_, "unvalidate")) {
        match parse_i64(get_value(values, "guild_id").as_str()) {
            None => Err(String::from_str("Invalid guild ID")),
            Some(g) => Ok(FormRequest::Validate { guild: g, validated: str_eq(as_, "validate") }),
        }
    } else {
        Err(cat2("Unknown modal action: ", custom_id))
    }
}

/// The `booru` text command a booru form runs for the booru `name`.
pub fn booru_form_text(name: &str, cmd: &BooruFormCommand<String>) -> (r: Result<String, String>)
    ensures
        match cmd@ {
            BooruFormCommand::Add { description, urls, paths, options } => match booru_form_entries(
                description,
                urls,
                paths,
                options,
            ) {
                Err(e) => r matches Err(m) && m@ == e,
                Ok(all) => r matches Ok(t) && t@ == "add "@ + name@ + " "@ + json_object_text(all),
            },
            BooruFormCommand::Edit { field, value } => text_view(r) == Ok::<Seq<char>, Seq<char>>(
                "edit "@ + name@ + " "@ + field + " "@ + value,
            ),
            BooruFormCommand::Delete => text_view(r) == Ok::<Seq<char>, Seq<char>>("delete "@ + name@),
            BooruFormCommand::Param { action, key, value } => text_view(r) == if action == "set"@ {
                Ok::<Seq<char>, Seq<char>>("parameter set "@ + name@ + " "@ + key + " "@ + value)
            } else if action == "delete"@ {
                Ok("parameter delete "@ + name@ + " "@ + key)
            } else if action == "list"@ {
                Ok("parameter list "@ + name@)
            } else {
                Err("Action must be set, delete, or list."@)
            },
        },
{
    match cmd {
        BooruFormCommand::Add { description, urls, paths, options } => {
            match merged_booru_json(description.as_str(), urls.as_str(), paths.as_str(), options.as_str()) {
                Err(e) => Err(e),
                Ok(json) => {
                    Ok(cat4("add ", name, " ", json.as_str()))
                },
            }
        },
        BooruFormCommand::Edit { field, value } => {
            let t = cat2(cat4("edit ", name, " ", field.as_str()).as_str(), cat2(" ", value.as_str()).as_str());
            assert(t@ =~= "edit "@ + name@ + " "@ + field@ + " "@ + value@);
            Ok(t)
        },
        BooruFormCommand::Delete => Ok(cat2("delete ", name)),
        BooruFormCommand::Param { action, key, value } => {
            if str_eq(action.as_str(), "set") {
                let t = cat2(cat4("parameter set ", name, " ", key.as_str()).as_str(), cat2(" ", value.as_str()).as_str());
                assert(t@ =~= "parameter set "@ + name@ + " "@ + key@ + " "@ + value@);
                Ok(t)
            } else if str_eq(action.as_str(), "delete") {
                Ok(cat4("parameter delete ", name, " ", key.as_str()))
            } else if str_eq(action.as_str(), "list") {
                Ok(cat2("parameter list ", name))
            } else {
                Err(String::from_str("Action must be set, delete, or list."))
            }
        },
    }
}

/// `Booru {name} enabled.` or `disabled.`, with the reload notice of forms.
pub fn booru_toggle_form_reply(name: &str, enabled: bool) -> (r: String)
    ensures
        r@ == "Booru "@ + name@ + " "@ + crate::admin_reply::enabled_word(enabled) + ". Reload to apply."@,
{
    let w = if enabled {
        String::from_str("enabled")
    } else {
        String::from_str("disabled")
    };
    cat5("Booru ", name, " ", w.as_str(), ". Reload to apply.")
}

/// `Booru {name} not found`.
pub fn booru_form_not_found(name: &str) -> (r: String)
    ensures
        r@ == "Booru "@ + name@ + " not found"@,
{
    cat3("Booru ", name, " not found")
}

/// What a carried-out form request tells (the requests whose reply does not
/// depend on what the database gave back).
pub open spec fn form_done_spec(req: FormRequest<Seq<char>, Seq<Seq<char>>>) -> Seq<char> {
    match req {
        FormRequest::SettingSet { key, .. } => "Setting `"@ + key + "` set."@,
        FormRequest::ServerTagAdd { tag, .. } => "Server tag `"@ + tag + "` added. Reload to update commands."@,
        FormRequest::ChannelAdd { guild, channel } => "Channel "@ + dec_int(channel as int) + " added to server "@
            + dec_int(guild as int) + "."@,
        FormRequest::ChannelRemove { guild, channel } => "Channel "@ + dec_int(channel as int)
            + " removed from server "@ + dec_int(guild as int) + "."@,
        FormRequest::ChannelSet { channel, .. } => "Channel "@ + dec_int(channel as int) + " config updated."@,
        FormRequest::ChannelPattern { channel, action, .. } => match action {
            PatternAction::Add(n) => "Pattern "@ + n + " added to channel "@ + dec_int(channel as int) + "."@,
            PatternAction::Remove(n) => "Pattern "@ + n + " removed from channel "@ + dec_int(channel as int)
                + "."@,
            PatternAction::List => Seq::<char>::empty(),
        },
        FormRequest::Validate { guild, validated } => "Server "@ + dec_int(guild as int) + if validated {
            " validated."@
        } else {
            " unvalidated."@
        },
        _ => Seq::<char>::empty(),
    }
}

pub fn form_done(req: &FormRequest<String, Vec<String>>) -> (r: String)
    ensures
        r@ == form_done_spec(req@),
{
    match req {
        FormRequest::SettingSet { key, .. } => cat3("Setting `", key.as_str(), "` set."),
        FormRequest::ServerTagAdd { tag, .. } => cat3("Server tag `", tag.as_str(), "` added. Reload to update commands."),
        FormRequest::ChannelAdd { guild, channel } => cat5(
            "Channel ",
            i64_to_string(*channel).as_str(),
            " added to server ",
            i64_to_string(*guild).as_str(),
            ".",
        ),
        FormRequest::ChannelRemove { guild, channel } => cat5(
            "Channel ",
            i64_to_string(*channel).as_str(),
            " removed from server ",
            i64_to_string(*guild).as_str(),
            ".",
        ),
        FormRequest::ChannelSet { channel, .. } => cat3(
            "Channel ",
            i64_to_string(*channel).as_str(),
            " config updated.",
        ),
        FormRequest::ChannelPattern { channel, action, .. } => match action {
            PatternAction::Add(n) => cat5("Pattern ", n.as_str(), " added to channel ", i64_to_string(*channel).as_str(), "."),
            PatternAction::Remove(n) => cat5(
                "Pattern ",
                n.as_str(),
                " removed from channel ",
                i64_to_string(*channel).as_str(),
                ".",
            ),
            PatternAction::List => String::new(),
        },
        FormRequest::Validate { guild, validated } => {
            let w = if *validated {
                String::from_str(" validated.")
            } else {
                String::from_str(" unvalidated.")
            };
            cat3("Server ", i64_to_string(*guild).as_str(), w.as_str())
        },
        _ => String::new(),
    }
}

/// The blocked tags of a channel, joined by commas; a note when there are none.
pub fn channel_patterns_form_reply(patterns: &Vec<String>) -> (r: String)
    ensures
        r@ == if patterns@.len() == 0 {
            "No patterns assigned."@
        } else {
            join_seq(string_views(patterns@), ", "@)
        },
{
    if patterns.len() == 0 {
        String::from_str("No patterns assigned.")
    } else {
        join_strings(patterns, ", ")
    }
}

} // verus!
