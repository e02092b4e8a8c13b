//! What the bot works out when it starts: its settings, the runtime values
//! of URL templates, the slash commands of each server, and the pacing of
//! API requests.
use vstd::prelude::*;
use crate::admin::BooruRow;
use crate::config::{lookup, RuntimeValues};
use crate::i18n::{template, I18n, Msg};
use crate::num::{dec, parse_u64, parse_u64_spec, u64_to_string, usize_to_string};
use crate::outside::opt_string_view;
use crate::posts::{parse_usize, parse_usize_spec};
use crate::records::BooruCustomParameter;
use crate::responses::name_component;
use crate::text::{
    cat2, chars_of, copy_string, lower_seq, lower_vec, non_empty_pieces, non_empty_vecs, replace_seq,
    split_seq, split_vec, string_of, string_views, strings_of, trim_seq, trim_vec, views, Sep,
};
use crate::textmap::TextMap;

verus! {

// ---------------------------------------------------------------------------
// Settings
// ---------------------------------------------------------------------------

/// A stored setting, or the default when it is not stored.
pub open spec fn setting_text(raw: Option<Seq<char>>, default: Seq<char>) -> Seq<char> {
    match raw {
        Some(v) => v,
        None => default,
    }
}

pub fn setting_string(raw: Option<String>, default: &str) -> (r: String)
    ensures
        r@ == setting_text(opt_string_view(raw), default@),
{
    match raw {
        Some(v) => v,
        None => String::from_str(default),
    }
}

/// A stored number, or the default when it is not stored or not a number.
pub fn setting_u64(raw: Option<String>, default: u64) -> (r: u64)
    ensures
        r == match opt_string_view(raw) {
            Some(v) => match parse_u64_spec(v) {
                Some(n) => n,
                None => default,
            },
            None => default,
        },
{
    match raw {
        Some(v) => match parse_u64(v.as_str()) {
            Some(n) => n,
            None => default,
        },
        None => default,
    }
}

pub fn setting_usize(raw: Option<String>, default: usize) -> (r: usize)
    ensures
        r == match opt_string_view(raw) {
            Some(v) => match parse_usize_spec(v) {
                Some(n) => n,
                None => default,
            },
            None => default,
        },
{
    match raw {
        Some(v) => match parse_usize(v.as_str()) {
            Some(n) => n,
            None => default,
        },
        None => default,
    }
}

/// A comma-separated setting: the items trimmed and ASCII-lowercased, the
/// empty ones dropped.
pub open spec fn setting_list_spec(raw: Option<Seq<char>>, default: Seq<char>) -> Seq<Seq<char>> {
    let s = setting_text(raw, default);
    if s.len() == 0 {
        Seq::empty()
    } else {
        non_empty_pieces(split_seq(s, Sep::Char(',')).map_values(|p: Seq<char>| lower_seq(trim_seq(p))))
    }
}

pub fn setting_list(raw: Option<String>, default: &str) -> (r: Vec<String>)
    ensures
        string_views(r@) == setting_list_spec(opt_string_view(raw), default@),
{
    let s = setting_string(raw, default);
    if s.as_str().is_empty() {
        let v: Vec<String> = Vec::new();
        assert(string_views(v@) =~= Seq::<Seq<char>>::empty());
        return v;
    }
    let v = chars_of(s.as_str());
    let pieces = split_vec(&v, Sep::Char(','));
    let mut cleaned: Vec<Vec<char>> = Vec::new();
    let mut i: usize = 0;
    let ghost all = views(pieces@).map_values(|p: Seq<char>| lower_seq(trim_seq(p)));
    while i < pieces.len()
        invariant
            i <= pieces.len(),
            all == views(pieces@).map_values(|p: Seq<char>| lower_seq(trim_seq(p))),
            views(cleaned@) == all.take(i as int),
        decreases pieces.len() - i,
    {
        let t = trim_vec(&pieces[i]);
        let l = lower_vec(&t);
        let ghost before = cleaned@;
        cleaned.push(l);
        assert(views(cleaned@) =~= views(before).push(l@));
        assert(all.take(i + 1) =~= all.take(i as int).push(all[i as int]));
        i = i + 1;
    }
    assert(all.take(pieces.len() as int) =~= all);
    let kept = non_empty_vecs(cleaned);
    strings_of(&kept)
}

// ---------------------------------------------------------------------------
// Runtime values
// ---------------------------------------------------------------------------

/// The custom parameters of one booru: key to value, a later one winning.
pub open spec fn param_values(ps: Seq<BooruCustomParameter>, booru: Seq<char>) -> Map<Seq<char>, Seq<char>>
    decreases ps.len(),
{
    if ps.len() == 0 {
        Map::empty()
    } else {
        let m = param_values(ps.drop_last(), booru);
        if ps.last().booru_name@ == booru {
            m.insert(ps.last().key@, ps.last().value@)
        } else {
            m
        }
    }
}

/// Key to value, a later pair winning.
pub open spec fn pairs_map(kv: Seq<(String, String)>) -> Map<Seq<char>, Seq<char>>
    decreases kv.len(),
{
    if kv.len() == 0 {
        Map::empty()
    } else {
        pairs_map(kv.drop_last()).insert(kv.last().0@, kv.last().1@)
    }
}

/// The booru names that have custom parameters.
pub open spec fn param_boorus(ps: Seq<BooruCustomParameter>) -> Set<Seq<char>> {
    Set::new(|b: Seq<char>| exists|i: int| 0 <= i < ps.len() && (#[trigger] ps[i]).booru_name@ == b)
}

fn params_of(ps: &Vec<BooruCustomParameter>, booru: &str) -> (r: TextMap<String>)
    ensures
        r@ == param_values(ps@, booru@),
{
    let mut m: TextMap<String> = TextMap::new();
    let mut i: usize = 0;
    while i < ps.len()
        invariant
            i <= ps.len(),
            m@ == param_values(ps@.take(i as int), booru@),
        decreases ps.len() - i,
    {
        assert(ps@.take(i + 1).drop_last() =~= ps@.take(i as int));
        if crate::text::str_eq(ps[i].booru_name.as_str(), booru) {
            m.insert(copy_string(ps[i].key.as_str()), copy_string(ps[i].value.as_str()));
        }
        i = i + 1;
    }
    assert(ps@.take(ps.len() as int) =~= ps@);
    m
}

/// The values URL templates draw on: the Discord token as the one secret,
/// the stored settings, and each booru's custom parameters.
pub fn runtime_values(discord_token: &str, settings: &Vec<(String, String)>, params: &Vec<BooruCustomParameter>) -> (r:
    RuntimeValues)
    ensures
        r.secrets@ == Map::<Seq<char>, Seq<char>>::empty().insert("discord_token"@, discord_token@),
        r.settings@ == pairs_map(settings@),
        r.custom@.dom() == param_boorus(params@),
        forall|b: Seq<char>| #[trigger] r.custom@.dom().contains(b) ==> r.custom@[b] == param_values(params@, b),
{
    let mut secrets: TextMap<String> = TextMap::new();
    secrets.insert(String::from_str("discord_token"), copy_string(discord_token));
    let mut settings_map: TextMap<String> = TextMap::new();
    let mut i: usize = 0;
    while i < settings.len()
        invariant
            i <= settings.len(),
            settings_map@ == pairs_map(settings@.take(i as int)),
        decreases settings.len() - i,
    {
        assert(settings@.take(i + 1).drop_last() =~= settings@.take(i as int));
        settings_map.insert(copy_string(settings[i].0.as_str()), copy_string(settings[i].1.as_str()));
        i = i + 1;
    }
    assert(settings@.take(settings.len() as int) =~= settings@);
    let mut custom: TextMap<TextMap<String>> = TextMap::new();
    let mut j: usize = 0;
    while j < params.len()
        invariant
            j <= params.len(),
            custom@.dom() == param_boorus(params@.take(j as int)),
            forall|b: Seq<char>| #[trigger] custom@.dom().contains(b) ==> custom@[b] == param_values(params@, b),
        decreases params.len() - j,
    {
        let name = params[j].booru_name.as_str();
        let ghost pre = params@.take(j as int);
        let ghost post = params@.take(j + 1);
        assert(post =~= pre.push(params@[j as int]));
        if custom.get(name).is_none() {
            let inner = params_of(params, name);
            custom.insert(copy_string(name), inner);
        }
        assert(custom@.dom() =~= param_boorus(post)) by {
            assert forall|b: Seq<char>| param_boorus(post).contains(b) implies custom@.dom().contains(b) by {
                let k = choose|k: int| 0 <= k < post.len() && (#[trigger] post[k]).booru_name@ == b;
                if k < j {
                    assert(pre[k] == post[k]);
                    assert(param_boorus(pre).contains(b));
                }
            }
            assert forall|b: Seq<char>| custom@.dom().contains(b) implies param_boorus(post).contains(b) by {
                if b == name@ {
                    assert(post[j as int].booru_name@ == b);
                } else {
                    let k = choose|k: int| 0 <= k < pre.len() && (#[trigger] pre[k]).booru_name@ == b;
                    assert(post[k] == pre[k]);
                }
            }
        }
        j = j + 1;
    }
    assert(params@.take(params.len() as int) =~= params@);
    RuntimeValues { secrets, settings: settings_map, custom }
}

/// The settings the bot runs with.
pub struct StartupSettings {
    pub language: String,
    pub api_rate_pace_ms: u64,
    pub fetch_retry_limit: usize,
    pub history_limit: usize,
    pub tag_blacklist: Vec<String>,
    pub runtime_values: RuntimeValues,
}

/// The stored value of a setting (a later pair winning).
pub open spec fn stored(settings: Seq<(String, String)>, key: Seq<char>) -> Option<Seq<char>> {
    lookup(pairs_map(settings), key)
}

/// A numeric setting, or the default when it is not stored or not a number.
pub open spec fn u64_setting(raw: Option<Seq<char>>, default: u64) -> u64 {
    match raw {
        Some(v) => match parse_u64_spec(v) {
            Some(n) => n,
            None => default,
        },
        None => default,
    }
}

pub open spec fn usize_setting(raw: Option<Seq<char>>, default: usize) -> usize {
    match raw {
        Some(v) => match parse_usize_spec(v) {
            Some(n) => n,
            None => default,
        },
        None => default,
    }
}

fn stored_setting(map: &TextMap<String>, key: &str) -> (r: Option<String>)
    ensures
        opt_string_view(r) == lookup(map@, key@),
{
    match map.get(key) {
        Some(v) => Some(copy_string(v.as_str())),
        None => None,
    }
}

/// The settings from the stored ones, each with its default: `app_lang`
/// (`en`), `api_rate_pace_ms` (0), `booru_fetch_retry_limit` (3),
/// `booru_source_link_history_limit` (1000) and `booru_tag_blacklist`
/// (empty); and the runtime values of URL templates.
pub fn startup_settings(
    discord_token: &str,
    settings: &Vec<(String, String)>,
    params: &Vec<BooruCustomParameter>,
) -> (r: StartupSettings)
    ensures
        r.language@ == setting_text(stored(settings@, "app_lang"@), "en"@),
        r.api_rate_pace_ms == u64_setting(stored(settings@, "api_rate_pace_ms"@), 0),
        r.fetch_retry_limit == usize_setting(stored(settings@, "booru_fetch_retry_limit"@), 3),
        r.history_limit == usize_setting(stored(settings@, "booru_source_link_history_limit"@), 1000),
        string_views(r.tag_blacklist@) == setting_list_spec(
            stored(settings@, "booru_tag_blacklist"@),
            ""@,
        ),
        r.runtime_values.secrets@ == Map::<Seq<char>, Seq<char>>::empty().insert(
            "discord_token"@,
            discord_token@,
        ),
        r.runtime_values.settings@ == pairs_map(settings@),
        r.runtime_values.custom@.dom() == param_boorus(params@),
        forall|b: Seq<char>| #[trigger] r.runtime_values.custom@.dom().contains(b)
            ==> r.runtime_values.custom@[b] == param_values(params@, b),
{
    let runtime_values = runtime_values(discord_token, settings, params);
    let language = setting_string(stored_setting(&runtime_values.settings, "app_lang"), "en");
    let api_rate_pace_ms = setting_u64(stored_setting(&runtime_values.settings, "api_rate_pace_ms"), 0);
    let fetch_retry_limit = setting_usize(
        stored_setting(&runtime_values.settings, "booru_fetch_retry_limit"),
        3,
    );
    let history_limit = setting_usize(
        stored_setting(&runtime_values.settings, "booru_source_link_history_limit"),
        1000,
    );
    let tag_blacklist = setting_list(stored_setting(&runtime_values.settings, "booru_tag_blacklist"), "");
    StartupSettings {
        language,
        api_rate_pace_ms,
        fetch_retry_limit,
        history_limit,
        tag_blacklist,
        runtime_values,
    }
}

// ---------------------------------------------------------------------------
// Slash commands
// ---------------------------------------------------------------------------

/// An option of a slash command.
pub struct CommandOption {
    /// An integer option (else a text one).
    pub integer: bool,
    pub name: String,
    pub description: String,
    pub required: bool,
    pub min_value: Option<i64>,
}

/// A slash command to register.
pub struct CommandSpec {
    pub name: String,
    pub description: String,
    pub options: Vec<CommandOption>,
}

pub struct OptionView {
    pub integer: bool,
    pub name: Seq<char>,
    pub description: Seq<char>,
    pub required: bool,
    pub min_value: Option<i64>,
}

pub struct CommandView {
    pub name: Seq<char>,
    pub description: Seq<char>,
    pub options: Seq<OptionView>,
}

impl View for CommandOption {
    type V = OptionView;

    open spec fn view(&self) -> OptionView {
        OptionView {
            integer: self.integer,
            name: self.name@,
            description: self.description@,
            required: self.required,
            min_value: self.min_value,
        }
    }
}

impl View for CommandSpec {
    type V = CommandView;

    open spec fn view(&self) -> CommandView {
        CommandView {
            name: self.name@,
            description: self.description@,
            options: self.options@.map_values(|o: CommandOption| o@),
        }
    }
}

pub open spec fn command_views(cs: Seq<CommandSpec>) -> Seq<CommandView> {
    cs.map_values(|c: CommandSpec| c@)
}

/// The number of tag options of a custom command: the booru's tag limit,
/// nine when it has none.
pub open spec fn tag_option_count(max_tags: usize) -> nat {
    if max_tags == 0 {
        9
    } else {
        max_tags as nat
    }
}

/// `tag_1` (required) .. `tag_n`.
pub open spec fn tag_options(lang: crate::i18n::Language, n: nat) -> Seq<OptionView> {
    Seq::new(
        n,
        |i: int|
            OptionView {
                integer: false,
                name: "tag_"@ + dec((i + 1) as nat),
                description: if i == 0 {
                    template(lang, Msg::RequiredTagOptionDescription)
                } else {
                    template(lang, Msg::CustomTagOptionDescription)
                },
                required: i == 0,
                min_value: None,
            },
    )
}

/// The custom command of a booru: named after it, described by its
/// description (its name when it has none).
pub open spec fn custom_command_view(lang: crate::i18n::Language, b: BooruRow) -> CommandView {
    CommandView {
        name: name_component(b.name@) + "-custom"@,
        description: if b.description@.len() == 0 {
            b.name@
        } else {
            b.description@
        },
        options: tag_options(lang, tag_option_count(b.max_tags)),
    }
}

/// The tag commands: each pattern name enabled on the server that has an
/// enabled booru (`enabled_counts[i]` for `pattern_names[i]`).
pub open spec fn pattern_command_views(
    lang: crate::i18n::Language,
    whitelisted: Seq<String>,
    names: Seq<String>,
    counts: Seq<usize>,
) -> Seq<CommandView>
    decreases names.len(),
{
    if names.len() == 0 || counts.len() == 0 {
        Seq::empty()
    } else {
        let before = pattern_command_views(lang, whitelisted, names.drop_last(), counts.drop_last());
        let n = names.last()@;
        if string_views(whitelisted).contains(n) && counts.last() > 0 {
            before.push(
                CommandView {
                    name: name_component(n),
                    description: replace_seq(template(lang, Msg::PatternCommandDescription), "{pattern}"@, n),
                    options: Seq::empty(),
                },
            )
        } else {
            before
        }
    }
}

pub open spec fn art_history_command_view(lang: crate::i18n::Language) -> CommandView {
    CommandView {
        name: "art-history"@,
        description: template(lang, Msg::ArtHistoryCommandDescription),
        options: seq![
            OptionView {
                integer: true,
                name: "previous_arts"@,
                description: template(lang, Msg::ArtHistoryOptionDescription),
                required: true,
                min_value: Some(1),
            },
        ],
    }
}

pub open spec fn administrate_command_view(lang: crate::i18n::Language) -> CommandView {
    CommandView {
        name: "administrate"@,
        description: template(lang, Msg::AdministrateCommandDescription),
        options: Seq::empty(),
    }
}

/// The slash commands of a server: on a validated one, the custom command
/// of each enabled booru, the tag commands, and `art-history`; on every
/// server, `administrate`.
pub open spec fn server_commands(
    lang: crate::i18n::Language,
    validated: bool,
    boorus: Seq<BooruRow>,
    whitelisted: Seq<String>,
    names: Seq<String>,
    counts: Seq<usize>,
) -> Seq<CommandView> {
    if validated {
        boorus.map_values(|b: BooruRow| custom_command_view(lang, b)) + pattern_command_views(
            lang,
            whitelisted,
            names,
            counts,
        ) + seq![art_history_command_view(lang), administrate_command_view(lang)]
    } else {
        seq![administrate_command_view(lang)]
    }
}

/// On a validated server the commands begin with one `<booru>-custom`
/// command per booru, in order; it has one text option per tag the booru
/// allows (nine when it sets no limit), named `tag_1`, `tag_2`, ..., and
/// only `tag_1` is required (and described as such). On every server the
/// last command is `administrate`.
pub proof fn law_custom_command_requires_only_the_first_tag(
    lang: crate::i18n::Language,
    validated: bool,
    boorus: Seq<BooruRow>,
    whitelisted: Seq<String>,
    names: Seq<String>,
    counts: Seq<usize>,
    k: int,
    i: int,
)
    ensures
        ({
            let cs = server_commands(lang, validated, boorus, whitelisted, names, counts);
            &&& cs.len() > 0
            &&& cs.last().name == "administrate"@
            &&& (validated && 0 <= k < boorus.len()) ==> {
                let c = cs[k];
                &&& c.name == name_component(boorus[k].name@) + "-custom"@
                &&& c.description == if boorus[k].description@.len() == 0 {
                    boorus[k].name@
                } else {
                    boorus[k].description@
                }
                &&& c.options.len() == (if boorus[k].max_tags == 0 {
                    9
                } else {
                    boorus[k].max_tags as int
                })
                &&& 0 <= i < c.options.len() ==> {
                    &&& c.options[i].required <==> i == 0
                    &&& !c.options[i].integer
                    &&& c.options[i].name == "tag_"@ + dec((i + 1) as nat)
                    &&& c.options[i].description == if i == 0 {
                        template(lang, Msg::RequiredTagOptionDescription)
                    } else {
                        template(lang, Msg::CustomTagOptionDescription)
                    }
                }
            }
        }),
{
    let cs = server_commands(lang, validated, boorus, whitelisted, names, counts);
    if validated {
        let a = boorus.map_values(|b: BooruRow| custom_command_view(lang, b));
        let p = pattern_command_views(lang, whitelisted, names, counts);
        let t = seq![art_history_command_view(lang), administrate_command_view(lang)];
        assert(cs == a + p + t);
        assert(cs.last() == t[1]);
        if 0 <= k < boorus.len() {
            assert(cs[k] == a[k]);
        }
    }
}

fn push_command(cs: &mut Vec<CommandSpec>, c: CommandSpec)
    ensures
        command_views(final(cs)@) == command_views(old(cs)@).push(c@),
{
    let ghost before = cs@;
    let ghost v = c@;
    cs.push(c);
    assert(command_views(cs@) =~= command_views(before).push(v));
}

fn custom_command(i18n: &I18n, b: &BooruRow) -> (r: CommandSpec)
    ensures
        r@ == custom_command_view(i18n.language, *b),
{
    let name = crate::responses::custom_command_name(b.name.as_str());
    let description = if b.description.as_str().is_empty() {
        copy_string(b.name.as_str())
    } else {
        copy_string(b.description.as_str())
    };
    let count: usize = if b.max_tags == 0 {
        9
    } else {
        b.max_tags
    };
    let mut options: Vec<CommandOption> = Vec::new();
    let ghost all = tag_options(i18n.language, tag_option_count(b.max_tags));
    let mut i: usize = 0;
    while i < count
        invariant
            i <= count,
            count == tag_option_count(b.max_tags),
            all == tag_options(i18n.language, tag_option_count(b.max_tags)),
            options@.map_values(|o: CommandOption| o@) == all.take(i as int),
        decreases count - i,
    {
        let o = CommandOption {
            integer: false,
            name: cat2("tag_", usize_to_string(i + 1).as_str()),
            description: if i == 0 {
                copy_string(i18n.required_tag_option_description())
            } else {
                copy_string(i18n.custom_tag_option_description())
            },
            required: i == 0,
            min_value: None,
        };
        let ghost before = options@;
        let ghost ov = o@;
        options.push(o);
        assert(options@.map_values(|o: CommandOption| o@) =~= before.map_values(|o: CommandOption| o@).push(ov));
        assert(all.take(i + 1) =~= all.take(i as int).push(all[i as int]));
        i = i + 1;
    }
    assert(all.take(count as int) =~= all);
    CommandSpec { name, description, options }
}

/// Builds the slash commands of a server (see `server_commands`).
pub fn build_commands(
    i18n: &I18n,
    server_validated: bool,
    boorus: &Vec<BooruRow>,
    whitelisted: &Vec<String>,
    pattern_names: &Vec<String>,
    enabled_counts: &Vec<usize>,
) -> (r: Vec<CommandSpec>)
    requires
        pattern_names@.len() == enabled_counts@.len(),
    ensures
        command_views(r@) == server_commands(
            i18n.language,
            server_validated,
            boorus@,
            whitelisted@,
            pattern_names@,
            enabled_counts@,
        ),
{
    let mut cs: Vec<CommandSpec> = Vec::new();
    let ghost lang = i18n.language;
    if server_validated {
        let mut i: usize = 0;
        while i < boorus.len()
            invariant
                i <= boorus.len(),
                lang == i18n.language,
                command_views(cs@) == boorus@.take(i as int).map_values(|b: BooruRow| custom_command_view(lang, b)),
            decreases boorus.len() - i,
        {
            push_command(&mut cs, custom_command(i18n, &boorus[i]));
            assert(boorus@.take(i + 1).map_values(|b: BooruRow| custom_command_view(lang, b)) =~= boorus@.take(
                i as int,
            ).map_values(|b: BooruRow| custom_command_view(lang, b)).push(custom_command_view(lang, boorus@[i as int])));
            i = i + 1;
        }
        assert(boorus@.take(boorus.len() as int) =~= boorus@);
        let ghost start = command_views(cs@);
        let mut k: usize = 0;
        while k < pattern_names.len()
            invariant
                k <= pattern_names.len(),
                pattern_names@.len() == enabled_counts@.len(),
                lang == i18n.language,
                command_views(cs@) == start + pattern_command_views(
                    lang,
                    whitelisted@,
                    pattern_names@.take(k as int),
                    enabled_counts@.take(k as int),
                ),
            decreases pattern_names.len() - k,
        {
            assert(pattern_names@.take(k + 1).drop_last() =~= pattern_names@.take(k as int));
            assert(enabled_counts@.take(k + 1).drop_last() =~= enabled_counts@.take(k as int));
            let n = pattern_names[k].as_str();
            if crate::dispatch::contains_text(whitelisted, n) && enabled_counts[k] > 0 {
                let c = CommandSpec {
                    name: crate::responses::discord_name_component(n),
                    description: i18n.pattern_command_description(n),
                    options: Vec::new(),
                };
                assert(c@.options =~= Seq::<OptionView>::empty());
                push_command(&mut cs, c);
            }
            k = k + 1;
        }
        assert(pattern_names@.take(pattern_names.len() as int) =~= pattern_names@);
        assert(enabled_counts@.take(enabled_counts.len() as int) =~= enabled_counts@);
        let mut options: Vec<CommandOption> = Vec::new();
        options.push(
            CommandOption {
                integer: true,
                name: String::from_str("previous_arts"),
                description: copy_string(i18n.art_history_option_description()),
                required: true,
                min_value: Some(1),
            },
        );
        let c = CommandSpec {
            name: String::from_str("art-history"),
            description: copy_string(i18n.art_history_command_description()),
            options,
        };
        assert(c@.options =~= art_history_command_view(lang).options);
        push_command(&mut cs, c);
    }
    let c = CommandSpec {
        name: String::from_str("administrate"),
        description: copy_string(i18n.administrate_command_description()),
        options: Vec::new(),
    };
    assert(c@.options =~= Seq::<OptionView>::empty());
    push_command(&mut cs, c);
    proof {
        if !server_validated {
            assert(command_views(cs@) =~= seq![administrate_command_view(lang)]);
        } else {
            assert(command_views(cs@) =~= server_commands(
                lang,
                server_validated,
                boorus@,
                whitelisted@,
                pattern_names@,
                enabled_counts@,
            ));
        }
    }
    cs
}

/// Listing the connected servers is done after a page shorter than the
/// page size (200).
pub fn guild_listing_done(page_len: usize) -> (r: bool)
    ensures
        r == (page_len < 200),
{
    page_len < 200
}

// ---------------------------------------------------------------------------
// Pacing of API requests
// ---------------------------------------------------------------------------

/// One request through the pacer, times in nanoseconds: with an interval,
/// the request waits until the next allowed time (none when that has
/// passed), and the next allowed time moves one interval past the later
/// of it and now.
pub open spec fn pace_spec(next_allowed: u64, now: u64, interval: u64) -> (u64, Option<u64>) {
    if interval == 0 {
        (next_allowed, None)
    } else if next_allowed <= now {
        ((now + interval) as u64, None)
    } else {
        ((next_allowed + interval) as u64, Some((next_allowed - now) as u64))
    }
}

/// The pacer's step: the new next allowed time and how long to sleep.
pub fn pace(next_allowed: u64, now: u64, interval: u64) -> (r: (u64, Option<u64>))
    requires
        interval > 0 ==> now + interval <= u64::MAX && next_allowed + interval <= u64::MAX,
    ensures
        r == pace_spec(next_allowed, now, interval),
{
    if interval == 0 {
        return (next_allowed, None);
    }
    if next_allowed <= now {
        (now + interval, None)
    } else {
        (next_allowed + interval, Some(next_allowed - now))
    }
}

/// Requests through the pacer leave at least one interval between their
/// starts: the next one may start no earlier than one interval after this
/// one starts.
pub proof fn law_pacing_spaces_requests(next_allowed: u64, now: u64, interval: u64)
    requires
        interval > 0,
        now + interval <= u64::MAX,
        next_allowed + interval <= u64::MAX,
    ensures
        ({
            let (next, sleep) = pace_spec(next_allowed, now, interval);
            let start = match sleep {
                Some(d) => now + d,
                None => now as int,
            };
            &&& start >= now
            &&& start >= next_allowed
            &&& next == start + interval
        }),
{
}

} // verus!
