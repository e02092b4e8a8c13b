//! The replies of the `administrate` text commands, built from what the
//! database gave back for a request.
use vstd::prelude::*;
use crate::admin::{bool_string, bool_text, BooruRow, RowView};
use crate::num::{dec, dec_int, i64_to_string, usize_to_string};
use crate::outside::opt_string_view;
use crate::records::{BooruCustomParameter, ChannelConfig, Server, TagPattern, TagPatternEntry};
use crate::text::{cat2, cat3, cat4, cat5, copy_string, join_seq, join_strings, string_views};

verus! {

/// Lines joined by newlines, or `empty` when there are none.
pub open spec fn lines_or(lines: Seq<Seq<char>>, empty: Seq<char>) -> Seq<char> {
    if lines.len() == 0 {
        empty
    } else {
        join_seq(lines, "\n"@)
    }
}

fn lines_or_text(lines: &Vec<String>, empty: &str) -> (r: String)
    ensures
        r@ == lines_or(string_views(lines@), empty@),
{
    if lines.len() == 0 {
        String::from_str(empty)
    } else {
        join_strings(lines, "\n")
    }
}

/// `error: {err}`: a request the database refused.
pub fn error_reply(err: &str) -> (r: String)
    ensures
        r@ == "error: "@ + err@,
{
    cat2("error: ", err)
}

// ---------------------------------------------------------------------------
// Debug renderings
// ---------------------------------------------------------------------------

/// What `{:?}` writes for a text: the text quoted, with escapes.
pub uninterp spec fn debug_quoted(s: Seq<char>) -> Seq<char>;

/// Printable ASCII other than quotes and backslash: `{:?}` leaves it as it is.
pub open spec fn plain_ascii(s: Seq<char>) -> bool {
    forall|i: int| 0 <= i < s.len() ==> ' ' <= #[trigger] s[i] <= '~' && s[i] != '"' && s[i] != '\\'
        && s[i] != '\''
}

/// `format!("{:?}", s)` for a `&str`: the text in double quotes with
/// `char::escape_debug` escapes. The contract names the result; it states
/// only that printable ASCII without quotes or backslashes is quoted as is.
#[verifier::external_body]
fn debug_text(s: &str) -> (r: String)
    ensures
        r@ == debug_quoted(s@),
        plain_ascii(s@) ==> r@ == "\""@ + s@ + "\""@,
{
    format!("{:?}", s)
}

/// `{:?}` of a list of texts: `["a", "b"]`.
pub open spec fn debug_texts(v: Seq<String>) -> Seq<char> {
    "["@ + join_seq(v.map_values(|x: String| debug_quoted(x@)), ", "@) + "]"@
}

pub fn debug_strings(v: &Vec<String>) -> (r: String)
    ensures
        r@ == debug_texts(v@),
{
    let mut items: Vec<String> = Vec::new();
    let mut i: usize = 0;
    while i < v.len()
        invariant
            i <= v.len(),
            string_views(items@) == v@.take(i as int).map_values(|x: String| debug_quoted(x@)),
        decreases v.len() - i,
    {
        let ghost before = items@;
        let x = debug_text(v[i].as_str());
        items.push(x);
        assert(string_views(items@) =~= string_views(before).push(x@));
        assert(v@.take(i + 1).map_values(|x: String| debug_quoted(x@)) =~= v@.take(
            i as int,
        ).map_values(|x: String| debug_quoted(x@)).push(debug_quoted(v@[i as int]@)));
        i = i + 1;
    }
    assert(v@.take(v.len() as int) =~= v@);
    let inner = join_strings(&items, ", ");
    cat3("[", inner.as_str(), "]")
}

/// `{:?}` of a list of ids: `[1, 2]`.
pub open spec fn debug_ids_text(v: Seq<i64>) -> Seq<char> {
    "["@ + join_seq(v.map_values(|x: i64| dec_int(x as int)), ", "@) + "]"@
}

pub fn debug_ids(v: &Vec<i64>) -> (r: String)
    ensures
        r@ == debug_ids_text(v@),
{
    let mut items: Vec<String> = Vec::new();
    let mut i: usize = 0;
    while i < v.len()
        invariant
            i <= v.len(),
            string_views(items@) == v@.take(i as int).map_values(|x: i64| dec_int(x as int)),
        decreases v.len() - i,
    {
        let ghost before = items@;
        let x = i64_to_string(v[i]);
        items.push(x);
        assert(string_views(items@) =~= string_views(before).push(x@));
        assert(v@.take(i + 1).map_values(|x: i64| dec_int(x as int)) =~= v@.take(
            i as int,
        ).map_values(|x: i64| dec_int(x as int)).push(dec_int(v@[i as int] as int)));
        i = i + 1;
    }
    assert(v@.take(v.len() as int) =~= v@);
    let inner = join_strings(&items, ", ");
    cat3("[", inner.as_str(), "]")
}

/// `{:?}` of an optional id: `Some(5)` or `None`.
pub open spec fn debug_opt_id(v: Option<i64>) -> Seq<char> {
    match v {
        Some(x) => "Some("@ + dec_int(x as int) + ")"@,
        None => "None"@,
    }
}

fn debug_opt(v: Option<i64>) -> (r: String)
    ensures
        r@ == debug_opt_id(v),
{
    match v {
        Some(x) => cat3("Some(", i64_to_string(x).as_str(), ")"),
        None => String::from_str("None"),
    }
}

// ---------------------------------------------------------------------------
// booru
// ---------------------------------------------------------------------------

pub open spec fn enabled_word(enabled: bool) -> Seq<char> {
    if enabled {
        "enabled"@
    } else {
        "disabled"@
    }
}

fn enabled_text(enabled: bool) -> (r: String)
    ensures
        r@ == enabled_word(enabled),
{
    if enabled {
        String::from_str("enabled")
    } else {
        String::from_str("disabled")
    }
}

pub open spec fn booru_line(b: RowView) -> Seq<char> {
    b.name + " ["@ + enabled_word(b.enabled) + "]"@
}

pub open spec fn booru_lines(rows: Seq<BooruRow>) -> Seq<Seq<char>> {
    rows.map_values(|b: BooruRow| booru_line(b@))
}

/// `booru list`: one `name [enabled|disabled]` line per booru.
pub fn booru_list_reply(rows: &Vec<BooruRow>) -> (r: String)
    ensures
        r@ == lines_or(booru_lines(rows@), "no boorus"@),
{
    let mut lines: Vec<String> = Vec::new();
    let mut i: usize = 0;
    while i < rows.len()
        invariant
            i <= rows.len(),
            string_views(lines@) == booru_lines(rows@.take(i as int)),
        decreases rows.len() - i,
    {
        let b = &rows[i];
        let ghost before = lines@;
        let x = cat4(b.name.as_str(), " [", enabled_text(b.enabled).as_str(), "]");
        lines.push(x);
        assert(string_views(lines@) =~= string_views(before).push(x@));
        assert(booru_lines(rows@.take(i + 1)) =~= booru_lines(rows@.take(i as int)).push(
            booru_line(rows@[i as int]@),
        ));
        i = i + 1;
    }
    assert(rows@.take(rows.len() as int) =~= rows@);
    lines_or_text(&lines, "no boorus")
}

/// `booru {name} not found`.
pub fn booru_not_found(name: &str) -> (r: String)
    ensures
        r@ == "booru "@ + name@ + " not found"@,
{
    cat3("booru ", name, " not found")
}

/// What a booru change tells: `booru {name} {what}. restart bot to update commands.`
pub fn booru_changed(name: &str, what: &str) -> (r: String)
    ensures
        r@ == "booru "@ + name@ + " "@ + what@ + ". restart bot to update commands."@,
{
    cat5("booru ", name, " ", what, ". restart bot to update commands.")
}

/// `booru {name} enabled.` or `disabled.`, with the restart notice.
pub fn booru_enabled_reply(name: &str, enabled: bool) -> (r: String)
    ensures
        r@ == "booru "@ + name@ + " "@ + enabled_word(enabled) + ". restart bot to update commands."@,
{
    booru_changed(name, enabled_text(enabled).as_str())
}

/// The reply to a deleted booru.
pub fn booru_deleted() -> (r: String)
    ensures
        r@ == "booru deleted. restart bot to update commands."@,
{
    String::from_str("booru deleted. restart bot to update commands.")
}

// ---------------------------------------------------------------------------
// booru parameter
// ---------------------------------------------------------------------------

/// `booru parameter {key} {what} for {booru}. reload bot to apply.`
pub fn parameter_changed(key: &str, what: &str, booru: &str) -> (r: String)
    ensures
        r@ == "booru parameter "@ + key@ + " "@ + what@ + " for "@ + booru@
            + ". reload bot to apply."@,
{
    let a = cat5("booru parameter ", key, " ", what, " for ");
    cat3(a.as_str(), booru, ". reload bot to apply.")
}

pub open spec fn parameter_lines(ps: Seq<BooruCustomParameter>) -> Seq<Seq<char>> {
    ps.map_values(|p: BooruCustomParameter| p.key@ + " = "@ + p.value@)
}

/// `booru parameter list`: `key = value` lines.
pub fn parameter_list_reply(booru: &str, ps: &Vec<BooruCustomParameter>) -> (r: String)
    ensures
        r@ == if ps@.len() == 0 {
            "no booru parameters for "@ + booru@
        } else {
            join_seq(parameter_lines(ps@), "\n"@)
        },
{
    if ps.len() == 0 {
        return cat2("no booru parameters for ", booru);
    }
    let mut lines: Vec<String> = Vec::new();
    let mut i: usize = 0;
    while i < ps.len()
        invariant
            i <= ps.len(),
            string_views(lines@) == parameter_lines(ps@.take(i as int)),
        decreases ps.len() - i,
    {
        let ghost before = lines@;
        let x = cat3(ps[i].key.as_str(), " = ", ps[i].value.as_str());
        lines.push(x);
        assert(string_views(lines@) =~= string_views(before).push(x@));
        assert(parameter_lines(ps@.take(i + 1)) =~= parameter_lines(ps@.take(i as int)).push(
            ps@[i as int].key@ + " = "@ + ps@[i as int].value@,
        ));
        i = i + 1;
    }
    assert(ps@.take(ps.len() as int) =~= ps@);
    join_strings(&lines, "\n")
}

// ---------------------------------------------------------------------------
// tag patterns
// ---------------------------------------------------------------------------

/// `+` for an included tag, `-` for an excluded one.
pub open spec fn sign(e: TagPatternEntry) -> Seq<char> {
    if e.is_excluded {
        "-"@
    } else {
        "+"@
    }
}

fn sign_text(e: &TagPatternEntry) -> (r: String)
    ensures
        r@ == sign(*e),
{
    if e.is_excluded {
        String::from_str("-")
    } else {
        String::from_str("+")
    }
}

/// `tag pattern '{name}' {what} {booru}`.
pub fn tag_pattern_changed(name: &str, what: &str, booru: &str) -> (r: String)
    ensures
        r@ == "tag pattern '"@ + name@ + "' "@ + what@ + " "@ + booru@,
{
    let a = cat5("tag pattern '", name, "' ", what, " ");
    cat2(a.as_str(), booru)
}

/// `tag pattern '{name}' deleted`.
pub fn tag_pattern_deleted(name: &str) -> (r: String)
    ensures
        r@ == "tag pattern '"@ + name@ + "' deleted"@,
{
    cat3("tag pattern '", name, "' deleted")
}

pub open spec fn short_entry_lines(es: Seq<TagPatternEntry>) -> Seq<Seq<char>> {
    es.map_values(|e: TagPatternEntry| "  "@ + sign(e) + e.tag@)
}

/// The lines of the patterns of one booru: a `name (n entries)` header and
/// a `  +tag` or `  -tag` line per entry.
pub open spec fn booru_pattern_lines(
    ps: Seq<TagPattern>,
    es: Seq<Vec<TagPatternEntry>>,
    booru_id: i64,
) -> Seq<Seq<char>>
    decreases ps.len(),
{
    if ps.len() == 0 || es.len() == 0 {
        Seq::<Seq<char>>::empty()
    } else {
        let before = booru_pattern_lines(ps.drop_last(), es.drop_last(), booru_id);
        let p = ps.last();
        if p.booru_id == booru_id {
            before + seq![p.name@ + " ("@ + dec(es.last()@.len()) + " entries)"@]
                + short_entry_lines(es.last()@)
        } else {
            before
        }
    }
}

fn push_lines(lines: &mut Vec<String>, more: Vec<String>)
    ensures
        string_views(final(lines)@) == string_views(old(lines)@) + string_views(more@),
{
    let mut i: usize = 0;
    let ghost start = string_views(lines@);
    while i < more.len()
        invariant
            i <= more.len(),
            string_views(lines@) == start + string_views(more@).take(i as int),
        decreases more.len() - i,
    {
        let item = copy_string(more[i].as_str());
        let ghost before = lines@;
        lines.push(item);
        assert(string_views(lines@) =~= string_views(before).push(item@));
        assert(string_views(more@).take(i + 1) =~= string_views(more@).take(i as int).push(
            more@[i as int]@,
        ));
        assert(string_views(lines@) =~= start + string_views(more@).take(i + 1));
        i = i + 1;
    }
    assert(string_views(more@).take(more.len() as int) =~= string_views(more@));
}

fn short_entries(es: &Vec<TagPatternEntry>) -> (r: Vec<String>)
    ensures
        string_views(r@) == short_entry_lines(es@),
{
    let mut out: Vec<String> = Vec::new();
    let mut j: usize = 0;
    while j < es.len()
        invariant
            j <= es.len(),
            string_views(out@) == short_entry_lines(es@.take(j as int)),
        decreases es.len() - j,
    {
        let ghost before = out@;
        let x = cat3("  ", sign_text(&es[j]).as_str(), es[j].tag.as_str());
        out.push(x);
        assert(string_views(out@) =~= string_views(before).push(x@));
        assert(short_entry_lines(es@.take(j + 1)) =~= short_entry_lines(es@.take(j as int)).push(
            "  "@ + sign(es@[j as int]) + es@[j as int].tag@,
        ));
        j = j + 1;
    }
    assert(es@.take(es.len() as int) =~= es@);
    out
}

/// `booru tag-pattern list`: the patterns of the booru with id `booru_id`;
/// `entries[i]` holds the entries of `patterns[i]`.
pub fn booru_patterns_reply(
    booru: &str,
    booru_id: i64,
    patterns: &Vec<TagPattern>,
    entries: &Vec<Vec<TagPatternEntry>>,
) -> (r: String)
    requires
        patterns@.len() == entries@.len(),
    ensures
        r@ == lines_or(
            booru_pattern_lines(patterns@, entries@, booru_id),
            "no tag patterns for "@ + booru@,
        ),
{
    let mut lines: Vec<String> = Vec::new();
    let mut i: usize = 0;
    while i < patterns.len()
        invariant
            i <= patterns.len(),
            patterns@.len() == entries@.len(),
            string_views(lines@) == booru_pattern_lines(
                patterns@.take(i as int),
                entries@.take(i as int),
                booru_id,
            ),
        decreases patterns.len() - i,
    {
        assert(patterns@.take(i + 1).drop_last() =~= patterns@.take(i as int));
        assert(entries@.take(i + 1).drop_last() =~= entries@.take(i as int));
        let p = &patterns[i];
        if p.booru_id == booru_id {
            let ghost before = string_views(lines@);
            let header = cat4(
                p.name.as_str(),
                " (",
                usize_to_string(entries[i].len()).as_str(),
                " entries)",
            );
            lines.push(header);
            assert(string_views(lines@) =~= before.push(header@));
            let more = short_entries(&entries[i]);
            push_lines(&mut lines, more);
            assert(string_views(lines@) =~= before + seq![header@] + short_entry_lines(
                entries@[i as int]@,
            ));
        }
        i = i + 1;
    }
    assert(patterns@.take(patterns.len() as int) =~= patterns@);
    assert(entries@.take(entries.len() as int) =~= entries@);
    let empty = cat2("no tag patterns for ", booru);
    lines_or_text(&lines, empty.as_str())
}

/// The name a pattern's booru is shown under: its name, or `<missing:{id}>`.
pub open spec fn booru_label(name: Option<Seq<char>>, id: i64) -> Seq<char> {
    match name {
        Some(n) => n,
        None => "<missing:"@ + dec_int(id as int) + ">"@,
    }
}

pub open spec fn full_entry_lines(es: Seq<TagPatternEntry>) -> Seq<Seq<char>> {
    es.map_values(
        |e: TagPatternEntry|
            "  ["@ + dec_int(e.id as int) + "] (pattern:"@ + dec_int(e.pattern_id as int) + ") "@
                + sign(e) + e.tag@,
    )
}

/// The lines of all patterns: `name -> booru (n entries)` and one
/// `  [id] (pattern:pid) +tag` line per entry.
pub open spec fn all_pattern_lines(
    ps: Seq<TagPattern>,
    names: Seq<Option<String>>,
    es: Seq<Vec<TagPatternEntry>>,
) -> Seq<Seq<char>>
    decreases ps.len(),
{
    if ps.len() == 0 || names.len() == 0 || es.len() == 0 {
        Seq::<Seq<char>>::empty()
    } else {
        let p = ps.last();
        all_pattern_lines(ps.drop_last(), names.drop_last(), es.drop_last()) + seq![
            p.name@ + " -> "@ + booru_label(opt_string_view(names.last()), p.booru_id) + " ("@
                + dec(es.last()@.len()) + " entries)"@,
        ] + full_entry_lines(es.last()@)
    }
}

fn full_entries(es: &Vec<TagPatternEntry>) -> (r: Vec<String>)
    ensures
        string_views(r@) == full_entry_lines(es@),
{
    let mut out: Vec<String> = Vec::new();
    let mut j: usize = 0;
    while j < es.len()
        invariant
            j <= es.len(),
            string_views(out@) == full_entry_lines(es@.take(j as int)),
        decreases es.len() - j,
    {
        let e = &es[j];
        let a = cat4("  [", i64_to_string(e.id).as_str(), "] (pattern:", i64_to_string(e.pattern_id).as_str());
        let line = cat4(a.as_str(), ") ", sign_text(e).as_str(), e.tag.as_str());
        let ghost before = out@;
        out.push(line);
        assert(string_views(out@) =~= string_views(before).push(line@));
        assert(full_entry_lines(es@.take(j + 1)) =~= full_entry_lines(es@.take(j as int)).push(
            line@,
        ));
        j = j + 1;
    }
    assert(es@.take(es.len() as int) =~= es@);
    out
}

/// `tags list`: every pattern with its booru's name (`booru_names[i]`, none
/// when the booru is gone) and its entries (`entries[i]`).
pub fn all_patterns_reply(
    patterns: &Vec<TagPattern>,
    booru_names: &Vec<Option<String>>,
    entries: &Vec<Vec<TagPatternEntry>>,
) -> (r: String)
    requires
        patterns@.len() == entries@.len(),
        patterns@.len() == booru_names@.len(),
    ensures
        r@ == lines_or(all_pattern_lines(patterns@, booru_names@, entries@), "no tag patterns"@),
{
    let mut lines: Vec<String> = Vec::new();
    let mut i: usize = 0;
    while i < patterns.len()
        invariant
            i <= patterns.len(),
            patterns@.len() == entries@.len(),
            patterns@.len() == booru_names@.len(),
            string_views(lines@) == all_pattern_lines(
                patterns@.take(i as int),
                booru_names@.take(i as int),
                entries@.take(i as int),
            ),
        decreases patterns.len() - i,
    {
        assert(patterns@.take(i + 1).drop_last() =~= patterns@.take(i as int));
        assert(entries@.take(i + 1).drop_last() =~= entries@.take(i as int));
        assert(booru_names@.take(i + 1).drop_last() =~= booru_names@.take(i as int));
        let p = &patterns[i];
        let label = match &booru_names[i] {
            Some(n) => copy_string(n.as_str()),
            None => cat3("<missing:", i64_to_string(p.booru_id).as_str(), ">"),
        };
        let a = cat4(p.name.as_str(), " -> ", label.as_str(), " (");
        let header = cat3(a.as_str(), usize_to_string(entries[i].len()).as_str(), " entries)");
        let ghost before = lines@;
        lines.push(header);
        assert(string_views(lines@) =~= string_views(before).push(header@));
        let more = full_entries(&entries[i]);
        push_lines(&mut lines, more);
        assert(string_views(lines@) =~= string_views(before) + seq![header@] + full_entry_lines(
            entries@[i as int]@,
        ));
        i = i + 1;
    }
    assert(patterns@.take(patterns.len() as int) =~= patterns@);
    assert(entries@.take(entries.len() as int) =~= entries@);
    assert(booru_names@.take(booru_names.len() as int) =~= booru_names@);
    lines_or_text(&lines, "no tag patterns")
}


// ---------------------------------------------------------------------------
// moderator / setting
// ---------------------------------------------------------------------------

/// `moderator {user} {what}`.
pub fn moderator_changed(user: i64, what: &str) -> (r: String)
    ensures
        r@ == "moderator "@ + dec_int(user as int) + " "@ + what@,
{
    cat4("moderator ", i64_to_string(user).as_str(), " ", what)
}

pub open spec fn moderator_lines(ms: Seq<(i64, Option<i64>)>) -> Seq<Seq<char>> {
    ms.map_values(|m: (i64, Option<i64>)| dec_int(m.0 as int) + " "@ + debug_opt_id(m.1))
}

/// `moderator list`: `user Some(guild)` or `user None` lines.
pub fn moderator_list_reply(ms: &Vec<(i64, Option<i64>)>) -> (r: String)
    ensures
        r@ == lines_or(moderator_lines(ms@), "no moderators"@),
{
    let mut lines: Vec<String> = Vec::new();
    let mut i: usize = 0;
    while i < ms.len()
        invariant
            i <= ms.len(),
            string_views(lines@) == moderator_lines(ms@.take(i as int)),
        decreases ms.len() - i,
    {
        let (u, g) = ms[i];
        let x = cat3(i64_to_string(u).as_str(), " ", debug_opt(g).as_str());
        let ghost before = lines@;
        lines.push(x);
        assert(string_views(lines@) =~= string_views(before).push(x@));
        assert(moderator_lines(ms@.take(i + 1)) =~= moderator_lines(ms@.take(i as int)).push(x@));
        i = i + 1;
    }
    assert(ms@.take(ms.len() as int) =~= ms@);
    lines_or_text(&lines, "no moderators")
}

/// `setting <key> get`: `key = value`, or `key not set`.
pub fn setting_value_reply(key: &str, value: Option<&str>) -> (r: String)
    ensures
        r@ == match value {
            Some(v) => key@ + " = "@ + v@,
            None => key@ + " not set"@,
        },
{
    match value {
        Some(v) => cat3(key, " = ", v),
        None => cat2(key, " not set"),
    }
}

/// `{key} {what}` after a setting changed.
pub fn setting_changed(key: &str, what: &str) -> (r: String)
    ensures
        r@ == key@ + " "@ + what@,
{
    cat3(key, " ", what)
}

pub open spec fn setting_lines(kv: Seq<(String, String)>) -> Seq<Seq<char>> {
    kv.map_values(|p: (String, String)| p.0@ + " = "@ + p.1@)
}

/// `setting list`: `key = value` lines.
pub fn setting_list_reply(kv: &Vec<(String, String)>) -> (r: String)
    ensures
        r@ == lines_or(setting_lines(kv@), "no settings"@),
{
    let mut lines: Vec<String> = Vec::new();
    let mut i: usize = 0;
    while i < kv.len()
        invariant
            i <= kv.len(),
            string_views(lines@) == setting_lines(kv@.take(i as int)),
        decreases kv.len() - i,
    {
        let x = cat3(kv[i].0.as_str(), " = ", kv[i].1.as_str());
        let ghost before = lines@;
        lines.push(x);
        assert(string_views(lines@) =~= string_views(before).push(x@));
        assert(setting_lines(kv@.take(i + 1)) =~= setting_lines(kv@.take(i as int)).push(x@));
        i = i + 1;
    }
    assert(kv@.take(kv.len() as int) =~= kv@);
    lines_or_text(&lines, "no settings")
}

// ---------------------------------------------------------------------------
// server
// ---------------------------------------------------------------------------

/// `server {guild} {what}`.
pub fn server_changed(guild: i64, what: &str) -> (r: String)
    ensures
        r@ == "server "@ + dec_int(guild as int) + " "@ + what@,
{
    cat4("server ", i64_to_string(guild).as_str(), " ", what)
}

pub open spec fn server_line(s: Server) -> Seq<char> {
    dec_int(s.guild_id as int) + " "@ + s.name@ + " ["@ + (if s.validated {
        "validated"@
    } else {
        "pending"@
    }) + "] channels="@ + debug_ids_text(s.interaction_channels@)
}

pub open spec fn server_lines(ss: Seq<Server>) -> Seq<Seq<char>> {
    ss.map_values(|s: Server| server_line(s))
}

/// `server list`: one line per server with its status and channels.
pub fn server_list_reply(ss: &Vec<Server>) -> (r: String)
    ensures
        r@ == lines_or(server_lines(ss@), "no servers"@),
{
    let mut lines: Vec<String> = Vec::new();
    let mut i: usize = 0;
    while i < ss.len()
        invariant
            i <= ss.len(),
            string_views(lines@) == server_lines(ss@.take(i as int)),
        decreases ss.len() - i,
    {
        let sv = &ss[i];
        let status = if sv.validated {
            String::from_str("validated")
        } else {
            String::from_str("pending")
        };
        let a = cat5(i64_to_string(sv.guild_id).as_str(), " ", sv.name.as_str(), " [", status.as_str());
        let x = cat3(a.as_str(), "] channels=", debug_ids(&sv.interaction_channels).as_str());
        let ghost before = lines@;
        lines.push(x);
        assert(string_views(lines@) =~= string_views(before).push(x@));
        assert(server_lines(ss@.take(i + 1)) =~= server_lines(ss@.take(i as int)).push(x@));
        i = i + 1;
    }
    assert(ss@.take(ss.len() as int) =~= ss@);
    lines_or_text(&lines, "no servers")
}

pub open spec fn validated_lines(ss: Seq<Server>) -> Seq<Seq<char>> {
    ss.map_values(|s: Server| dec_int(s.guild_id as int) + " "@ + s.name@)
}

/// `server validated`: `guild name` lines.
pub fn validated_list_reply(ss: &Vec<Server>) -> (r: String)
    ensures
        r@ == lines_or(validated_lines(ss@), "no validated servers"@),
{
    let mut lines: Vec<String> = Vec::new();
    let mut i: usize = 0;
    while i < ss.len()
        invariant
            i <= ss.len(),
            string_views(lines@) == validated_lines(ss@.take(i as int)),
        decreases ss.len() - i,
    {
        let x = cat3(i64_to_string(ss[i].guild_id).as_str(), " ", ss[i].name.as_str());
        let ghost before = lines@;
        lines.push(x);
        assert(string_views(lines@) =~= string_views(before).push(x@));
        assert(validated_lines(ss@.take(i + 1)) =~= validated_lines(ss@.take(i as int)).push(x@));
        i = i + 1;
    }
    assert(ss@.take(ss.len() as int) =~= ss@);
    lines_or_text(&lines, "no validated servers")
}

/// `channel {channel} {what} server {guild}` after the channel list changed.
pub fn channel_changed(channel: i64, what: &str, guild: i64) -> (r: String)
    ensures
        r@ == "channel "@ + dec_int(channel as int) + " "@ + what@ + " server "@ + dec_int(
            guild as int,
        ),
{
    let a = cat4("channel ", i64_to_string(channel).as_str(), " ", what);
    cat3(a.as_str(), " server ", i64_to_string(guild).as_str())
}

/// A channel's language, `default` when it has none.
pub open spec fn lang_text(language: Option<Seq<char>>) -> Seq<char> {
    match language {
        Some(l) => l,
        None => "default"@,
    }
}

pub fn lang_string(language: &Option<String>) -> (r: String)
    ensures
        r@ == lang_text(opt_string_view(*language)),
{
    match language {
        Some(l) => copy_string(l.as_str()),
        None => String::from_str("default"),
    }
}

/// `channel {id} config set: lang={lang}, banned=[..]`.
pub fn channel_set_reply(cfg: &ChannelConfig) -> (r: String)
    ensures
        r@ == "channel "@ + dec_int(cfg.channel_id as int) + " config set: lang="@ + lang_text(
            opt_string_view(cfg.language),
        ) + ", banned="@ + debug_texts(cfg.banned_tags@),
{
    let a = cat4(
        "channel ",
        i64_to_string(cfg.channel_id).as_str(),
        " config set: lang=",
        lang_string(&cfg.language).as_str(),
    );
    cat3(a.as_str(), ", banned=", debug_strings(&cfg.banned_tags).as_str())
}

pub open spec fn channel_line(c: ChannelConfig, patterns: Vec<String>) -> Seq<char> {
    "channel="@ + dec_int(c.channel_id as int) + " lang="@ + lang_text(opt_string_view(c.language))
        + " banned="@ + debug_texts(c.banned_tags@) + " patterns="@ + debug_texts(patterns@)
}

pub open spec fn channel_lines(cs: Seq<ChannelConfig>, ps: Seq<Vec<String>>) -> Seq<Seq<char>> {
    Seq::new(cs.len(), |i: int| channel_line(cs[i], ps[i]))
}

/// `server .. channel list`: a line per channel; `patterns[i]` holds the
/// blocked tags of `channels[i]`.
pub fn channel_list_reply(channels: &Vec<ChannelConfig>, patterns: &Vec<Vec<String>>) -> (r: String)
    requires
        channels@.len() == patterns@.len(),
    ensures
        r@ == lines_or(channel_lines(channels@, patterns@), "no channels configured"@),
{
    let mut lines: Vec<String> = Vec::new();
    let mut i: usize = 0;
    while i < channels.len()
        invariant
            i <= channels.len(),
            channels@.len() == patterns@.len(),
            string_views(lines@) == channel_lines(channels@, patterns@).take(i as int),
        decreases channels.len() - i,
    {
        let c = &channels[i];
        let a = cat4(
            "channel=",
            i64_to_string(c.channel_id).as_str(),
            " lang=",
            lang_string(&c.language).as_str(),
        );
        let x = cat5(
            a.as_str(),
            " banned=",
            debug_strings(&c.banned_tags).as_str(),
            " patterns=",
            debug_strings(&patterns[i]).as_str(),
        );
        let ghost before = lines@;
        lines.push(x);
        assert(string_views(lines@) =~= string_views(before).push(x@));
        assert(channel_lines(channels@, patterns@).take(i + 1) =~= channel_lines(
            channels@,
            patterns@,
        ).take(i as int).push(x@));
        i = i + 1;
    }
    assert(channel_lines(channels@, patterns@).take(channels.len() as int) =~= channel_lines(
        channels@,
        patterns@,
    ));
    lines_or_text(&lines, "no channels configured")
}

/// `pattern {name} {what} channel`.
pub fn channel_pattern_changed(name: &str, what: &str) -> (r: String)
    ensures
        r@ == "pattern "@ + name@ + " "@ + what@ + " channel"@,
{
    cat5("pattern ", name, " ", what, " channel")
}

/// `server .. patterns list`: the blocked tags, one per line.
pub fn channel_patterns_reply(patterns: &Vec<String>) -> (r: String)
    ensures
        r@ == lines_or(string_views(patterns@), "no patterns assigned"@),
{
    lines_or_text(patterns, "no patterns assigned")
}

} // verus!
