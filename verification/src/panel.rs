//! The administration panel: its pages, buttons and forms as plain data,
//! and the routing of the panel's button and form identifiers.
use vstd::prelude::*;
use crate::admin::BooruRow;
use crate::num::{dec, dec_int, i64_to_string, u64_to_string, usize_to_string};
use crate::outside::opt_string_view;
use crate::records::{ChannelConfig, Server, TagPattern, TagPatternEntry};
use crate::text::{cat2, cat3, cat4, cat5, chars_of, copy_string, extend_str, join_seq, join_strings, string_of, string_views};

verus! {

// ---------------------------------------------------------------------------
// Byte-length truncation
// ---------------------------------------------------------------------------

/// The number of bytes of a character in UTF-8.
pub open spec fn char_width(c: char) -> nat {
    if (c as u32) < 0x80 {
        1
    } else if (c as u32) < 0x800 {
        2
    } else if (c as u32) < 0x10000 {
        3
    } else {
        4
    }
}

/// The number of bytes of a text in UTF-8 (`str::len`).
pub open spec fn utf8_len(s: Seq<char>) -> nat
    decreases s.len(),
{
    if s.len() == 0 {
        0
    } else {
        utf8_len(s.drop_last()) + char_width(s.last())
    }
}

/// Whether byte offset `max` falls between two characters of `s`.
pub open spec fn is_boundary(s: Seq<char>, max: nat) -> bool {
    exists|k: int| 0 <= k <= s.len() && utf8_len(#[trigger] s.take(k)) == max
}

/// Whether `truncate(s, max)` can cut the text there: it is short enough,
/// or `max` falls between two characters.
pub open spec fn truncatable(s: Seq<char>, max: nat) -> bool {
    utf8_len(s) <= max || is_boundary(s, max)
}

/// `s` when it fits in `max` bytes; else its first `max` bytes and `...`
/// (the cut falls between characters: see `truncatable`).
pub open spec fn truncate_spec(s: Seq<char>, max: nat) -> Seq<char> {
    if utf8_len(s) <= max {
        s
    } else {
        let k = choose|k: int| 0 <= k <= s.len() && utf8_len(#[trigger] s.take(k)) == max;
        s.take(k) + "..."@
    }
}

fn width(c: char) -> (r: usize)
    ensures
        r == char_width(c),
{
    if (c as u32) < 0x80 {
        1
    } else if (c as u32) < 0x800 {
        2
    } else if (c as u32) < 0x10000 {
        3
    } else {
        4
    }
}

proof fn lemma_utf8_len_mono(s: Seq<char>, i: int, j: int)
    requires
        0 <= i <= j <= s.len(),
    ensures
        utf8_len(s.take(i)) <= utf8_len(s.take(j)),
        i < j ==> utf8_len(s.take(i)) < utf8_len(s.take(j)),
    decreases j - i,
{
    if i < j {
        assert(s.take(j).drop_last() =~= s.take(j - 1));
        lemma_utf8_len_mono(s, i, j - 1);
    }
}

/// Whether a text fits in `max` bytes of UTF-8.
pub fn fits_bytes(s: &str, max: usize) -> (r: bool)
    ensures
        r == (utf8_len(s@) <= max),
{
    let v = chars_of(s);
    let m = max as u128;
    let mut total: u128 = 0;
    let mut i: usize = 0;
    assert(v@.take(0) =~= Seq::<char>::empty());
    while i < v.len() && total <= m
        invariant
            i <= v.len(),
            v@ == s@,
            m == max,
            total == utf8_len(v@.take(i as int)),
            total <= m + 4,
        decreases v.len() - i,
    {
        let w = width(v[i]) as u128;
        assert(v@.take(i + 1).drop_last() =~= v@.take(i as int));
        total = total + w;
        i = i + 1;
    }
    proof {
        assert(v@.take(v@.len() as int) =~= v@);
        lemma_utf8_len_mono(v@, i as int, v@.len() as int);
    }
    total <= m
}

/// Whether `truncate(s, max)` can cut `s` (see `truncatable`).
pub fn can_truncate(s: &str, max: usize) -> (r: bool)
    ensures
        r == truncatable(s@, max as nat),
{
    let v = chars_of(s);
    let m = max as u128;
    let mut total: u128 = 0;
    let mut i: usize = 0;
    let mut hit = max == 0;
    assert(v@.take(0) =~= Seq::<char>::empty());
    assert(hit == exists|k: int| 0 <= k <= 0 && utf8_len(#[trigger] v@.take(k)) == max);
    while i < v.len() && total <= m
        invariant
            i <= v.len(),
            v@ == s@,
            m == max,
            total == utf8_len(v@.take(i as int)),
            total <= m + 4,
            hit == exists|k: int| 0 <= k <= i && utf8_len(#[trigger] v@.take(k)) == max,
        decreases v.len() - i,
    {
        let w = width(v[i]) as u128;
        assert(v@.take(i + 1).drop_last() =~= v@.take(i as int));
        total = total + w;
        i = i + 1;
        if total == m {
            hit = true;
        }
        proof {
            assert forall|k: int| 0 <= k <= i && utf8_len(#[trigger] v@.take(k)) == max implies (k
                < i || total == m) by {}
        }
    }
    proof {
        assert(v@.take(v@.len() as int) =~= v@);
        lemma_utf8_len_mono(v@, i as int, v@.len() as int);
        if total > m {
            assert forall|k: int| i < k <= v@.len() implies utf8_len(#[trigger] v@.take(k)) != max by {
                lemma_utf8_len_mono(v@, i as int, k);
            }
        }
    }
    total <= m || hit
}

/// `s` when it fits in `max` bytes, else its first `max` bytes followed by
/// `...`. The cut must fall between characters.
pub fn truncate(s: &str, max: usize) -> (r: String)
    requires
        truncatable(s@, max as nat),
    ensures
        r@ == truncate_spec(s@, max as nat),
{
    let v = chars_of(s);
    let m = max as u128;
    let mut total: u128 = 0;
    let mut i: usize = 0;
    assert(v@.take(0) =~= Seq::<char>::empty());
    while i < v.len() && total < m
        invariant
            i <= v.len(),
            v@ == s@,
            m == max,
            total == utf8_len(v@.take(i as int)),
            total <= m + 4,
            i == 0 || utf8_len(v@.take(i - 1)) < max,
        decreases v.len() - i,
    {
        let w = width(v[i]) as u128;
        assert(v@.take(i + 1).drop_last() =~= v@.take(i as int));
        total = total + w;
        i = i + 1;
    }
    assert(v@.take(v@.len() as int) =~= v@);
    proof {
        lemma_utf8_len_mono(v@, i as int, v@.len() as int);
    }
    if total <= m && i == v.len() {
        return copy_string(s);
    }
    proof {
        let k = choose|k: int| 0 <= k <= s@.len() && utf8_len(#[trigger] s@.take(k)) == max;
        if k < i {
            lemma_utf8_len_mono(v@, k, i - 1);
        } else if k > i {
            lemma_utf8_len_mono(v@, i as int, k);
        }
        assert(k == i);
    }
    let mut out: Vec<char> = Vec::new();
    let mut j: usize = 0;
    while j < i
        invariant
            j <= i <= v.len(),
            out@ == v@.take(j as int),
        decreases i - j,
    {
        out.push(v[j]);
        assert(out@ =~= v@.take(j + 1));
        j = j + 1;
    }
    extend_str(&mut out, "...");
    string_of(&out)
}

// ---------------------------------------------------------------------------
// Pages as data
// ---------------------------------------------------------------------------

/// The accent color of the panel's pages.
pub const EMBED_COLOR: u32 = 0x5865F2u32;

/// The color of a confirmation page.
pub const WARNING_COLOR: u32 = 0xED4245u32;

#[derive(Clone, Copy, Debug, PartialEq, Eq, Structural)]
pub enum ButtonStyle {
    Primary,
    Secondary,
    Success,
    Danger,
}

/// A button: what it sends back (`custom_id`), its label, style and emoji.
pub struct Button {
    pub custom_id: String,
    pub label: String,
    pub style: ButtonStyle,
    pub emoji: Option<String>,
}

pub struct ButtonView {
    pub custom_id: Seq<char>,
    pub label: Seq<char>,
    pub style: ButtonStyle,
    pub emoji: Option<Seq<char>>,
}

impl View for Button {
    type V = ButtonView;

    open spec fn view(&self) -> ButtonView {
        ButtonView {
            custom_id: self.custom_id@,
            label: self.label@,
            style: self.style,
            emoji: opt_string_view(self.emoji),
        }
    }
}

/// A page of the panel: an embed (title, description, inline fields,
/// footer, color) and rows of buttons.
pub struct Page {
    pub title: String,
    pub description: String,
    pub fields: Vec<(String, String)>,
    pub footer: Option<String>,
    pub color: u32,
    pub rows: Vec<Vec<Button>>,
}

pub struct PageView {
    pub title: Seq<char>,
    pub description: Seq<char>,
    pub fields: Seq<(Seq<char>, Seq<char>)>,
    pub footer: Option<Seq<char>>,
    pub color: u32,
    pub rows: Seq<Seq<ButtonView>>,
}

pub open spec fn row_view(r: Seq<Button>) -> Seq<ButtonView> {
    r.map_values(|b: Button| b@)
}

pub open spec fn rows_view(rs: Seq<Vec<Button>>) -> Seq<Seq<ButtonView>> {
    rs.map_values(|r: Vec<Button>| row_view(r@))
}

pub open spec fn fields_view(fs: Seq<(String, String)>) -> Seq<(Seq<char>, Seq<char>)> {
    fs.map_values(|f: (String, String)| (f.0@, f.1@))
}

impl View for Page {
    type V = PageView;

    open spec fn view(&self) -> PageView {
        PageView {
            title: self.title@,
            description: self.description@,
            fields: fields_view(self.fields@),
            footer: opt_string_view(self.footer),
            color: self.color,
            rows: rows_view(self.rows@),
        }
    }
}

pub open spec fn bv(id: Seq<char>, label: Seq<char>, style: ButtonStyle, emoji: Option<Seq<char>>) -> ButtonView {
    ButtonView { custom_id: id, label, style, emoji }
}

/// A button with an emoji.
pub fn button(id: &str, label: &str, style: ButtonStyle, emoji: &str) -> (r: Button)
    ensures
        r@ == bv(id@, label@, style, Some(emoji@)),
{
    Button {
        custom_id: copy_string(id),
        label: copy_string(label),
        style,
        emoji: Some(copy_string(emoji)),
    }
}

/// A button without an emoji.
pub fn plain_button(id: &str, label: &str, style: ButtonStyle) -> (r: Button)
    ensures
        r@ == bv(id@, label@, style, None),
{
    Button { custom_id: copy_string(id), label: copy_string(label), style, emoji: None }
}

fn push_button(row: &mut Vec<Button>, b: Button)
    ensures
        row_view(final(row)@) == row_view(old(row)@).push(b@),
{
    let ghost before = row@;
    row.push(b);
    assert(row_view(row@) =~= row_view(before).push(b@));
}

fn push_row(rows: &mut Vec<Vec<Button>>, r: Vec<Button>)
    ensures
        rows_view(final(rows)@) == rows_view(old(rows)@).push(row_view(r@)),
{
    let ghost before = rows@;
    let ghost rv = row_view(r@);
    rows.push(r);
    assert(rows_view(rows@) =~= rows_view(before).push(rv));
}

pub open spec fn back_button(id: Seq<char>) -> ButtonView {
    bv(id, "Back"@, ButtonStyle::Secondary, Some("↩️"@))
}

fn back(id: &str) -> (r: Button)
    ensures
        r@ == back_button(id@),
{
    button(id, "Back", ButtonStyle::Secondary, "↩️")
}

/// Texts laid end to end.
pub open spec fn flatten(ps: Seq<Seq<char>>) -> Seq<char>
    decreases ps.len(),
{
    if ps.len() == 0 {
        Seq::<char>::empty()
    } else {
        flatten(ps.drop_last()) + ps.last()
    }
}

// ---------------------------------------------------------------------------
// The main menu
// ---------------------------------------------------------------------------

/// The counts shown on the main menu.
pub struct PanelCounts {
    pub boorus: usize,
    pub enabled_boorus: usize,
    pub tag_names: usize,
    pub servers: usize,
    pub validated_servers: usize,
}

pub open spec fn main_menu_spec(c: PanelCounts, show_validate: bool) -> PageView {
    let first = seq![
        bv("ac:tags"@, "Tags"@, ButtonStyle::Primary, Some("🏷️"@)),
        bv("ac:server_tags"@, "Server Tags"@, ButtonStyle::Primary, Some("🗂️"@)),
        bv("ac:boorus"@, "Boorus"@, ButtonStyle::Primary, Some("🖼️"@)),
        bv("ac:channels"@, "Channels"@, ButtonStyle::Primary, Some("📢"@)),
        bv("ac:settings"@, "Settings"@, ButtonStyle::Primary, Some("⚙️"@)),
    ];
    let reload = seq![bv("aa:reload"@, "Reload"@, ButtonStyle::Danger, Some("🔄"@))];
    let validate = seq![bv("ac:validate"@, "Validate"@, ButtonStyle::Success, Some("✅"@))];
    PageView {
        title: "Administration Panel"@,
        description: "Select a category to manage."@,
        fields: seq![
            ("Boorus"@, dec(c.boorus as nat) + " total, "@ + dec(c.enabled_boorus as nat) + " enabled"@),
            ("Tags"@, dec(c.tag_names as nat) + " command names"@),
            ("Servers"@, dec(c.servers as nat) + " total, "@ + dec(c.validated_servers as nat)
                + " validated"@),
        ],
        footer: None,
        color: EMBED_COLOR,
        rows: if show_validate {
            seq![first, reload, validate]
        } else {
            seq![first, reload]
        },
    }
}

/// The main menu. `current_server_validated` is whether the server the
/// panel was opened in is validated (none outside a known server): an
/// unvalidated one gets a Validate button.
pub fn main_menu(counts: &PanelCounts, current_server_validated: Option<bool>) -> (r: Page)
    ensures
        r@ == main_menu_spec(*counts, current_server_validated == Some(false)),
{
    let mut fields: Vec<(String, String)> = Vec::new();
    let f1 = cat4(
        usize_to_string(counts.boorus).as_str(),
        " total, ",
        usize_to_string(counts.enabled_boorus).as_str(),
        " enabled",
    );
    let f2 = cat2(usize_to_string(counts.tag_names).as_str(), " command names");
    let f3 = cat4(
        usize_to_string(counts.servers).as_str(),
        " total, ",
        usize_to_string(counts.validated_servers).as_str(),
        " validated",
    );
    fields.push((String::from_str("Boorus"), f1));
    fields.push((String::from_str("Tags"), f2));
    fields.push((String::from_str("Servers"), f3));
    let mut first: Vec<Button> = Vec::new();
    push_button(&mut first, button("ac:tags", "Tags", ButtonStyle::Primary, "🏷️"));
    push_button(&mut first, button("ac:server_tags", "Server Tags", ButtonStyle::Primary, "🗂️"));
    push_button(&mut first, button("ac:boorus", "Boorus", ButtonStyle::Primary, "🖼️"));
    push_button(&mut first, button("ac:channels", "Channels", ButtonStyle::Primary, "📢"));
    push_button(&mut first, button("ac:settings", "Settings", ButtonStyle::Primary, "⚙️"));
    let ghost spec = main_menu_spec(*counts, current_server_validated == Some(false));
    assert(row_view(first@) =~= spec.rows[0]);
    let mut rows: Vec<Vec<Button>> = Vec::new();
    push_row(&mut rows, first);
    let mut reload: Vec<Button> = Vec::new();
    push_button(&mut reload, button("aa:reload", "Reload", ButtonStyle::Danger, "🔄"));
    assert(row_view(reload@) =~= spec.rows[1]);
    push_row(&mut rows, reload);
    if current_server_validated == Some(false) {
        let mut v: Vec<Button> = Vec::new();
        push_button(&mut v, button("ac:validate", "Validate", ButtonStyle::Success, "✅"));
        assert(row_view(v@) =~= spec.rows[2]);
        push_row(&mut rows, v);
    }
    let r = Page {
        title: String::from_str("Administration Panel"),
        description: String::from_str("Select a category to manage."),
        fields,
        footer: None,
        color: EMBED_COLOR,
        rows,
    };
    assert(r@.fields =~= main_menu_spec(*counts, current_server_validated == Some(false)).fields);
    assert(r@.rows =~= main_menu_spec(*counts, current_server_validated == Some(false)).rows);
    r
}

// ---------------------------------------------------------------------------
// Category pages
// ---------------------------------------------------------------------------

/// The longest description a page shows, in bytes.
pub const DESCRIPTION_MAX: usize = 3900usize;

/// A category page: its description cut to `DESCRIPTION_MAX` bytes.
pub open spec fn category_page(
    title: Seq<char>,
    description: Seq<char>,
    footer: Option<Seq<char>>,
    rows: Seq<Seq<ButtonView>>,
) -> PageView {
    PageView {
        title,
        description: truncate_spec(description, DESCRIPTION_MAX as nat),
        fields: Seq::empty(),
        footer,
        color: EMBED_COLOR,
        rows,
    }
}

/// What a page builder gives: no page where the description cannot be cut
/// between two characters at `DESCRIPTION_MAX` bytes, else the page.
pub open spec fn page_result(
    r: Option<Page>,
    title: Seq<char>,
    description: Seq<char>,
    footer: Option<Seq<char>>,
    rows: Seq<Seq<ButtonView>>,
) -> bool {
    &&& (r is None <==> !truncatable(description, DESCRIPTION_MAX as nat))
    &&& (r matches Some(p) ==> p@ == category_page(title, description, footer, rows))
}

fn make_page(title: &str, description: &str, footer: Option<String>, rows: Vec<Vec<Button>>) -> (r:
    Option<Page>)
    ensures
        page_result(r, title@, description@, opt_string_view(footer), rows_view(rows@)),
{
    if !can_truncate(description, DESCRIPTION_MAX) {
        return None;
    }
    let fields: Vec<(String, String)> = Vec::new();
    let r = Page {
        title: copy_string(title),
        description: truncate(description, DESCRIPTION_MAX),
        fields,
        footer,
        color: EMBED_COLOR,
        rows,
    };
    assert(r@.fields =~= Seq::<(Seq<char>, Seq<char>)>::empty());
    Some(r)
}

fn flatten_strings(parts: &Vec<String>) -> (r: String)
    ensures
        r@ == flatten(string_views(parts@)),
{
    let mut out: Vec<char> = Vec::new();
    let mut i: usize = 0;
    while i < parts.len()
        invariant
            i <= parts.len(),
            out@ == flatten(string_views(parts@).take(i as int)),
        decreases parts.len() - i,
    {
        assert(string_views(parts@).take(i + 1).drop_last() =~= string_views(parts@).take(i as int));
        extend_str(&mut out, parts[i].as_str());
        i = i + 1;
    }
    assert(string_views(parts@).take(parts.len() as int) =~= string_views(parts@));
    string_of(&out)
}

fn push_part(parts: &mut Vec<String>, x: String)
    ensures
        string_views(final(parts)@) == string_views(old(parts)@).push(x@),
{
    let ghost before = parts@;
    let ghost xv = x@;
    parts.push(x);
    assert(string_views(parts@) =~= string_views(before).push(xv));
}

pub open spec fn error_text(e: Seq<char>) -> Seq<char> {
    "Error: "@ + e
}

// --- tags ---

/// The included tags of a pattern's entries.
pub open spec fn included_tags(es: Seq<TagPatternEntry>) -> Seq<Seq<char>>
    decreases es.len(),
{
    if es.len() == 0 {
        Seq::<Seq<char>>::empty()
    } else if es.last().is_excluded {
        included_tags(es.drop_last())
    } else {
        included_tags(es.drop_last()).push(es.last().tag@)
    }
}

/// The `  name (tag, tag)` lines of the patterns of one booru.
pub open spec fn pattern_block(ps: Seq<TagPattern>, es: Seq<Vec<TagPatternEntry>>, booru_id: i64) -> Seq<
    Seq<char>,
>
    decreases ps.len(),
{
    if ps.len() == 0 || es.len() == 0 {
        Seq::<Seq<char>>::empty()
    } else {
        let before = pattern_block(ps.drop_last(), es.drop_last(), booru_id);
        if ps.last().booru_id == booru_id {
            before.push(
                "  "@ + ps.last().name@ + " ("@ + join_seq(included_tags(es.last()@), ", "@)
                    + ")\n"@,
            )
        } else {
            before
        }
    }
}

/// A `**booru:**` header and its pattern lines, for each booru with patterns.
pub open spec fn booru_blocks(bs: Seq<BooruRow>, ps: Seq<TagPattern>, es: Seq<Vec<TagPatternEntry>>) -> Seq<
    Seq<char>,
>
    decreases bs.len(),
{
    if bs.len() == 0 {
        Seq::<Seq<char>>::empty()
    } else {
        let block = pattern_block(ps, es, bs.last().id);
        let before = booru_blocks(bs.drop_last(), ps, es);
        if block.len() == 0 {
            before
        } else {
            before.push("**"@ + bs.last().name@ + ":**\n"@ + flatten(block))
        }
    }
}

pub open spec fn tags_description(
    boorus: Result<Vec<BooruRow>, String>,
    ps: Seq<TagPattern>,
    es: Seq<Vec<TagPatternEntry>>,
) -> Seq<char> {
    match boorus {
        Err(e) => error_text(e@),
        Ok(bs) => if bs@.len() == 0 {
            "No boorus configured."@
        } else {
            let d = flatten(booru_blocks(bs@, ps, es));
            if d.len() == 0 {
                "No tag patterns assigned to any booru."@
            } else {
                d
            }
        },
    }
}

pub open spec fn tags_rows() -> Seq<Seq<ButtonView>> {
    seq![
        seq![
            bv("aa:tag:add"@, "Add Tags"@, ButtonStyle::Success, Some("➕"@)),
            bv("aa:tag:remove"@, "Remove Tags"@, ButtonStyle::Danger, Some("🗑️"@)),
            back_button("ac:main"@),
        ],
    ]
}

fn included_text(es: &Vec<TagPatternEntry>) -> (r: String)
    ensures
        r@ == join_seq(included_tags(es@), ", "@),
{
    let mut tags: Vec<String> = Vec::new();
    let mut j: usize = 0;
    while j < es.len()
        invariant
            j <= es.len(),
            string_views(tags@) == included_tags(es@.take(j as int)),
        decreases es.len() - j,
    {
        assert(es@.take(j + 1).drop_last() =~= es@.take(j as int));
        if !es[j].is_excluded {
            push_part(&mut tags, copy_string(es[j].tag.as_str()));
        }
        j = j + 1;
    }
    assert(es@.take(es.len() as int) =~= es@);
    join_strings(&tags, ", ")
}

fn pattern_block_parts(ps: &Vec<TagPattern>, es: &Vec<Vec<TagPatternEntry>>, booru_id: i64) -> (r: Vec<
    String,
>)
    requires
        ps@.len() == es@.len(),
    ensures
        string_views(r@) == pattern_block(ps@, es@, booru_id),
{
    let mut parts: Vec<String> = Vec::new();
    let mut i: usize = 0;
    while i < ps.len()
        invariant
            i <= ps.len(),
            ps@.len() == es@.len(),
            string_views(parts@) == pattern_block(ps@.take(i as int), es@.take(i as int), booru_id),
        decreases ps.len() - i,
    {
        assert(ps@.take(i + 1).drop_last() =~= ps@.take(i as int));
        assert(es@.take(i + 1).drop_last() =~= es@.take(i as int));
        if ps[i].booru_id == booru_id {
            let inc = included_text(&es[i]);
            let line = cat5("  ", ps[i].name.as_str(), " (", inc.as_str(), ")\n");
            push_part(&mut parts, line);
        }
        i = i + 1;
    }
    assert(ps@.take(ps.len() as int) =~= ps@);
    assert(es@.take(es.len() as int) =~= es@);
    parts
}

fn tags_rows_exec() -> (r: Vec<Vec<Button>>)
    ensures
        rows_view(r@) == tags_rows(),
{
    let mut row: Vec<Button> = Vec::new();
    push_button(&mut row, button("aa:tag:add", "Add Tags", ButtonStyle::Success, "➕"));
    push_button(&mut row, button("aa:tag:remove", "Remove Tags", ButtonStyle::Danger, "🗑️"));
    push_button(&mut row, back("ac:main"));
    assert(row_view(row@) =~= tags_rows()[0]);
    let mut rows: Vec<Vec<Button>> = Vec::new();
    push_row(&mut rows, row);
    assert(rows_view(rows@) =~= tags_rows());
    rows
}

/// The Tags page: each booru's patterns with their included tags.
/// `entries[i]` holds the entries of `patterns[i]`.
pub fn tags_page(
    boorus: &Result<Vec<BooruRow>, String>,
    patterns: &Vec<TagPattern>,
    entries: &Vec<Vec<TagPatternEntry>>,
) -> (r: Option<Page>)
    requires
        patterns@.len() == entries@.len(),
    ensures
        page_result(
            r,
            "🏷️ Tags"@,
            tags_description(*boorus, patterns@, entries@),
            None,
            tags_rows(),
        ),
{
    let description = match boorus {
        Err(e) => cat2("Error: ", e.as_str()),
        Ok(bs) => if bs.len() == 0 {
            String::from_str("No boorus configured.")
        } else {
            let mut parts: Vec<String> = Vec::new();
            let mut i: usize = 0;
            while i < bs.len()
                invariant
                    i <= bs.len(),
                    patterns@.len() == entries@.len(),
                    string_views(parts@) == booru_blocks(bs@.take(i as int), patterns@, entries@),
                decreases bs.len() - i,
            {
                assert(bs@.take(i + 1).drop_last() =~= bs@.take(i as int));
                let block = pattern_block_parts(patterns, entries, bs[i].id);
                if block.len() > 0 {
                    let body = flatten_strings(&block);
                    push_part(&mut parts, cat4("**", bs[i].name.as_str(), ":**\n", body.as_str()));
                }
                i = i + 1;
            }
            assert(bs@.take(bs.len() as int) =~= bs@);
            let d = flatten_strings(&parts);
            if d.as_str().is_empty() {
                String::from_str("No tag patterns assigned to any booru.")
            } else {
                d
            }
        },
    };
    make_page("🏷️ Tags", description.as_str(), None, tags_rows_exec())
}

// --- boorus ---

pub open spec fn booru_entry(b: BooruRow) -> Seq<char> {
    (if b.enabled {
        "🟢"@
    } else {
        "🔴"@
    }) + " **"@ + b.name@ + "**"@ + (if b.description@.len() == 0 {
        Seq::<char>::empty()
    } else {
        " - "@ + b.description@
    }) + "  (page_size: "@ + dec(b.page_size as nat) + ", max_tags: "@ + dec(b.max_tags as nat)
        + ")\n"@
}

pub open spec fn boorus_description(boorus: Result<Vec<BooruRow>, String>) -> Seq<char> {
    match boorus {
        Err(e) => error_text(e@),
        Ok(bs) => if bs@.len() == 0 {
            "No boorus configured."@
        } else {
            flatten(bs@.map_values(|b: BooruRow| booru_entry(b)))
        },
    }
}

pub open spec fn boorus_rows() -> Seq<Seq<ButtonView>> {
    seq![
        seq![
            bv("aa:booru:add"@, "Add"@, ButtonStyle::Success, Some("➕"@)),
            bv("aa:booru:edit"@, "Edit"@, ButtonStyle::Primary, Some("✏️"@)),
            bv("aa:booru:delete"@, "Delete"@, ButtonStyle::Danger, Some("🗑️"@)),
            bv("aa:booru:toggle"@, "Toggle"@, ButtonStyle::Secondary, Some("🔄"@)),
            bv("aa:booru:param"@, "Parameters"@, ButtonStyle::Secondary, Some("⚙️"@)),
        ],
        seq![back_button("ac:main"@)],
    ]
}

fn boorus_rows_exec() -> (r: Vec<Vec<Button>>)
    ensures
        rows_view(r@) == boorus_rows(),
{
    let mut row: Vec<Button> = Vec::new();
    push_button(&mut row, button("aa:booru:add", "Add", ButtonStyle::Success, "➕"));
    push_button(&mut row, button("aa:booru:edit", "Edit", ButtonStyle::Primary, "✏️"));
    push_button(&mut row, button("aa:booru:delete", "Delete", ButtonStyle::Danger, "🗑️"));
    push_button(&mut row, button("aa:booru:toggle", "Toggle", ButtonStyle::Secondary, "🔄"));
    push_button(&mut row, button("aa:booru:param", "Parameters", ButtonStyle::Secondary, "⚙️"));
    assert(row_view(row@) =~= boorus_rows()[0]);
    let mut back_row: Vec<Button> = Vec::new();
    push_button(&mut back_row, back("ac:main"));
    assert(row_view(back_row@) =~= boorus_rows()[1]);
    let mut rows: Vec<Vec<Button>> = Vec::new();
    push_row(&mut rows, row);
    push_row(&mut rows, back_row);
    assert(rows_view(rows@) =~= boorus_rows());
    rows
}

/// The Boorus page: status, name, description, page size and tag limit of each booru.
pub fn boorus_page(boorus: &Result<Vec<BooruRow>, String>) -> (r: Option<Page>)
    ensures
        page_result(r, "🖼️ Boorus"@, boorus_description(*boorus), None, boorus_rows()),
{
    let description = match boorus {
        Err(e) => cat2("Error: ", e.as_str()),
        Ok(bs) => if bs.len() == 0 {
            String::from_str("No boorus configured.")
        } else {
            let mut parts: Vec<String> = Vec::new();
            let mut i: usize = 0;
            while i < bs.len()
                invariant
                    i <= bs.len(),
                    string_views(parts@) == bs@.take(i as int).map_values(
                        |b: BooruRow| booru_entry(b),
                    ),
                decreases bs.len() - i,
            {
                let b = &bs[i];
                let status = if b.enabled {
                    String::from_str("🟢")
                } else {
                    String::from_str("🔴")
                };
                let desc = if b.description.as_str().is_empty() {
                    String::new()
                } else {
                    cat2(" - ", b.description.as_str())
                };
                let a = cat5(status.as_str(), " **", b.name.as_str(), "**", desc.as_str());
                let line = cat5(
                    a.as_str(),
                    "  (page_size: ",
                    u64_to_string(b.page_size).as_str(),
                    ", max_tags: ",
                    usize_to_string(b.max_tags).as_str(),
                );
                let line = cat2(line.as_str(), ")\n");
                proof {
                    if b.description@.len() == 0 {
                        assert(desc@ =~= Seq::<char>::empty());
                    }
                }
                push_part(&mut parts, line);
                assert(bs@.take(i + 1).map_values(|b: BooruRow| booru_entry(b)) =~= bs@.take(
                    i as int,
                ).map_values(|b: BooruRow| booru_entry(b)).push(booru_entry(bs@[i as int])));
                i = i + 1;
            }
            assert(bs@.take(bs.len() as int) =~= bs@);
            flatten_strings(&parts)
        },
    };
    make_page("🖼️ Boorus", description.as_str(), None, boorus_rows_exec())
}

// --- channels ---

/// `none` for no blocked tags, else the tags joined by commas.
pub open spec fn tags_or_none(ps: Seq<String>) -> Seq<char> {
    if ps.len() == 0 {
        "none"@
    } else {
        join_seq(string_views(ps), ", "@)
    }
}

pub open spec fn channel_entry(c: ChannelConfig, patterns: Vec<String>) -> Seq<char> {
    "  <#"@ + dec_int(c.channel_id as int) + "> lang="@ + crate::admin_reply::lang_text(
        opt_string_view(c.language),
    ) + " banned="@ + crate::admin_reply::debug_texts(c.banned_tags@) + " tags="@ + tags_or_none(
        patterns@,
    ) + "\n"@
}

pub open spec fn channel_entries(cs: Seq<ChannelConfig>, ps: Seq<Vec<String>>) -> Seq<char> {
    flatten(Seq::new(cs.len(), |j: int| channel_entry(cs[j], ps[j])))
}

/// A server header and its channel lines, for each server with channels.
pub open spec fn server_blocks(
    ss: Seq<Server>,
    cs: Seq<Vec<ChannelConfig>>,
    ps: Seq<Vec<Vec<String>>>,
) -> Seq<Seq<char>>
    decreases ss.len(),
{
    if ss.len() == 0 || cs.len() == 0 || ps.len() == 0 {
        Seq::<Seq<char>>::empty()
    } else {
        let before = server_blocks(ss.drop_last(), cs.drop_last(), ps.drop_last());
        if cs.last()@.len() == 0 {
            before
        } else {
            before.push(
                "**"@ + ss.last().name@ + "** ("@ + dec_int(ss.last().guild_id as int) + "):\n"@
                    + channel_entries(cs.last()@, ps.last()@),
            )
        }
    }
}

/// Each server's channels (`channels[i]`) and their blocked tags
/// (`patterns[i][j]` for `channels[i][j]`).
pub open spec fn channels_shape(
    servers: Seq<Server>,
    channels: Seq<Vec<ChannelConfig>>,
    patterns: Seq<Vec<Vec<String>>>,
) -> bool {
    &&& servers.len() == channels.len()
    &&& channels.len() == patterns.len()
    &&& forall|i: int| 0 <= i < channels.len() ==> #[trigger] channels[i]@.len() == patterns[i]@.len()
}

pub open spec fn channels_description(
    servers: Result<Vec<Server>, String>,
    channels: Seq<Vec<ChannelConfig>>,
    patterns: Seq<Vec<Vec<String>>>,
) -> Seq<char> {
    match servers {
        Err(e) => error_text(e@),
        Ok(ss) => {
            let d = flatten(server_blocks(ss@, channels, patterns));
            if d.len() == 0 {
                "No channels configured."@
            } else {
                d
            }
        },
    }
}

pub open spec fn channels_rows() -> Seq<Seq<ButtonView>> {
    seq![
        seq![
            bv("aa:ch:add"@, "Add Channel"@, ButtonStyle::Success, Some("➕"@)),
            bv("aa:ch:remove"@, "Remove Channel"@, ButtonStyle::Danger, Some("🗑️"@)),
            bv("aa:ch:set"@, "Set Config"@, ButtonStyle::Primary, Some("✏️"@)),
            bv("aa:ch:pattern"@, "Patterns"@, ButtonStyle::Secondary, Some("📋"@)),
        ],
        seq![back_button("ac:main"@)],
    ]
}

fn channels_rows_exec() -> (r: Vec<Vec<Button>>)
    ensures
        rows_view(r@) == channels_rows(),
{
    let mut row: Vec<Button> = Vec::new();
    push_button(&mut row, button("aa:ch:add", "Add Channel", ButtonStyle::Success, "➕"));
    push_button(&mut row, button("aa:ch:remove", "Remove Channel", ButtonStyle::Danger, "🗑️"));
    push_button(&mut row, button("aa:ch:set", "Set Config", ButtonStyle::Primary, "✏️"));
    push_button(&mut row, button("aa:ch:pattern", "Patterns", ButtonStyle::Secondary, "📋"));
    assert(row_view(row@) =~= channels_rows()[0]);
    let mut back_row: Vec<Button> = Vec::new();
    push_button(&mut back_row, back("ac:main"));
    assert(row_view(back_row@) =~= channels_rows()[1]);
    let mut rows: Vec<Vec<Button>> = Vec::new();
    push_row(&mut rows, row);
    push_row(&mut rows, back_row);
    assert(rows_view(rows@) =~= channels_rows());
    rows
}

fn tags_or_none_text(ps: &Vec<String>) -> (r: String)
    ensures
        r@ == tags_or_none(ps@),
{
    if ps.len() == 0 {
        String::from_str("none")
    } else {
        join_strings(ps, ", ")
    }
}

fn channel_entries_text(cs: &Vec<ChannelConfig>, ps: &Vec<Vec<String>>) -> (r: String)
    requires
        cs@.len() == ps@.len(),
    ensures
        r@ == channel_entries(cs@, ps@),
{
    let mut parts: Vec<String> = Vec::new();
    let mut j: usize = 0;
    let ghost all = Seq::new(cs@.len(), |j: int| channel_entry(cs@[j], ps@[j]));
    while j < cs.len()
        invariant
            j <= cs.len(),
            cs@.len() == ps@.len(),
            all == Seq::new(cs@.len(), |j: int| channel_entry(cs@[j], ps@[j])),
            string_views(parts@) == all.take(j as int),
        decreases cs.len() - j,
    {
        let c = &cs[j];
        let a = cat4(
            "  <#",
            i64_to_string(c.channel_id).as_str(),
            "> lang=",
            crate::admin_reply::lang_string(&c.language).as_str(),
        );
        let line = cat5(
            a.as_str(),
            " banned=",
            crate::admin_reply::debug_strings(&c.banned_tags).as_str(),
            " tags=",
            tags_or_none_text(&ps[j]).as_str(),
        );
        push_part(&mut parts, cat2(line.as_str(), "\n"));
        assert(all.take(j + 1) =~= all.take(j as int).push(all[j as int]));
        j = j + 1;
    }
    assert(all.take(cs.len() as int) =~= all);
    flatten_strings(&parts)
}

/// The Channels page: each server's configured channels with language,
/// banned tags and blocked tags.
pub fn channels_page(
    servers: &Result<Vec<Server>, String>,
    channels: &Vec<Vec<ChannelConfig>>,
    patterns: &Vec<Vec<Vec<String>>>,
) -> (r: Option<Page>)
    requires
        servers matches Ok(ss) ==> channels_shape(ss@, channels@, patterns@),
    ensures
        page_result(
            r,
            "📢 Channels"@,
            channels_description(*servers, channels@, patterns@),
            None,
            channels_rows(),
        ),
{
    let description = match servers {
        Err(e) => cat2("Error: ", e.as_str()),
        Ok(ss) => {
            let mut parts: Vec<String> = Vec::new();
            let mut i: usize = 0;
            while i < ss.len()
                invariant
                    i <= ss.len(),
                    channels_shape(ss@, channels@, patterns@),
                    string_views(parts@) == server_blocks(
                        ss@.take(i as int),
                        channels@.take(i as int),
                        patterns@.take(i as int),
                    ),
                decreases ss.len() - i,
            {
                assert(ss@.take(i + 1).drop_last() =~= ss@.take(i as int));
                assert(channels@.take(i + 1).drop_last() =~= channels@.take(i as int));
                assert(patterns@.take(i + 1).drop_last() =~= patterns@.take(i as int));
                assert(channels@[i as int]@.len() == patterns@[i as int]@.len());
                if channels[i].len() > 0 {
                    let body = channel_entries_text(&channels[i], &patterns[i]);
                    let line = cat5(
                        "**",
                        ss[i].name.as_str(),
                        "** (",
                        i64_to_string(ss[i].guild_id).as_str(),
                        "):\n",
                    );
                    push_part(&mut parts, cat2(line.as_str(), body.as_str()));
                }
                i = i + 1;
            }
            assert(ss@.take(ss.len() as int) =~= ss@);
            assert(channels@.take(channels.len() as int) =~= channels@);
            assert(patterns@.take(patterns.len() as int) =~= patterns@);
            let d = flatten_strings(&parts);
            if d.as_str().is_empty() {
                String::from_str("No channels configured.")
            } else {
                d
            }
        },
    };
    make_page("📢 Channels", description.as_str(), None, channels_rows_exec())
}

// --- server tags ---

pub open spec fn server_tags_description(tags: Seq<String>) -> Seq<char> {
    if tags.len() == 0 {
        "No tag commands enabled for this server yet.\nAdd tag names to register slash commands here."@
    } else {
        "Enabled tag commands:\n"@ + flatten(tags.map_values(|t: String| "  • "@ + t@ + "\n"@))
    }
}

pub open spec fn server_tags_rows() -> Seq<Seq<ButtonView>> {
    seq![
        seq![
            bv("aa:srvtag:add"@, "Add Tag"@, ButtonStyle::Success, Some("➕"@)),
            bv("aa:srvtag:remove"@, "Remove Tag"@, ButtonStyle::Danger, Some("🗑️"@)),
            back_button("ac:main"@),
        ],
    ]
}

/// The Server Tags page outside a server: a hint and no buttons.
pub open spec fn no_server_page() -> PageView {
    PageView {
        title: "🗂️ Server Tags"@,
        description: "Run this panel from inside a server channel."@,
        fields: Seq::empty(),
        footer: None,
        color: EMBED_COLOR,
        rows: Seq::empty(),
    }
}

/// The Server Tags page: the tag commands enabled on the current server
/// (`guild`, none outside a server).
pub fn server_tags_page(guild: Option<i64>, tags: &Vec<String>) -> (r: Option<Page>)
    ensures
        match guild {
            None => r matches Some(p) && p@ == no_server_page(),
            Some(g) => page_result(
                r,
                "🗂️ Server Tags"@,
                server_tags_description(tags@),
                Some("Server ID: "@ + dec_int(g as int)),
                server_tags_rows(),
            ),
        },
{
    let g = match guild {
        None => {
            let fields: Vec<(String, String)> = Vec::new();
            let rows: Vec<Vec<Button>> = Vec::new();
            let p = Page {
                title: String::from_str("🗂️ Server Tags"),
                description: String::from_str("Run this panel from inside a server channel."),
                fields,
                footer: None,
                color: EMBED_COLOR,
                rows,
            };
            assert(p@.fields =~= no_server_page().fields);
            assert(p@.rows =~= no_server_page().rows);
            return Some(p);
        },
        Some(g) => g,
    };
    let description = if tags.len() == 0 {
        String::from_str(
            "No tag commands enabled for this server yet.\nAdd tag names to register slash commands here.",
        )
    } else {
        let mut parts: Vec<String> = Vec::new();
        let mut i: usize = 0;
        while i < tags.len()
            invariant
                i <= tags.len(),
                string_views(parts@) == tags@.take(i as int).map_values(
                    |t: String| "  • "@ + t@ + "\n"@,
                ),
            decreases tags.len() - i,
        {
            push_part(&mut parts, cat3("  • ", tags[i].as_str(), "\n"));
            assert(tags@.take(i + 1).map_values(|t: String| "  • "@ + t@ + "\n"@) =~= tags@.take(
                i as int,
            ).map_values(|t: String| "  • "@ + t@ + "\n"@).push("  • "@ + tags@[i as int]@ + "\n"@));
            i = i + 1;
        }
        assert(tags@.take(tags.len() as int) =~= tags@);
        let body = flatten_strings(&parts);
        cat2("Enabled tag commands:\n", body.as_str())
    };
    let mut row: Vec<Button> = Vec::new();
    push_button(&mut row, button("aa:srvtag:add", "Add Tag", ButtonStyle::Success, "➕"));
    push_button(&mut row, button("aa:srvtag:remove", "Remove Tag", ButtonStyle::Danger, "🗑️"));
    push_button(&mut row, back("ac:main"));
    assert(row_view(row@) =~= server_tags_rows()[0]);
    let mut rows: Vec<Vec<Button>> = Vec::new();
    push_row(&mut rows, row);
    assert(rows_view(rows@) =~= server_tags_rows());
    let footer = cat2("Server ID: ", i64_to_string(g).as_str());
    make_page("🗂️ Server Tags", description.as_str(), Some(footer), rows)
}

// --- settings ---

pub open spec fn settings_description(settings: Result<Vec<(String, String)>, String>) -> Seq<char> {
    match settings {
        Err(e) => error_text(e@),
        Ok(kv) => if kv@.len() == 0 {
            "No settings configured. Defaults are active."@
        } else {
            flatten(kv@.map_values(|p: (String, String)| "**"@ + p.0@ + "** = `"@ + p.1@ + "`\n"@))
        },
    }
}

pub open spec fn settings_rows() -> Seq<Seq<ButtonView>> {
    seq![
        seq![
            bv("aa:settings:add"@, "Add"@, ButtonStyle::Success, Some("➕"@)),
            bv("aa:settings:edit"@, "Edit"@, ButtonStyle::Primary, Some("✏️"@)),
            bv("aa:settings:delete"@, "Delete"@, ButtonStyle::Danger, Some("🗑️"@)),
            back_button("ac:main"@),
        ],
    ]
}

/// The Settings page: every stored setting and its value.
pub fn settings_page(settings: &Result<Vec<(String, String)>, String>) -> (r: Option<Page>)
    ensures
        page_result(r, "⚙️ Settings"@, settings_description(*settings), None, settings_rows()),
{
    let description = match settings {
        Err(e) => cat2("Error: ", e.as_str()),
        Ok(kv) => if kv.len() == 0 {
            String::from_str("No settings configured. Defaults are active.")
        } else {
            let mut parts: Vec<String> = Vec::new();
            let mut i: usize = 0;
            while i < kv.len()
                invariant
                    i <= kv.len(),
                    string_views(parts@) == kv@.take(i as int).map_values(
                        |p: (String, String)| "**"@ + p.0@ + "** = `"@ + p.1@ + "`\n"@,
                    ),
                decreases kv.len() - i,
            {
                push_part(&mut parts, cat5("**", kv[i].0.as_str(), "** = `", kv[i].1.as_str(), "`\n"));
                assert(kv@.take(i + 1).map_values(
                    |p: (String, String)| "**"@ + p.0@ + "** = `"@ + p.1@ + "`\n"@,
                ) =~= kv@.take(i as int).map_values(
                    |p: (String, String)| "**"@ + p.0@ + "** = `"@ + p.1@ + "`\n"@,
                ).push("**"@ + kv@[i as int].0@ + "** = `"@ + kv@[i as int].1@ + "`\n"@));
                i = i + 1;
            }
            assert(kv@.take(kv.len() as int) =~= kv@);
            flatten_strings(&parts)
        },
    };
    let mut row: Vec<Button> = Vec::new();
    push_button(&mut row, button("aa:settings:add", "Add", ButtonStyle::Success, "➕"));
    push_button(&mut row, button("aa:settings:edit", "Edit", ButtonStyle::Primary, "✏️"));
    push_button(&mut row, button("aa:settings:delete", "Delete", ButtonStyle::Danger, "🗑️"));
    push_button(&mut row, back("ac:main"));
    assert(row_view(row@) =~= settings_rows()[0]);
    let mut rows: Vec<Vec<Button>> = Vec::new();
    push_row(&mut rows, row);
    assert(rows_view(rows@) =~= settings_rows());
    make_page("⚙️ Settings", description.as_str(), None, rows)
}

// --- validation ---

/// The servers with the given validation status, in order.
pub open spec fn with_status(ss: Seq<Server>, validated: bool) -> Seq<Server>
    decreases ss.len(),
{
    if ss.len() == 0 {
        ss
    } else if ss.last().validated == validated {
        with_status(ss.drop_last(), validated).push(ss.last())
    } else {
        with_status(ss.drop_last(), validated)
    }
}

pub open spec fn server_entry(s: Server, mark: Seq<char>) -> Seq<char> {
    "  "@ + mark + " "@ + s.name@ + " ("@ + dec_int(s.guild_id as int) + ")\n"@
}

pub open spec fn section(heading: Seq<char>, ss: Seq<Server>, mark: Seq<char>) -> Seq<char> {
    if ss.len() == 0 {
        Seq::<char>::empty()
    } else {
        heading + flatten(ss.map_values(|s: Server| server_entry(s, mark)))
    }
}

pub open spec fn validate_description(servers: Result<Vec<Server>, String>) -> Seq<char> {
    match servers {
        Err(e) => error_text(e@),
        Ok(ss) => section("**Validated:**\n"@, with_status(ss@, true), "✅"@) + section(
            "**Pending:**\n"@,
            with_status(ss@, false),
            "⏳"@,
        ) + if ss@.len() == 0 {
            "No servers found."@
        } else {
            Seq::<char>::empty()
        },
    }
}

pub open spec fn validate_rows(is_admin: bool) -> Seq<Seq<ButtonView>> {
    if is_admin {
        seq![
            seq![
                bv("aa:val:validate"@, "Validate Server"@, ButtonStyle::Success, Some("✅"@)),
                bv("aa:val:unvalidate"@, "Unvalidate Server"@, ButtonStyle::Danger, Some("❌"@)),
                back_button("ac:main"@),
            ],
        ]
    } else {
        seq![seq![back_button("ac:main"@)]]
    }
}

fn section_text(heading: &str, ss: &Vec<Server>, validated: bool, mark: &str) -> (r: String)
    ensures
        r@ == section(heading@, with_status(ss@, validated), mark@),
{
    let mut parts: Vec<String> = Vec::new();
    let mut i: usize = 0;
    while i < ss.len()
        invariant
            i <= ss.len(),
            string_views(parts@) == with_status(ss@.take(i as int), validated).map_values(
                |s: Server| server_entry(s, mark@),
            ),
        decreases ss.len() - i,
    {
        assert(ss@.take(i + 1).drop_last() =~= ss@.take(i as int));
        if ss[i].validated == validated {
            let line = cat5("  ", mark, " ", ss[i].name.as_str(), " (");
            push_part(&mut parts, cat3(line.as_str(), i64_to_string(ss[i].guild_id).as_str(), ")\n"));
            assert(with_status(ss@.take(i + 1), validated).map_values(
                |s: Server| server_entry(s, mark@),
            ) =~= with_status(ss@.take(i as int), validated).map_values(
                |s: Server| server_entry(s, mark@),
            ).push(server_entry(ss@[i as int], mark@)));
        }
        i = i + 1;
    }
    assert(ss@.take(ss.len() as int) =~= ss@);
    if parts.len() == 0 {
        assert(with_status(ss@, validated).len() == 0);
        return String::new();
    }
    let body = flatten_strings(&parts);
    cat2(heading, body.as_str())
}

/// The Server Validation page: validated and pending servers; the
/// (un)validate buttons only for the bot's admin.
pub fn validate_page(servers: &Result<Vec<Server>, String>, is_admin: bool) -> (r: Option<Page>)
    ensures
        page_result(
            r,
            "✅ Server Validation"@,
            validate_description(*servers),
            None,
            validate_rows(is_admin),
        ),
{
    let description = match servers {
        Err(e) => cat2("Error: ", e.as_str()),
        Ok(ss) => {
            let a = section_text("**Validated:**\n", ss, true, "✅");
            let b = section_text("**Pending:**\n", ss, false, "⏳");
            let c = if ss.len() == 0 {
                String::from_str("No servers found.")
            } else {
                String::new()
            };
            cat3(a.as_str(), b.as_str(), c.as_str())
        },
    };
    let mut row: Vec<Button> = Vec::new();
    if is_admin {
        push_button(&mut row, button("aa:val:validate", "Validate Server", ButtonStyle::Success, "✅"));
        push_button(&mut row, button("aa:val:unvalidate", "Unvalidate Server", ButtonStyle::Danger, "❌"));
    }
    push_button(&mut row, back("ac:main"));
    assert(row_view(row@) =~= validate_rows(is_admin)[0]);
    let mut rows: Vec<Vec<Button>> = Vec::new();
    push_row(&mut rows, row);
    assert(rows_view(rows@) =~= validate_rows(is_admin));
    make_page("✅ Server Validation", description.as_str(), None, rows)
}

// ---------------------------------------------------------------------------
// Forms
// ---------------------------------------------------------------------------

/// A text input of a form.
pub struct InputField {
    pub paragraph: bool,
    pub label: String,
    pub custom_id: String,
    pub required: bool,
    pub placeholder: Option<String>,
    pub value: Option<String>,
}

pub struct InputView {
    pub paragraph: bool,
    pub label: Seq<char>,
    pub custom_id: Seq<char>,
    pub required: bool,
    pub placeholder: Option<Seq<char>>,
    pub value: Option<Seq<char>>,
}

impl View for InputField {
    type V = InputView;

    open spec fn view(&self) -> InputView {
        InputView {
            paragraph: self.paragraph,
            label: self.label@,
            custom_id: self.custom_id@,
            required: self.required,
            placeholder: opt_string_view(self.placeholder),
            value: opt_string_view(self.value),
        }
    }
}

/// A form (modal) with its identifier, title and inputs.
pub struct Modal {
    pub custom_id: String,
    pub title: String,
    pub inputs: Vec<InputField>,
}

pub struct ModalView {
    pub custom_id: Seq<char>,
    pub title: Seq<char>,
    pub inputs: Seq<InputView>,
}

impl View for Modal {
    type V = ModalView;

    open spec fn view(&self) -> ModalView {
        ModalView {
            custom_id: self.custom_id@,
            title: self.title@,
            inputs: self.inputs@.map_values(|i: InputField| i@),
        }
    }
}

pub open spec fn iv(
    paragraph: bool,
    label: Seq<char>,
    id: Seq<char>,
    required: bool,
    placeholder: Option<Seq<char>>,
) -> InputView {
    InputView { paragraph, label, custom_id: id, required, placeholder, value: None }
}

pub fn input(paragraph: bool, label: &str, id: &str, required: bool, placeholder: Option<&str>) -> (r:
    InputField)
    ensures
        r@ == iv(
            paragraph,
            label@,
            id@,
            required,
            match placeholder {
                Some(p) => Some(p@),
                None => None,
            },
        ),
{
    InputField {
        paragraph,
        label: copy_string(label),
        custom_id: copy_string(id),
        required,
        placeholder: match placeholder {
            Some(p) => Some(copy_string(p)),
            None => None,
        },
        value: None,
    }
}

fn push_input(inputs: &mut Vec<InputField>, i: InputField)
    ensures
        final(inputs)@.map_values(|x: InputField| x@) == old(inputs)@.map_values(|x: InputField| x@).push(i@),
{
    let ghost before = inputs@;
    let ghost v = i@;
    inputs.push(i);
    assert(inputs@.map_values(|x: InputField| x@) =~= before.map_values(|x: InputField| x@).push(v));
}

fn modal(id: &str, title: &str, inputs: Vec<InputField>) -> (r: Modal)
    ensures
        r@ == (ModalView {
            custom_id: id@,
            title: title@,
            inputs: inputs@.map_values(|x: InputField| x@),
        }),
{
    Modal { custom_id: copy_string(id), title: copy_string(title), inputs }
}

pub open spec fn add_booru_modal() -> ModalView {
    ModalView {
        custom_id: "am:boorus:add"@,
        title: "Add Booru"@,
        inputs: seq![
            iv(false, "Booru Name"@, "booru_name"@, true, Some("e.g. danbooru"@)),
            iv(false, "Description"@, "description"@, false, Some("Optional slash command description"@)),
            iv(true, "API URLs JSON"@, "urls_json"@, true, Some("{\"posts_url\":\"...\",\"count_url\":null,\"post_url\":\"...\"}"@)),
            iv(true, "JSON Paths JSON"@, "paths_json"@, true, Some("{\"posts_path\":[\"posts\"],\"file_url_path\":[\"file_url\"],...}"@)),
            iv(true, "Options JSON"@, "options_json"@, true, Some("{\"embed_image\":false,\"max_tags\":6,\"page_size\":100,...}"@)),
        ],
    }
}

pub open spec fn add_tags_modal() -> ModalView {
    ModalView {
        custom_id: "am:tags:add"@,
        title: "Add Tags to Pattern"@,
        inputs: seq![
            iv(false, "Pattern Name"@, "pattern_name"@, true, None),
            iv(false, "Booru Name"@, "booru_name"@, true, None),
            iv(false, "Included Tags (comma-separated)"@, "included_tags"@, true, None),
            iv(false, "Excluded Tags (comma-separated)"@, "excluded_tags"@, false, None),
        ],
    }
}

pub open spec fn channel_id_inputs() -> Seq<InputView> {
    seq![
        iv(false, "Guild ID (leave empty for current)"@, "guild_id"@, false, None),
        iv(false, "Channel ID"@, "channel_id"@, true, None),
    ]
}

pub open spec fn add_server_tag_modal() -> ModalView {
    ModalView {
        custom_id: "am:server_tags:add"@,
        title: "Add Server Tag"@,
        inputs: seq![
            iv(false, "Tag Name"@, "tag_name"@, true, Some("Must match a configured tag pattern"@)),
        ],
    }
}

pub open spec fn guild_modal(id: Seq<char>, title: Seq<char>) -> ModalView {
    ModalView {
        custom_id: id,
        title,
        inputs: seq![iv(false, "Guild ID"@, "guild_id"@, true, None)],
    }
}

/// The setting form: key and value inputs, filled with the given texts.
pub open spec fn setting_modal_spec(id: Seq<char>, title: Seq<char>, key: Seq<char>, value: Seq<char>) -> ModalView {
    ModalView {
        custom_id: id,
        title,
        inputs: seq![
            InputView {
                paragraph: false,
                label: "Setting Key"@,
                custom_id: "setting_key"@,
                required: true,
                placeholder: None,
                value: Some(key),
            },
            InputView {
                paragraph: true,
                label: "Setting Value"@,
                custom_id: "setting_value"@,
                required: true,
                placeholder: None,
                value: Some(value),
            },
        ],
    }
}

/// The form that sets a setting, filled with `key` and `value`.
pub fn setting_modal(id: &str, title: &str, key: &str, value: &str) -> (r: Modal)
    ensures
        r@ == setting_modal_spec(id@, title@, key@, value@),
{
    let mut inputs: Vec<InputField> = Vec::new();
    let mut k = input(false, "Setting Key", "setting_key", true, None);
    k.value = Some(copy_string(key));
    push_input(&mut inputs, k);
    let mut v = input(true, "Setting Value", "setting_value", true, None);
    v.value = Some(copy_string(value));
    push_input(&mut inputs, v);
    let r = modal(id, title, inputs);
    assert(r@.inputs =~= setting_modal_spec(id@, title@, key@, value@).inputs);
    r
}

} // verus!
