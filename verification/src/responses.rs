//! Command names and the text of image responses.
use vstd::prelude::*;
use crate::booru::{ImageResult, InlineImageResult};
use crate::cli;
use crate::config::BooruConfig;
use crate::num::{dec, usize_to_string};
use crate::outside::{char_to_lowercase, opt_string_view, parse_url, unicode_lowercase, url_parse};
use crate::text::{
    ascii_alnum, chars_of, is_ascii_digit, is_ascii_lower, is_ascii_upper, lower_char, extend_chars, extend_str, is_ascii_alnum, join_seq, join_strings,
    lower_seq, lower_vec, replace_seq, replace_str, starts_with, string_of, string_views, subvec,
    trim_seq, trim_vec,
};

verus! {

// ---------------------------------------------------------------------------
// Command names
// ---------------------------------------------------------------------------

/// The lowercase mapping of one character: an ASCII one by ASCII
/// lowercasing, any other by its Unicode lowercase mapping.
pub open spec fn char_lowercase(c: char) -> Seq<char> {
    if (c as u32) < 128 {
        seq![lower_char(c)]
    } else {
        unicode_lowercase(c)
    }
}

/// The characters of a text, each replaced by its lowercase mapping.
pub open spec fn lowercase_all(s: Seq<char>) -> Seq<char>
    decreases s.len(),
{
    if s.len() == 0 {
        Seq::<char>::empty()
    } else {
        lowercase_all(s.drop_last()) + char_lowercase(s.last())
    }
}

/// ASCII alphanumerics kept, every other character turned into `-`.
pub open spec fn hyphenate(s: Seq<char>) -> Seq<char> {
    s.map_values(|c: char| if is_ascii_alnum(c) { c } else { '-' })
}

/// Runs of `-` collapsed to one `-`.
pub open spec fn collapse_hyphens(s: Seq<char>) -> Seq<char>
    decreases s.len(),
{
    if s.len() == 0 {
        s
    } else {
        let r = collapse_hyphens(s.drop_last());
        if s.last() == '-' && s.len() >= 2 && s[s.len() - 2] == '-' {
            r
        } else {
            r.push(s.last())
        }
    }
}

pub open spec fn trim_start_hyphens(s: Seq<char>) -> Seq<char>
    decreases s.len(),
{
    if s.len() > 0 && s[0] == '-' {
        trim_start_hyphens(s.drop_first())
    } else {
        s
    }
}

pub open spec fn trim_end_hyphens(s: Seq<char>) -> Seq<char>
    decreases s.len(),
{
    if s.len() > 0 && s.last() == '-' {
        trim_end_hyphens(s.drop_last())
    } else {
        s
    }
}

/// A text turned into a Discord command name component: lowercased, runs of
/// characters other than ASCII alphanumerics turned into one `-`, and no `-`
/// at either end.
pub open spec fn name_component(s: Seq<char>) -> Seq<char> {
    trim_end_hyphens(trim_start_hyphens(collapse_hyphens(hyphenate(lowercase_all(s)))))
}

fn hyphen_of(c: char) -> (r: char)
    ensures
        r == (if is_ascii_alnum(c) {
            c
        } else {
            '-'
        }),
{
    if ascii_alnum(c) {
        c
    } else {
        '-'
    }
}

fn trim_hyphens(v: &Vec<char>) -> (r: Vec<char>)
    ensures
        r@ == trim_end_hyphens(trim_start_hyphens(v@)),
{
    let n = v.len();
    let mut i: usize = 0;
    assert(v@.skip(0) =~= v@);
    while i < n && v[i] == '-'
        invariant
            n == v.len(),
            i <= n,
            trim_start_hyphens(v@.skip(i as int)) == trim_start_hyphens(v@),
        decreases n - i,
    {
        assert(v@.skip(i as int).drop_first() =~= v@.skip(i + 1));
        i = i + 1;
    }
    assert(trim_start_hyphens(v@.skip(i as int)) == v@.skip(i as int));
    let mut j: usize = n;
    while j > i && v[j - 1] == '-'
        invariant
            n == v.len(),
            i <= j <= n,
            trim_end_hyphens(v@.subrange(i as int, j as int)) == trim_end_hyphens(
                trim_start_hyphens(v@),
            ),
        decreases j,
    {
        assert(v@.subrange(i as int, j as int).drop_last() =~= v@.subrange(i as int, j - 1));
        j = j - 1;
    }
    assert(v@.skip(i as int) =~= v@.subrange(i as int, n as int));
    subvec(v, i, j)
}

/// Turns a booru or tag name into a command name component.
pub fn discord_name_component(value: &str) -> (r: String)
    ensures
        r@ == name_component(value@),
{
    let chars = chars_of(value);
    let mut out: Vec<char> = Vec::new();
    let mut last_was_hyphen = false;
    let ghost mut mapped: Seq<char> = Seq::empty();
    let mut i: usize = 0;
    assert(chars@.take(0) =~= Seq::<char>::empty());
    assert(lowercase_all(Seq::<char>::empty()) =~= Seq::<char>::empty());
    assert(hyphenate(Seq::<char>::empty()) =~= Seq::<char>::empty());
    while i < chars.len()
        invariant
            i <= chars.len(),
            chars@ == value@,
            mapped == hyphenate(lowercase_all(chars@.take(i as int))),
            out@ == collapse_hyphens(mapped),
            last_was_hyphen == (mapped.len() > 0 && mapped.last() == '-'),
        decreases chars.len() - i,
    {
        let lowered = char_to_lowercase(chars[i]);
        let ghost start = mapped;
        let mut k: usize = 0;
        assert(lowered@.take(0) =~= Seq::<char>::empty());
        assert(start + hyphenate(Seq::<char>::empty()) =~= start);
        while k < lowered.len()
            invariant
                k <= lowered.len(),
                mapped == start + hyphenate(lowered@.take(k as int)),
                out@ == collapse_hyphens(mapped),
                last_was_hyphen == (mapped.len() > 0 && mapped.last() == '-'),
            decreases lowered.len() - k,
        {
            let m = hyphen_of(lowered[k]);
            let ghost before = mapped;
            proof {
                mapped = mapped.push(m);
                assert(lowered@.take(k + 1) =~= lowered@.take(k as int).push(lowered@[k as int]));
                assert(hyphenate(lowered@.take(k + 1)) =~= hyphenate(lowered@.take(k as int)).push(m));
                assert(mapped =~= start + hyphenate(lowered@.take(k + 1)));
                assert(mapped.drop_last() =~= before);
            }
            if m == '-' {
                if !last_was_hyphen {
                    out.push(m);
                }
                last_was_hyphen = true;
            } else {
                out.push(m);
                last_was_hyphen = false;
            }
            k = k + 1;
        }
        proof {
            assert(lowered@.take(lowered@.len() as int) =~= lowered@);
            let p = chars@.take(i + 1);
            assert(p.drop_last() =~= chars@.take(i as int));
            assert(lowercase_all(p) == lowercase_all(chars@.take(i as int)) + char_lowercase(
                chars@[i as int],
            ));
            assert(hyphenate(lowercase_all(p)) =~= hyphenate(lowercase_all(chars@.take(i as int)))
                + hyphenate(lowered@));
        }
        i = i + 1;
    }
    assert(chars@.take(chars.len() as int) =~= chars@);
    let trimmed = trim_hyphens(&out);
    string_of(&trimmed)
}

// ---------------------------------------------------------------------------
// What a command name component looks like
// ---------------------------------------------------------------------------

/// An ASCII letter or digit, or `-`.
pub open spec fn alnum_or_hyphen(c: char) -> bool {
    is_ascii_alnum(c) || c == '-'
}

/// A lowercase ASCII letter, a digit, or `-`.
pub open spec fn name_char(c: char) -> bool {
    is_ascii_lower(c) || is_ascii_digit(c) || c == '-'
}

/// No two `-` in a row, and none at either end.
pub open spec fn hyphens_tidy(t: Seq<char>) -> bool {
    &&& forall|i: int, j: int|
        #![trigger t[i], t[j]]
        0 <= i && j == i + 1 && j < t.len() ==> !(t[i] == '-' && t[j] == '-')
    &&& t.len() > 0 ==> t[0] != '-' && t.last() != '-'
}

proof fn lemma_collapse_last(x: Seq<char>)
    requires
        x.len() > 0,
    ensures
        collapse_hyphens(x).len() > 0,
        collapse_hyphens(x).last() == x.last(),
    decreases x.len(),
{
    if x.last() == '-' && x.len() >= 2 && x[x.len() - 2] == '-' {
        lemma_collapse_last(x.drop_last());
    }
}

proof fn lemma_collapse_chars(x: Seq<char>, p: spec_fn(char) -> bool)
    requires
        forall|j: int| 0 <= j < x.len() ==> p(#[trigger] x[j]),
    ensures
        forall|i: int| 0 <= i < collapse_hyphens(x).len() ==> p(#[trigger] collapse_hyphens(x)[i]),
    decreases x.len(),
{
    if x.len() > 0 {
        let d = x.drop_last();
        assert forall|j: int| 0 <= j < d.len() implies p(#[trigger] d[j]) by {
            assert(d[j] == x[j]);
        }
        lemma_collapse_chars(d, p);
        let r = collapse_hyphens(d);
        assert(p(x[x.len() - 1]));
        if !(x.last() == '-' && x.len() >= 2 && x[x.len() - 2] == '-') {
            let c = r.push(x.last());
            assert forall|i: int| 0 <= i < c.len() implies p(#[trigger] c[i]) by {
                if i < r.len() {
                    assert(c[i] == r[i]);
                }
            }
        }
    }
}

proof fn lemma_collapse_tidy(x: Seq<char>)
    ensures
        forall|i: int, j: int|
            #![trigger collapse_hyphens(x)[i], collapse_hyphens(x)[j]]
            0 <= i && j == i + 1 && j < collapse_hyphens(x).len() ==> !(collapse_hyphens(x)[i] == '-'
                && collapse_hyphens(x)[j] == '-'),
    decreases x.len(),
{
    if x.len() > 0 {
        let d = x.drop_last();
        let r = collapse_hyphens(d);
        lemma_collapse_tidy(d);
        if !(x.last() == '-' && x.len() >= 2 && x[x.len() - 2] == '-') {
            if x.len() >= 2 {
                lemma_collapse_last(d);
                assert(r.last() == x[x.len() - 2]);
            }
            let c = r.push(x.last());
            assert forall|i: int, j: int|
                #![trigger c[i], c[j]]
                0 <= i && j == i + 1 && j < c.len() implies !(c[i] == '-' && c[j] == '-') by {
                if j < r.len() {
                    assert(c[i] == r[i] && c[j] == r[j]);
                } else {
                    assert(c[i] == r.last());
                }
            }
        }
    }
}

proof fn lemma_collapse_id(x: Seq<char>)
    requires
        forall|i: int, j: int|
            #![trigger x[i], x[j]]
            0 <= i && j == i + 1 && j < x.len() ==> !(x[i] == '-' && x[j] == '-'),
    ensures
        collapse_hyphens(x) == x,
    decreases x.len(),
{
    if x.len() > 0 {
        let d = x.drop_last();
        assert forall|i: int, j: int|
            #![trigger d[i], d[j]]
            0 <= i && j == i + 1 && j < d.len() implies !(d[i] == '-' && d[j] == '-') by {
            assert(d[i] == x[i] && d[j] == x[j]);
        }
        lemma_collapse_id(d);
        if x.len() >= 2 {
            let i = x.len() - 2;
            let j = x.len() - 1;
            assert(!(x[i] == '-' && x[j] == '-'));
        }
        assert(d.push(x.last()) =~= x);
    }
}

proof fn lemma_trim_start(x: Seq<char>) -> (k: int)
    ensures
        0 <= k <= x.len(),
        trim_start_hyphens(x) == x.skip(k),
        x.skip(k).len() > 0 ==> x.skip(k)[0] != '-',
    decreases x.len(),
{
    if x.len() > 0 && x[0] == '-' {
        let k = lemma_trim_start(x.drop_first());
        assert(x.drop_first().skip(k) =~= x.skip(k + 1));
        k + 1
    } else {
        assert(x.skip(0) =~= x);
        0
    }
}

proof fn lemma_trim_end(x: Seq<char>) -> (k: int)
    ensures
        0 <= k <= x.len(),
        trim_end_hyphens(x) == x.take(k),
        k > 0 ==> x[k - 1] != '-',
    decreases x.len(),
{
    if x.len() > 0 && x.last() == '-' {
        let k = lemma_trim_end(x.drop_last());
        assert(x.drop_last().take(k) =~= x.take(k));
        k
    } else {
        assert(x.take(x.len() as int) =~= x);
        x.len() as int
    }
}

/// The trimmed, collapsed form of a text keeps its characters and has tidy hyphens.
proof fn lemma_tidy_form(h: Seq<char>, p: spec_fn(char) -> bool)
    requires
        forall|j: int| 0 <= j < h.len() ==> p(#[trigger] h[j]),
    ensures
        ({
            let r = trim_end_hyphens(trim_start_hyphens(collapse_hyphens(h)));
            &&& forall|i: int| 0 <= i < r.len() ==> p(#[trigger] r[i])
            &&& hyphens_tidy(r)
        }),
{
    let c = collapse_hyphens(h);
    lemma_collapse_chars(h, p);
    lemma_collapse_tidy(h);
    let a = lemma_trim_start(c);
    let t = c.skip(a);
    let b = lemma_trim_end(t);
    let r = t.take(b);
    assert(r =~= c.subrange(a, a + b));
    assert forall|i: int| 0 <= i < r.len() implies p(#[trigger] r[i]) by {
        assert(r[i] == c[a + i]);
    }
    assert forall|i: int, j: int|
        #![trigger r[i], r[j]]
        0 <= i && j == i + 1 && j < r.len() implies !(r[i] == '-' && r[j] == '-') by {
        assert(r[i] == c[a + i] && r[j] == c[a + j]);
        let ci = a + i;
        let cj = a + j;
        assert(!(c[ci] == '-' && c[cj] == '-'));
    }
    if r.len() > 0 {
        assert(r[0] == t[0]);
        assert(r.last() == t[b - 1]);
    }
}

/// Every command name component is made of ASCII letters, digits and `-`,
/// with no two `-` in a row and none at either end.
pub proof fn law_name_component_shape(s: Seq<char>)
    ensures
        forall|i: int| 0 <= i < name_component(s).len() ==> alnum_or_hyphen(
            #[trigger] name_component(s)[i],
        ),
        hyphens_tidy(name_component(s)),
{
    let h = hyphenate(lowercase_all(s));
    let p = |c: char| alnum_or_hyphen(c);
    assert forall|j: int| 0 <= j < h.len() implies p(#[trigger] h[j]) by {}
    lemma_tidy_form(h, p);
}

proof fn lemma_lowercase_ascii(s: Seq<char>)
    requires
        forall|i: int| 0 <= i < s.len() ==> (#[trigger] s[i] as u32) < 128,
    ensures
        lowercase_all(s) == lower_seq(s),
    decreases s.len(),
{
    if s.len() > 0 {
        let d = s.drop_last();
        assert forall|i: int| 0 <= i < d.len() implies (#[trigger] d[i] as u32) < 128 by {
            assert(d[i] == s[i]);
        }
        lemma_lowercase_ascii(d);
        assert((s[s.len() - 1] as u32) < 128);
        assert(lower_seq(s) =~= lower_seq(d) + seq![lower_char(s.last())]);
    }
}

proof fn lemma_lower_char(c: char)
    ensures
        !is_ascii_upper(lower_char(c)),
        is_ascii_alnum(c) ==> is_ascii_alnum(lower_char(c)),
        !is_ascii_upper(c) ==> lower_char(c) == c,
        is_ascii_alnum(lower_char(c)) ==> is_ascii_alnum(c),
{
}

/// A name made of lowercase letters, digits and tidy hyphens is its own
/// command name component.
pub proof fn law_name_component_fixed(t: Seq<char>)
    requires
        forall|i: int| 0 <= i < t.len() ==> name_char(#[trigger] t[i]),
        hyphens_tidy(t),
    ensures
        name_component(t) == t,
{
    assert forall|i: int| 0 <= i < t.len() implies (#[trigger] t[i] as u32) < 128 by {
        assert(name_char(t[i]));
    }
    lemma_lowercase_ascii(t);
    assert forall|i: int| 0 <= i < t.len() implies lower_seq(t)[i] == t[i] by {
        assert(name_char(t[i]));
        lemma_lower_char(t[i]);
    }
    assert(lower_seq(t) =~= t);
    assert forall|i: int| 0 <= i < t.len() implies hyphenate(t)[i] == t[i] by {
        assert(name_char(t[i]));
    }
    assert(hyphenate(t) =~= t);
    lemma_collapse_id(t);
}

/// For any text: the command name component of its command name component
/// is that component with its ASCII capitals lowercased; so applying the
/// conversion twice gives what once gives whenever that holds no capital
/// (as for every text in ASCII, see `law_name_component_ascii`).
pub proof fn law_name_component_twice(s: Seq<char>)
    ensures
        name_component(name_component(s)) == lower_seq(name_component(s)),
        (forall|i: int| 0 <= i < name_component(s).len() ==> !is_ascii_upper(
            #[trigger] name_component(s)[i],
        )) ==> name_component(name_component(s)) == name_component(s),
{
    let r = name_component(s);
    law_name_component_shape(s);
    assert forall|i: int| 0 <= i < r.len() implies (#[trigger] r[i] as u32) < 128 by {
        assert(alnum_or_hyphen(r[i]));
    }
    lemma_lowercase_ascii(r);
    let l = lower_seq(r);
    assert forall|i: int| 0 <= i < l.len() implies name_char(#[trigger] l[i]) by {
        assert(alnum_or_hyphen(r[i]));
        lemma_lower_char(r[i]);
    }
    assert forall|i: int| 0 <= i < l.len() implies (#[trigger] l[i] == '-') == (r[i] == '-') by {
        lemma_lower_char(r[i]);
        assert(alnum_or_hyphen(r[i]));
    }
    assert(hyphens_tidy(l)) by {
        assert forall|i: int, j: int|
            #![trigger l[i], l[j]]
            0 <= i && j == i + 1 && j < l.len() implies !(l[i] == '-' && l[j] == '-') by {
            assert((l[i] == '-') == (r[i] == '-'));
            assert((l[j] == '-') == (r[j] == '-'));
        }
        if l.len() > 0 {
            assert((l[0] == '-') == (r[0] == '-'));
            assert((l[l.len() - 1] == '-') == (r[r.len() - 1] == '-'));
        }
    }
    law_name_component_fixed(l);
    assert forall|i: int| 0 <= i < l.len() implies (#[trigger] l[i] as u32) < 128 by {
        assert(name_char(l[i]));
    }
    lemma_lowercase_ascii(l);
    assert forall|i: int| 0 <= i < l.len() implies lower_seq(l)[i] == l[i] by {
        assert(name_char(l[i]));
        lemma_lower_char(l[i]);
    }
    assert(lower_seq(l) =~= l);
    assert(lowercase_all(r) == lowercase_all(l));
    if forall|i: int| 0 <= i < r.len() ==> !is_ascii_upper(#[trigger] r[i]) {
        assert forall|i: int| 0 <= i < r.len() implies l[i] == r[i] by {
            lemma_lower_char(r[i]);
        }
        assert(l =~= r);
    }
}

/// For a text in ASCII: its command name component holds only lowercase
/// letters, digits and `-`; it is its own component; and a text of ASCII
/// letters and digits alone becomes its lowercase.
pub proof fn law_name_component_ascii(s: Seq<char>)
    requires
        forall|i: int| 0 <= i < s.len() ==> (#[trigger] s[i] as u32) < 128,
    ensures
        forall|i: int| 0 <= i < name_component(s).len() ==> name_char(#[trigger] name_component(s)[i]),
        hyphens_tidy(name_component(s)),
        name_component(name_component(s)) == name_component(s),
        (forall|i: int| 0 <= i < s.len() ==> is_ascii_alnum(#[trigger] s[i])) ==> name_component(s)
            == lower_seq(s),
{
    lemma_lowercase_ascii(s);
    let l = lower_seq(s);
    let h = hyphenate(l);
    let p = |c: char| name_char(c);
    assert forall|j: int| 0 <= j < h.len() implies p(#[trigger] h[j]) by {
        lemma_lower_char(s[j]);
    }
    lemma_tidy_form(h, p);
    law_name_component_fixed(name_component(s));
    if forall|i: int| 0 <= i < s.len() ==> is_ascii_alnum(#[trigger] s[i]) {
        assert forall|i: int| 0 <= i < l.len() implies is_ascii_alnum(#[trigger] l[i]) by {
            lemma_lower_char(s[i]);
        }
        assert(h =~= l);
        assert forall|i: int, j: int|
            #![trigger h[i], h[j]]
            0 <= i && j == i + 1 && j < h.len() implies !(h[i] == '-' && h[j] == '-') by {
            assert(is_ascii_alnum(l[i]));
        }
        lemma_collapse_id(h);
        if h.len() > 0 {
            assert(is_ascii_alnum(l[0]));
            assert(is_ascii_alnum(l[l.len() - 1]));
        }
    }
}

/// `"{component}-custom"`: the command of a booru's free-tag search.
pub fn custom_command_name(booru_name: &str) -> (r: String)
    ensures
        r@ == name_component(booru_name@) + "-custom"@,
{
    let component = discord_name_component(booru_name);
    let mut v = chars_of(component.as_str());
    extend_str(&mut v, "-custom");
    string_of(&v)
}

/// How many tag options a booru's free-tag command takes: `max_tags`, or 9
/// when it is 0 (no limit).
pub fn custom_tag_count(booru: &BooruConfig) -> (r: usize)
    ensures
        r == (if booru.max_tags == 0 {
            9
        } else {
            booru.max_tags
        }),
{
    if booru.max_tags == 0 {
        9
    } else {
        booru.max_tags
    }
}

/// A user tag trimmed, with each space replaced by the booru's replacement.
pub fn normalize_user_tag(tag: &str, space_replacement: &str) -> (r: String)
    ensures
        r@ == replace_seq(trim_seq(tag@), " "@, space_replacement@),
{
    let v = chars_of(tag);
    let t = trim_vec(&v);
    let ts = string_of(&t);
    replace_str(ts.as_str(), " ", space_replacement)
}

// ---------------------------------------------------------------------------
// Image responses
// ---------------------------------------------------------------------------

pub open spec fn strip_all_www(s: Seq<char>) -> Seq<char>
    decreases s.len(),
{
    if s.len() >= 4 && s.take(4) == "www."@ {
        strip_all_www(s.skip(4))
    } else {
        s
    }
}

/// The site of a link: its host with every leading `www.` removed, lowercased.
pub open spec fn site_label(url: Seq<char>) -> Option<Seq<char>> {
    match url_parse(url) {
        Some(parts) => match parts.1 {
            Some(host) => Some(lower_seq(strip_all_www(host))),
            None => None,
        },
        None => None,
    }
}

/// `[source (site)](<url>)`, or `[source](<url>)` when the link has no site.
pub open spec fn source_link_spec(url: Seq<char>) -> Seq<char> {
    let label = match site_label(url) {
        Some(site) => "source ("@ + site + ")"@,
        None => "source"@,
    };
    "["@ + label + "](<"@ + url + ">)"@
}

/// The source links of a response: the booru post, the upstream source, and
/// a `compressed` marker.
pub open spec fn source_links_spec(booru_name: Seq<char>, image: ImageResult, compressed: bool) -> Seq<
    Seq<char>,
> {
    let a = match image.post_url {
        Some(p) => seq!["[source ("@ + booru_name + ")](<"@ + p@ + ">)"@],
        None => Seq::<Seq<char>>::empty(),
    };
    let b = match image.upstream_source_url {
        Some(u) => seq![source_link_spec(u@)],
        None => Seq::<Seq<char>>::empty(),
    };
    let c = if compressed {
        seq!["compressed"@]
    } else {
        Seq::<Seq<char>>::empty()
    };
    a + b + c
}

/// The response text: the source links joined by ` | `, then a new line and
/// the image URL; only the image URL when there are no links.
pub open spec fn image_response_spec(booru_name: Seq<char>, image: ImageResult, compressed: bool) -> Seq<
    char,
> {
    let links = source_links_spec(booru_name, image, compressed);
    if links.len() == 0 {
        image.image_url@
    } else {
        join_seq(links, " | "@) + "\n"@ + image.image_url@
    }
}

fn strip_www(v: &Vec<char>) -> (r: Vec<char>)
    ensures
        r@ == strip_all_www(v@),
{
    let www = chars_of("www.");
    let mut i: usize = 0;
    assert(v@.skip(0) =~= v@);
    while i <= v.len() && v.len() - i >= 4 && starts_with(&subvec(v, i, v.len()), &www)
        invariant
            i <= v.len(),
            www@ == "www."@,
            strip_all_www(v@.skip(i as int)) == strip_all_www(v@),
        decreases v.len() - i,
    {
        proof {
            reveal_strlit("www.");
            let t = v@.skip(i as int);
            assert(t =~= v@.subrange(i as int, v.len() as int));
            assert(t.skip(4) =~= v@.skip(i + 4));
        }
        i = i + 4;
    }
    let r = subvec(v, i, v.len());
    proof {
        reveal_strlit("www.");
        let t = v@.skip(i as int);
        assert(t =~= v@.subrange(i as int, v.len() as int));
        if t.len() >= 4 && t.take(4) == "www."@ {
            assert(false);
        }
    }
    assert(r@ =~= v@.skip(i as int));
    r
}

/// The site label of a parsed host: every leading `www.` removed, then
/// ASCII-lowercased.
pub fn host_site_label(host: &str) -> (r: String)
    ensures
        r@ == lower_seq(strip_all_www(host@)),
{
    let hv = chars_of(host);
    let stripped = strip_www(&hv);
    let lowered = lower_vec(&stripped);
    string_of(&lowered)
}

/// The lowercased host of a link, without leading `www.`.
pub fn source_site_label(url: &str) -> (r: Option<String>)
    ensures
        match r {
            Some(s) => site_label(url@) == Some(s@),
            None => site_label(url@) is None,
        },
{
    match parse_url(url) {
        Some(parts) => match parts.host {
            Some(host) => Some(host_site_label(host.as_str())),
            None => None,
        },
        None => None,
    }
}

/// A markdown link to an upstream source, labelled with its site.
pub fn format_source_link(url: &str) -> (r: String)
    ensures
        r@ == source_link_spec(url@),
{
    let mut label: Vec<char> = Vec::new();
    match source_site_label(url) {
        Some(site) => {
            extend_str(&mut label, "source (");
            extend_str(&mut label, site.as_str());
            extend_str(&mut label, ")");
        },
        None => {
            extend_str(&mut label, "source");
            assert(label@ =~= "source"@);
        },
    }
    let mut out: Vec<char> = Vec::new();
    extend_str(&mut out, "[");
    extend_chars(&mut out, &label);
    extend_str(&mut out, "](<");
    extend_str(&mut out, url);
    extend_str(&mut out, ">)");
    proof {
        let l = match site_label(url@) {
            Some(site) => "source ("@ + site + ")"@,
            None => "source"@,
        };
        assert(label@ =~= l);
        assert(out@ =~= "["@ + l + "](<"@ + url@ + ">)"@);
    }
    string_of(&out)
}

/// The source links of a response (see `source_links_spec`).
pub fn response_source_links(booru: &BooruConfig, image: &ImageResult, compressed: bool) -> (r: Vec<
    String,
>)
    ensures
        string_views(r@) == source_links_spec(booru.name@, *image, compressed),
{
    let mut links: Vec<String> = Vec::new();
    let ghost a = match &image.post_url {
        Some(p) => seq!["[source ("@ + booru.name@ + ")](<"@ + p@ + ">)"@],
        None => Seq::<Seq<char>>::empty(),
    };
    let ghost b = match &image.upstream_source_url {
        Some(u) => seq![source_link_spec(u@)],
        None => Seq::<Seq<char>>::empty(),
    };
    let ghost c = if compressed {
        seq!["compressed"@]
    } else {
        Seq::<Seq<char>>::empty()
    };
    if let Some(post_url) = &image.post_url {
        let mut v: Vec<char> = Vec::new();
        extend_str(&mut v, "[source (");
        extend_str(&mut v, booru.name.as_str());
        extend_str(&mut v, ")](<");
        extend_str(&mut v, post_url.as_str());
        extend_str(&mut v, ">)");
        links.push(string_of(&v));
    }
    assert(string_views(links@) =~= a);
    if let Some(upstream) = &image.upstream_source_url {
        let ghost before = links@;
        links.push(format_source_link(upstream.as_str()));
        assert(string_views(links@) =~= string_views(before).push(source_link_spec(upstream@)));
    }
    assert(string_views(links@) =~= a + b);
    if compressed {
        let ghost before = links@;
        links.push(String::from_str("compressed"));
        assert(string_views(links@) =~= string_views(before).push("compressed"@));
    }
    assert(string_views(links@) =~= a + b + c);
    links
}

/// The text of a link response (see `image_response_spec`).
pub fn format_image_response(booru: &BooruConfig, image: &ImageResult, compressed: bool) -> (r:
    String)
    ensures
        r@ == image_response_spec(booru.name@, *image, compressed),
{
    let links = response_source_links(booru, image, compressed);
    if links.len() == 0 {
        String::from_str(image.image_url.as_str())
    } else {
        let joined = join_strings(&links, " | ");
        let mut v = chars_of(joined.as_str());
        extend_str(&mut v, "\n");
        extend_str(&mut v, image.image_url.as_str());
        string_of(&v)
    }
}

/// The caption of an attached image: the source links joined by ` | `, if any.
pub fn format_inline_image_response(booru: &BooruConfig, image: &ImageResult, compressed: bool) -> (r:
    Option<String>)
    ensures
        match r {
            Some(s) => source_links_spec(booru.name@, *image, compressed).len() > 0 && s@
                == join_seq(source_links_spec(booru.name@, *image, compressed), " | "@),
            None => source_links_spec(booru.name@, *image, compressed).len() == 0,
        },
{
    let links = response_source_links(booru, image, compressed);
    if links.len() == 0 {
        None
    } else {
        Some(join_strings(&links, " | "))
    }
}

/// `"{n}. <{link}>"` for the n-th link (counting from 1).
pub open spec fn numbered_link(n: nat, link: Seq<char>) -> Seq<char> {
    dec(n) + ". <"@ + link + ">"@
}

/// The numbered links, one per line.
pub open spec fn recent_art_links_spec(links: Seq<String>) -> Seq<char> {
    join_seq(Seq::new(links.len(), |i: int| numbered_link((i + 1) as nat, links[i]@)), "\n"@)
}

/// Lists links as `1. <link>`, one per line.
pub fn format_recent_art_links(links: &[String]) -> (r: String)
    ensures
        r@ == recent_art_links_spec(links@),
{
    let mut lines: Vec<String> = Vec::new();
    let mut i: usize = 0;
    while i < links.len()
        invariant
            i <= links@.len(),
            string_views(lines@) == Seq::new(
                i as nat,
                |j: int| numbered_link((j + 1) as nat, links@[j]@),
            ),
        decreases links@.len() - i,
    {
        let number = usize_to_string(i + 1);
        let mut v = chars_of(number.as_str());
        extend_str(&mut v, ". <");
        extend_str(&mut v, links[i].as_str());
        extend_str(&mut v, ">");
        let ghost before = lines@;
        lines.push(string_of(&v));
        assert(string_views(lines@) =~= string_views(before).push(
            numbered_link((i + 1) as nat, links@[i as int]@),
        ));
        i = i + 1;
        assert(string_views(lines@) =~= Seq::new(
            i as nat,
            |j: int| numbered_link((j + 1) as nat, links@[j]@),
        ));
    }
    join_strings(&lines, "\n")
}

/// The measured compression time, or `0ms`.
pub open spec fn compression_time_text(inline_image: InlineImageResult) -> Seq<char> {
    match inline_image.compression_time {
        Some(t) => t@,
        None => "0ms"@,
    }
}

/// The log line for the post that is sent: with compression time when the
/// image was re-encoded (`0ms` when none was measured).
pub fn log_final_selection(timestamp: &str, image: &ImageResult, inline_image: &InlineImageResult) -> (r:
    String)
    ensures
        inline_image.compressed ==> r@ == cli::words(
            seq![
                "Final selection (kept + compressed):"@,
                timestamp@,
                cli::normalize_optional_str_spec(opt_string_view(image.post_url)),
                cli::normalize_optional_str_spec(opt_string_view(image.upstream_source_url)),
                cli::normalize_spec(image.image_url@),
                "Compressed in"@,
                cli::normalize_spec(compression_time_text(*inline_image)),
            ],
        ),
        !inline_image.compressed ==> r@ == cli::words(
            seq![
                "Final selection (kept):"@,
                timestamp@,
                cli::normalize_optional_str_spec(opt_string_view(image.post_url)),
                cli::normalize_optional_str_spec(opt_string_view(image.upstream_source_url)),
                cli::normalize_spec(image.image_url@),
            ],
        ),
{
    let post_url: Option<&str> = match &image.post_url {
        Some(s) => Some(s.as_str()),
        None => None,
    };
    let upstream: Option<&str> = match &image.upstream_source_url {
        Some(s) => Some(s.as_str()),
        None => None,
    };
    assert(cli::opt_view(post_url) == opt_string_view(image.post_url));
    assert(cli::opt_view(upstream) == opt_string_view(image.upstream_source_url));
    if inline_image.compressed {
        let time: &str = match &inline_image.compression_time {
            Some(t) => t.as_str(),
            None => "0ms",
        };
        assert(time@ == compression_time_text(*inline_image));
        let r = cli::final_kept_compressed(
            timestamp,
            post_url,
            upstream,
            image.image_url.as_str(),
            time,
        );
        r
    } else {
        cli::final_kept(timestamp, post_url, upstream, image.image_url.as_str())
    }
}

} // verus!
