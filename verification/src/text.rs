//! Character-level string primitives with their mathematical models.
//!
//! Strings are modelled by their `Seq<char>` views. The executable helpers
//! work on `Vec<char>` buffers and on `String`/`&str` at the edges.
use vstd::prelude::*;
use crate::outside::opt_string_view;

verus! {

// ---------------------------------------------------------------------------
// Character classes
// ---------------------------------------------------------------------------

/// The Unicode `White_Space` property, which `char::is_whitespace` follows.
pub open spec fn is_ws(c: char) -> bool {
    let u = c as u32;
    ||| (0x9 <= u && u <= 0xD)
    ||| u == 0x20
    ||| u == 0x85
    ||| u == 0xA0
    ||| u == 0x1680
    ||| (0x2000 <= u && u <= 0x200A)
    ||| u == 0x2028
    ||| u == 0x2029
    ||| u == 0x202F
    ||| u == 0x205F
    ||| u == 0x3000
}

pub fn is_whitespace(c: char) -> (r: bool)
    ensures
        r == is_ws(c),
{
    let u = c as u32;
    (0x9 <= u && u <= 0xD) || u == 0x20 || u == 0x85 || u == 0xA0 || u == 0x1680 || (0x2000 <= u
        && u <= 0x200A) || u == 0x2028 || u == 0x2029 || u == 0x202F || u == 0x205F || u == 0x3000
}

pub open spec fn is_ascii_upper(c: char) -> bool {
    'A' <= c && c <= 'Z'
}

pub open spec fn is_ascii_lower(c: char) -> bool {
    'a' <= c && c <= 'z'
}

pub open spec fn is_ascii_digit(c: char) -> bool {
    '0' <= c && c <= '9'
}

pub open spec fn is_ascii_alnum(c: char) -> bool {
    is_ascii_upper(c) || is_ascii_lower(c) || is_ascii_digit(c)
}

pub fn ascii_alnum(c: char) -> (r: bool)
    ensures
        r == is_ascii_alnum(c),
{
    ('A' <= c && c <= 'Z') || ('a' <= c && c <= 'z') || ('0' <= c && c <= '9')
}

/// `char::to_ascii_lowercase`.
pub open spec fn lower_char(c: char) -> char {
    if is_ascii_upper(c) {
        ((c as u32) + 32) as char
    } else {
        c
    }
}

pub fn to_lower_char(c: char) -> (r: char)
    ensures
        r == lower_char(c),
{
    if 'A' <= c && c <= 'Z' {
        let u = (c as u32) as u8;
        (u + 32) as char
    } else {
        c
    }
}

/// `str::to_ascii_lowercase`.
pub open spec fn lower_seq(s: Seq<char>) -> Seq<char> {
    s.map_values(|c: char| lower_char(c))
}

// ---------------------------------------------------------------------------
// Conversions between `&str`, `String` and `Vec<char>`
// ---------------------------------------------------------------------------

/// Appends one character to a `String` (`String::push`).
#[verifier::external_body]
pub(crate) fn push_char(s: &mut String, c: char)
    ensures
        final(s)@ == old(s)@.push(c),
{
    s.push(c);
}

pub fn chars_of(s: &str) -> (r: Vec<char>)
    ensures
        r@ == s@,
{
    let mut v: Vec<char> = Vec::new();
    let n = s.unicode_len();
    let mut i: usize = 0;
    while i < n
        invariant
            n == s@.len(),
            i <= n,
            v@ == s@.subrange(0, i as int),
        decreases n - i,
    {
        v.push(s.get_char(i));
        i = i + 1;
    }
    v
}

pub fn string_of(v: &Vec<char>) -> (r: String)
    ensures
        r@ == v@,
{
    let mut s = String::new();
    let mut i: usize = 0;
    while i < v.len()
        invariant
            i <= v.len(),
            s@ == v@.subrange(0, i as int),
        decreases v.len() - i,
    {
        push_char(&mut s, v[i]);
        i = i + 1;
    }
    s
}

pub fn copy_string(s: &str) -> (r: String)
    ensures
        r@ == s@,
{
    String::from_str(s)
}

/// Appends the characters of `t` to `v`.
pub fn extend_chars(v: &mut Vec<char>, t: &Vec<char>)
    ensures
        final(v)@ == old(v)@ + t@,
{
    let mut i: usize = 0;
    while i < t.len()
        invariant
            i <= t.len(),
            v@ == old(v)@ + t@.subrange(0, i as int),
        decreases t.len() - i,
    {
        v.push(t[i]);
        i = i + 1;
    }
}

pub fn extend_str(v: &mut Vec<char>, t: &str)
    ensures
        final(v)@ == old(v)@ + t@,
{
    let tc = chars_of(t);
    extend_chars(v, &tc);
}

pub fn subvec(v: &Vec<char>, from: usize, to: usize) -> (r: Vec<char>)
    requires
        from <= to <= v.len(),
    ensures
        r@ == v@.subrange(from as int, to as int),
{
    let mut r: Vec<char> = Vec::new();
    let mut i = from;
    while i < to
        invariant
            from <= i <= to <= v.len(),
            r@ == v@.subrange(from as int, i as int),
        decreases to - i,
    {
        r.push(v[i]);
        i = i + 1;
    }
    r
}

pub fn lower_vec(v: &Vec<char>) -> (r: Vec<char>)
    ensures
        r@ == lower_seq(v@),
{
    let mut r: Vec<char> = Vec::new();
    let mut i: usize = 0;
    while i < v.len()
        invariant
            i <= v.len(),
            r@ == lower_seq(v@.subrange(0, i as int)),
        decreases v.len() - i,
    {
        r.push(to_lower_char(v[i]));
        i = i + 1;
        assert(lower_seq(v@.subrange(0, i as int)) =~= lower_seq(
            v@.subrange(0, i - 1 as int),
        ).push(lower_char(v@[i - 1])));
    }
    assert(v@.subrange(0, v.len() as int) =~= v@);
    r
}

pub fn eq_chars(a: &Vec<char>, b: &Vec<char>) -> (r: bool)
    ensures
        r == (a@ == b@),
{
    if a.len() != b.len() {
        return false;
    }
    let mut i: usize = 0;
    while i < a.len()
        invariant
            a.len() == b.len(),
            i <= a.len(),
            a@.subrange(0, i as int) == b@.subrange(0, i as int),
        decreases a.len() - i,
    {
        if a[i] != b[i] {
            return false;
        }
        i = i + 1;
        assert(a@.subrange(0, i as int) =~= a@.subrange(0, i - 1 as int).push(a@[i - 1]));
        assert(b@.subrange(0, i as int) =~= b@.subrange(0, i - 1 as int).push(b@[i - 1]));
    }
    assert(a@ =~= a@.subrange(0, a.len() as int));
    assert(b@ =~= b@.subrange(0, b.len() as int));
    true
}

pub fn str_eq(a: &str, b: &str) -> (r: bool)
    ensures
        r == (a@ == b@),
{
    let av = chars_of(a);
    let bv = chars_of(b);
    eq_chars(&av, &bv)
}

// ---------------------------------------------------------------------------
// Prefix matching
// ---------------------------------------------------------------------------

pub open spec fn matches_at(s: Seq<char>, i: int, pat: Seq<char>) -> bool {
    0 <= i && i + pat.len() <= s.len() && s.subrange(i, i + pat.len()) == pat
}

pub fn match_at(s: &Vec<char>, i: usize, pat: &Vec<char>) -> (r: bool)
    ensures
        r == matches_at(s@, i as int, pat@),
{
    if i > s.len() || pat.len() > s.len() - i {
        return false;
    }
    let mut k: usize = 0;
    while k < pat.len()
        invariant
            i + pat.len() <= s.len(),
            k <= pat.len(),
            s@.subrange(i as int, i + k) == pat@.subrange(0, k as int),
        decreases pat.len() - k,
    {
        if s[i + k] != pat[k] {
            assert(s@.subrange(i as int, i + pat.len())[k as int] != pat@[k as int]);
            return false;
        }
        k = k + 1;
        assert(s@.subrange(i as int, i + k) =~= s@.subrange(i as int, i + k - 1).push(
            s@[i + k - 1],
        ));
        assert(pat@.subrange(0, k as int) =~= pat@.subrange(0, k - 1 as int).push(pat@[k - 1]));
    }
    assert(pat@ =~= pat@.subrange(0, pat.len() as int));
    true
}

pub open spec fn has_prefix(s: Seq<char>, p: Seq<char>) -> bool {
    p.len() <= s.len() && s.take(p.len() as int) == p
}

pub fn starts_with(s: &Vec<char>, p: &Vec<char>) -> (r: bool)
    ensures
        r == has_prefix(s@, p@),
{
    let r = match_at(s, 0, p);
    proof {
        if r {
            assert(s@.take(p@.len() as int) =~= s@.subrange(0, p@.len() as int));
        } else if has_prefix(s@, p@) {
            assert(s@.take(p@.len() as int) =~= s@.subrange(0, p@.len() as int));
        }
    }
    r
}

/// `str::strip_prefix`.
pub fn strip_prefix(s: &str, p: &str) -> (r: Option<String>)
    ensures
        r matches Some(t) ==> has_prefix(s@, p@) && t@ == s@.skip(p@.len() as int),
        r is None ==> !has_prefix(s@, p@),
{
    let sv = chars_of(s);
    let pv = chars_of(p);
    if starts_with(&sv, &pv) {
        let rest = subvec(&sv, pv.len(), sv.len());
        assert(rest@ =~= s@.skip(p@.len() as int));
        Some(string_of(&rest))
    } else {
        None
    }
}

// ---------------------------------------------------------------------------
// Trimming
// ---------------------------------------------------------------------------

pub open spec fn trim_start_seq(s: Seq<char>) -> Seq<char>
    decreases s.len(),
{
    if s.len() > 0 && is_ws(s[0]) {
        trim_start_seq(s.drop_first())
    } else {
        s
    }
}

pub open spec fn trim_end_seq(s: Seq<char>) -> Seq<char>
    decreases s.len(),
{
    if s.len() > 0 && is_ws(s.last()) {
        trim_end_seq(s.drop_last())
    } else {
        s
    }
}

/// `str::trim`: leading and trailing white space removed.
pub open spec fn trim_seq(s: Seq<char>) -> Seq<char> {
    trim_end_seq(trim_start_seq(s))
}

/// The bounds `(a, b)` such that `v[a..b]` is `v` trimmed.
pub fn trim_bounds(v: &Vec<char>) -> (r: (usize, usize))
    ensures
        r.0 <= r.1 <= v.len(),
        v@.subrange(r.0 as int, r.1 as int) == trim_seq(v@),
{
    let n = v.len();
    let mut i: usize = 0;
    assert(v@.skip(0) =~= v@);
    while i < n && is_whitespace(v[i])
        invariant
            n == v.len(),
            i <= n,
            trim_start_seq(v@.skip(i as int)) == trim_start_seq(v@),
        decreases n - i,
    {
        assert(v@.skip(i as int).drop_first() =~= v@.skip(i + 1));
        i = i + 1;
    }
    assert(trim_start_seq(v@.skip(i as int)) == v@.skip(i as int));
    let mut j: usize = n;
    while j > i && is_whitespace(v[j - 1])
        invariant
            n == v.len(),
            i <= j <= n,
            trim_end_seq(v@.subrange(i as int, j as int)) == trim_seq(v@),
        decreases j,
    {
        assert(v@.subrange(i as int, j as int).drop_last() =~= v@.subrange(i as int, j - 1));
        j = j - 1;
    }
    assert(v@.skip(i as int) =~= v@.subrange(i as int, n as int));
    (i, j)
}

pub fn trim_vec(v: &Vec<char>) -> (r: Vec<char>)
    ensures
        r@ == trim_seq(v@),
{
    let (a, b) = trim_bounds(v);
    subvec(v, a, b)
}

/// `str::trim`, returning an owned string.
pub fn trim(s: &str) -> (r: String)
    ensures
        r@ == trim_seq(s@),
{
    let v = chars_of(s);
    let t = trim_vec(&v);
    string_of(&t)
}

// ---------------------------------------------------------------------------
// Replacing
// ---------------------------------------------------------------------------

/// `str::replace` with a non-empty pattern: every occurrence of `pat`,
/// scanning from the left without overlaps, becomes `rep`.
pub open spec fn replace_seq(s: Seq<char>, pat: Seq<char>, rep: Seq<char>) -> Seq<char>
    decreases s.len(),
{
    if pat.len() == 0 || s.len() == 0 {
        s
    } else if matches_at(s, 0, pat) {
        rep + replace_seq(s.skip(pat.len() as int), pat, rep)
    } else {
        seq![s[0]] + replace_seq(s.drop_first(), pat, rep)
    }
}

pub fn replace_vec(s: &Vec<char>, pat: &Vec<char>, rep: &Vec<char>) -> (r: Vec<char>)
    ensures
        r@ == replace_seq(s@, pat@, rep@),
{
    if pat.len() == 0 {
        let mut c: Vec<char> = Vec::new();
        extend_chars(&mut c, s);
        assert(c@ =~= s@);
        return c;
    }
    let mut out: Vec<char> = Vec::new();
    let mut i: usize = 0;
    assert(s@.skip(0) =~= s@);
    assert(out@ + s@ =~= s@);
    while i < s.len()
        invariant
            pat.len() > 0,
            i <= s.len(),
            out@ + replace_seq(s@.skip(i as int), pat@, rep@) == replace_seq(s@, pat@, rep@),
        decreases s.len() - i,
    {
        let ghost rest = s@.skip(i as int);
        if match_at(s, i, pat) {
            assert(rest.subrange(0, pat@.len() as int) =~= s@.subrange(
                i as int,
                i + pat@.len(),
            ));
            assert(matches_at(rest, 0, pat@));
            assert(rest.skip(pat@.len() as int) =~= s@.skip(i + pat@.len()));
            let ghost old_out = out@;
            extend_chars(&mut out, rep);
            i = i + pat.len();
            assert(out@ + replace_seq(s@.skip(i as int), pat@, rep@) =~= old_out + (rep@
                + replace_seq(s@.skip(i as int), pat@, rep@)));
        } else {
            assert(!matches_at(rest, 0, pat@)) by {
                if matches_at(rest, 0, pat@) {
                    assert(rest.subrange(0, pat@.len() as int) =~= s@.subrange(
                        i as int,
                        i + pat@.len(),
                    ));
                }
            }
            assert(rest.drop_first() =~= s@.skip(i + 1));
            out.push(s[i]);
            i = i + 1;
        }
    }
    assert(s@.skip(s.len() as int) =~= Seq::<char>::empty());
    assert(out@ + Seq::<char>::empty() =~= out@);
    out
}

/// `str::replace` on strings, for a non-empty pattern.
pub fn replace_str(s: &str, pat: &str, rep: &str) -> (r: String)
    ensures
        r@ == replace_seq(s@, pat@, rep@),
{
    let sv = chars_of(s);
    let pv = chars_of(pat);
    let rv = chars_of(rep);
    let out = replace_vec(&sv, &pv, &rv);
    string_of(&out)
}

// ---------------------------------------------------------------------------
// Searching
// ---------------------------------------------------------------------------

/// Separator classes used when splitting text.
#[derive(Clone, Copy)]
pub enum Sep {
    /// One given character.
    Char(char),
    /// Any white space character.
    Ws,
    /// White space or a comma.
    WsOrComma,
    /// What ends a link inside text: white space or one of `<>"')]`.
    UrlEnd,
}

pub open spec fn sep_holds(sep: Sep, c: char) -> bool {
    match sep {
        Sep::Char(x) => c == x,
        Sep::Ws => is_ws(c),
        Sep::WsOrComma => is_ws(c) || c == ',',
        Sep::UrlEnd => is_ws(c) || c == '<' || c == '>' || c == '"' || c == '\'' || c == ')' || c
            == ']',
    }
}

pub fn is_sep(sep: Sep, c: char) -> (r: bool)
    ensures
        r == sep_holds(sep, c),
{
    match sep {
        Sep::Char(x) => c == x,
        Sep::Ws => is_whitespace(c),
        Sep::WsOrComma => is_whitespace(c) || c == ',',
        Sep::UrlEnd => is_whitespace(c) || c == '<' || c == '>' || c == '"' || c == '\'' || c
            == ')' || c == ']',
    }
}

/// Index of the first separator in `s`.
pub open spec fn first_sep(s: Seq<char>, sep: Sep) -> Option<int>
    decreases s.len(),
{
    if s.len() == 0 {
        None
    } else if sep_holds(sep, s[0]) {
        Some(0)
    } else {
        match first_sep(s.drop_first(), sep) {
            Some(k) => Some(k + 1),
            None => None,
        }
    }
}

/// Index of the last separator in `s`.
pub open spec fn last_sep(s: Seq<char>, sep: Sep) -> Option<int>
    decreases s.len(),
{
    if s.len() == 0 {
        None
    } else if sep_holds(sep, s.last()) {
        Some(s.len() - 1)
    } else {
        last_sep(s.drop_last(), sep)
    }
}

proof fn lemma_first_sep_is(s: Seq<char>, sep: Sep, k: Option<int>)
    requires
        match k {
            Some(k) => 0 <= k < s.len() && sep_holds(sep, s[k]) && forall|j: int|
                0 <= j < k ==> !sep_holds(sep, #[trigger] s[j]),
            None => forall|j: int| 0 <= j < s.len() ==> !sep_holds(sep, #[trigger] s[j]),
        },
    ensures
        first_sep(s, sep) == k,
    decreases s.len(),
{
    if s.len() == 0 {
    } else if sep_holds(sep, s[0]) {
        if let Some(k) = k {
            if k > 0 {
                assert(!sep_holds(sep, s[0]));
            }
        } else {
            assert(!sep_holds(sep, s[0]));
        }
    } else {
        let t = s.drop_first();
        match k {
            Some(kk) => {
                assert(kk != 0);
                assert forall|j: int| 0 <= j < kk - 1 implies !sep_holds(sep, #[trigger] t[j]) by {
                    assert(t[j] == s[j + 1]);
                }
                assert(t[kk - 1] == s[kk]);
                lemma_first_sep_is(t, sep, Some(kk - 1));
            },
            None => {
                assert forall|j: int| 0 <= j < t.len() implies !sep_holds(sep, #[trigger] t[j]) by {
                    assert(t[j] == s[j + 1]);
                }
                lemma_first_sep_is(t, sep, None);
            },
        }
    }
}

proof fn lemma_last_sep_is(s: Seq<char>, sep: Sep, k: Option<int>)
    requires
        match k {
            Some(k) => 0 <= k < s.len() && sep_holds(sep, s[k]) && forall|j: int|
                k < j < s.len() ==> !sep_holds(sep, #[trigger] s[j]),
            None => forall|j: int| 0 <= j < s.len() ==> !sep_holds(sep, #[trigger] s[j]),
        },
    ensures
        last_sep(s, sep) == k,
    decreases s.len(),
{
    if s.len() == 0 {
    } else if sep_holds(sep, s.last()) {
        if let Some(k) = k {
            if k < s.len() - 1 {
                assert(!sep_holds(sep, s[s.len() - 1]));
            }
        } else {
            assert(!sep_holds(sep, s[s.len() - 1]));
        }
    } else {
        let t = s.drop_last();
        match k {
            Some(kk) => {
                assert(kk != s.len() - 1);
                assert forall|j: int| kk < j < t.len() implies !sep_holds(sep, #[trigger] t[j]) by {
                    assert(t[j] == s[j]);
                }
                lemma_last_sep_is(t, sep, Some(kk));
            },
            None => {
                assert forall|j: int| 0 <= j < t.len() implies !sep_holds(sep, #[trigger] t[j]) by {
                    assert(t[j] == s[j]);
                }
                lemma_last_sep_is(t, sep, None);
            },
        }
    }
}

/// When some character is a separator, there is a first one.
pub proof fn lemma_first_sep_none(s: Seq<char>, sep: Sep, i: int)
    requires
        0 <= i < s.len(),
        sep_holds(sep, s[i]),
    ensures
        first_sep(s, sep) is Some,
    decreases s.len(),
{
    if !sep_holds(sep, s[0]) {
        assert(s.drop_first()[i - 1] == s[i]);
        lemma_first_sep_none(s.drop_first(), sep, i - 1);
    }
}

pub fn find_sep(v: &Vec<char>, sep: Sep) -> (r: Option<usize>)
    ensures
        r matches Some(k) ==> first_sep(v@, sep) == Some(k as int) && k < v.len() && sep_holds(
            sep,
            v@[k as int],
        ),
        r is None ==> first_sep(v@, sep) is None,
{
    let mut i: usize = 0;
    while i < v.len()
        invariant
            i <= v.len(),
            forall|j: int| 0 <= j < i ==> !sep_holds(sep, #[trigger] v@[j]),
        decreases v.len() - i,
    {
        if is_sep(sep, v[i]) {
            proof {
                lemma_first_sep_is(v@, sep, Some(i as int));
            }
            return Some(i);
        }
        i = i + 1;
    }
    proof {
        lemma_first_sep_is(v@, sep, None);
    }
    None
}

pub fn rfind_sep(v: &Vec<char>, sep: Sep) -> (r: Option<usize>)
    ensures
        r matches Some(k) ==> last_sep(v@, sep) == Some(k as int) && k < v.len() && sep_holds(
            sep,
            v@[k as int],
        ),
        r is None ==> last_sep(v@, sep) is None,
{
    let mut i: usize = v.len();
    while i > 0
        invariant
            i <= v.len(),
            forall|j: int| i <= j < v.len() ==> !sep_holds(sep, #[trigger] v@[j]),
        decreases i,
    {
        if is_sep(sep, v[i - 1]) {
            proof {
                lemma_last_sep_is(v@, sep, Some(i - 1));
            }
            return Some(i - 1);
        }
        i = i - 1;
    }
    proof {
        lemma_last_sep_is(v@, sep, None);
    }
    None
}

/// The part of `s` before its first separator (`s.split(sep).next()`).
pub open spec fn before_first(s: Seq<char>, sep: Sep) -> Seq<char> {
    match first_sep(s, sep) {
        Some(k) => s.take(k),
        None => s,
    }
}

/// The part of `s` after its last separator (`s.rsplit(sep).next()`).
pub open spec fn after_last(s: Seq<char>, sep: Sep) -> Seq<char> {
    match last_sep(s, sep) {
        Some(k) => s.skip(k + 1),
        None => s,
    }
}

/// `s.splitn(2, sep)`: the text before the first separator and, when there
/// is one, the text after it.
pub open spec fn split_once_seq(s: Seq<char>, sep: Sep) -> (Seq<char>, Option<Seq<char>>) {
    match first_sep(s, sep) {
        Some(k) => (s.take(k), Some(s.skip(k + 1))),
        None => (s, None),
    }
}

pub fn split_once(v: &Vec<char>, sep: Sep) -> (r: (Vec<char>, Option<Vec<char>>))
    ensures
        r.0@ == split_once_seq(v@, sep).0,
        r.1 matches Some(t) ==> split_once_seq(v@, sep).1 == Some(t@),
        r.1 is None ==> split_once_seq(v@, sep).1 is None,
{
    match find_sep(v, sep) {
        Some(k) => {
            let a = subvec(v, 0, k);
            let b = subvec(v, k + 1, v.len());
            assert(a@ =~= v@.take(k as int));
            assert(b@ =~= v@.skip(k + 1));
            (a, Some(b))
        },
        None => {
            let a = subvec(v, 0, v.len());
            assert(a@ =~= v@);
            (a, None)
        },
    }
}

// ---------------------------------------------------------------------------
// Splitting and joining
// ---------------------------------------------------------------------------

/// `str::split` by a separator class: all pieces, empty ones included.
pub open spec fn split_seq(s: Seq<char>, sep: Sep) -> Seq<Seq<char>>
    decreases s.len(),
{
    if s.len() == 0 {
        seq![Seq::<char>::empty()]
    } else {
        let r = split_seq(s.drop_last(), sep);
        if sep_holds(sep, s.last()) {
            r.push(Seq::<char>::empty())
        } else {
            r.update(r.len() - 1, r.last().push(s.last()))
        }
    }
}

pub proof fn lemma_split_len(s: Seq<char>, sep: Sep)
    ensures
        split_seq(s, sep).len() >= 1,
    decreases s.len(),
{
    if s.len() > 0 {
        lemma_split_len(s.drop_last(), sep);
    }
}

/// The non-empty pieces of a list.
pub open spec fn non_empty_pieces(ps: Seq<Seq<char>>) -> Seq<Seq<char>>
    decreases ps.len(),
{
    if ps.len() == 0 {
        ps
    } else if ps.last().len() > 0 {
        non_empty_pieces(ps.drop_last()).push(ps.last())
    } else {
        non_empty_pieces(ps.drop_last())
    }
}

/// The views of a list of character buffers.
pub open spec fn views(v: Seq<Vec<char>>) -> Seq<Seq<char>> {
    v.map_values(|x: Vec<char>| x@)
}

/// The views of a list of strings.
pub open spec fn string_views(v: Seq<String>) -> Seq<Seq<char>> {
    v.map_values(|x: String| x@)
}

pub fn split_vec(v: &Vec<char>, sep: Sep) -> (r: Vec<Vec<char>>)
    ensures
        views(r@) == split_seq(v@, sep),
{
    let mut pieces: Vec<Vec<char>> = Vec::new();
    let mut cur: Vec<char> = Vec::new();
    let mut i: usize = 0;
    assert(v@.take(0) =~= Seq::<char>::empty());
    assert(views(pieces@).push(cur@) =~= seq![Seq::<char>::empty()]);
    while i < v.len()
        invariant
            i <= v.len(),
            views(pieces@).push(cur@) == split_seq(v@.take(i as int), sep),
        decreases v.len() - i,
    {
        let c = v[i];
        let ghost pre = v@.take(i as int);
        let ghost next = v@.take(i + 1);
        assert(next.drop_last() =~= pre);
        assert(next.last() == c);
        proof {
            lemma_split_len(pre, sep);
        }
        if is_sep(sep, c) {
            let done = cur;
            pieces.push(done);
            cur = Vec::new();
            assert(views(pieces@).push(cur@) =~= split_seq(pre, sep).push(Seq::<char>::empty()));
        } else {
            let ghost old_pieces = pieces@;
            cur.push(c);
            assert(views(pieces@).push(cur@) =~= split_seq(pre, sep).update(
                split_seq(pre, sep).len() - 1,
                split_seq(pre, sep).last().push(c),
            ));
        }
        i = i + 1;
    }
    assert(v@.take(v.len() as int) =~= v@);
    pieces.push(cur);
    assert(views(pieces@) =~= split_seq(v@, sep));
    pieces
}

pub fn non_empty_vecs(ps: Vec<Vec<char>>) -> (r: Vec<Vec<char>>)
    ensures
        views(r@) == non_empty_pieces(views(ps@)),
{
    let mut out: Vec<Vec<char>> = Vec::new();
    let ghost all = views(ps@);
    let n = ps.len();
    let mut i: usize = 0;
    while i < n
        invariant
            n == all.len(),
            i <= n,
            views(ps@) == all,
            views(out@) == non_empty_pieces(all.take(i as int)),
        decreases n - i,
    {
        let ghost pre = all.take(i as int);
        assert(all.take(i + 1).drop_last() =~= pre);
        let piece = subvec(&ps[i], 0, ps[i].len());
        assert(piece@ =~= all[i as int]);
        if piece.len() > 0 {
            out.push(piece);
            assert(views(out@) =~= non_empty_pieces(pre).push(all[i as int]));
        }
        i = i + 1;
    }
    assert(all.take(n as int) =~= all);
    out
}

/// Pieces joined by a separator (`[..].join(sep)`).
pub open spec fn join_seq(ps: Seq<Seq<char>>, sep: Seq<char>) -> Seq<char>
    decreases ps.len(),
{
    if ps.len() == 0 {
        Seq::<char>::empty()
    } else if ps.len() == 1 {
        ps[0]
    } else {
        join_seq(ps.drop_last(), sep) + sep + ps.last()
    }
}

pub fn join_vecs(ps: &Vec<Vec<char>>, sep: &Vec<char>) -> (r: Vec<char>)
    ensures
        r@ == join_seq(views(ps@), sep@),
{
    let mut out: Vec<char> = Vec::new();
    let mut i: usize = 0;
    while i < ps.len()
        invariant
            i <= ps.len(),
            out@ == join_seq(views(ps@).take(i as int), sep@),
        decreases ps.len() - i,
    {
        let ghost pre = views(ps@).take(i as int);
        assert(views(ps@).take(i + 1).drop_last() =~= pre);
        if i > 0 {
            extend_chars(&mut out, sep);
        }
        extend_chars(&mut out, &ps[i]);
        i = i + 1;
        proof {
            if i == 1 {
                assert(out@ =~= join_seq(views(ps@).take(i as int), sep@));
            }
        }
    }
    assert(views(ps@).take(ps.len() as int) =~= views(ps@));
    out
}

pub fn join_strings(ps: &Vec<String>, sep: &str) -> (r: String)
    ensures
        r@ == join_seq(string_views(ps@), sep@),
{
    let mut out: Vec<char> = Vec::new();
    let sepv = chars_of(sep);
    let mut i: usize = 0;
    while i < ps.len()
        invariant
            i <= ps.len(),
            sepv@ == sep@,
            out@ == join_seq(string_views(ps@).take(i as int), sep@),
        decreases ps.len() - i,
    {
        let ghost pre = string_views(ps@).take(i as int);
        assert(string_views(ps@).take(i + 1).drop_last() =~= pre);
        if i > 0 {
            extend_chars(&mut out, &sepv);
        }
        extend_str(&mut out, ps[i].as_str());
        i = i + 1;
        proof {
            if i == 1 {
                assert(out@ =~= join_seq(string_views(ps@).take(i as int), sep@));
            }
        }
    }
    assert(string_views(ps@).take(ps.len() as int) =~= string_views(ps@));
    string_of(&out)
}

pub fn strings_of(ps: &Vec<Vec<char>>) -> (r: Vec<String>)
    ensures
        string_views(r@) == views(ps@),
{
    let mut out: Vec<String> = Vec::new();
    let mut i: usize = 0;
    while i < ps.len()
        invariant
            i <= ps.len(),
            string_views(out@) == views(ps@).take(i as int),
        decreases ps.len() - i,
    {
        let ghost before = out@;
        let item = string_of(&ps[i]);
        out.push(item);
        assert(string_views(out@) =~= string_views(before).push(ps@[i as int]@));
        i = i + 1;
        assert(string_views(out@) =~= views(ps@).take(i as int));
    }
    assert(views(ps@).take(ps.len() as int) =~= views(ps@));
    out
}

// ---------------------------------------------------------------------------
// Ordering
// ---------------------------------------------------------------------------

/// Lexicographic order on texts by code point (the order of `String`).
pub open spec fn lex_lt(a: Seq<char>, b: Seq<char>) -> bool
    decreases a.len(),
{
    if a.len() == 0 {
        b.len() > 0
    } else if b.len() == 0 {
        false
    } else if a[0] < b[0] {
        true
    } else if a[0] == b[0] {
        lex_lt(a.drop_first(), b.drop_first())
    } else {
        false
    }
}

pub proof fn lemma_lex_irrefl(a: Seq<char>)
    ensures
        !lex_lt(a, a),
    decreases a.len(),
{
    if a.len() > 0 {
        lemma_lex_irrefl(a.drop_first());
    }
}

pub proof fn lemma_lex_trans(a: Seq<char>, b: Seq<char>, c: Seq<char>)
    requires
        lex_lt(a, b),
        lex_lt(b, c),
    ensures
        lex_lt(a, c),
    decreases a.len(),
{
    if a.len() > 0 && b.len() > 0 && c.len() > 0 {
        if a[0] == b[0] && b[0] == c[0] {
            lemma_lex_trans(a.drop_first(), b.drop_first(), c.drop_first());
        }
    }
}

pub proof fn lemma_lex_total(a: Seq<char>, b: Seq<char>)
    requires
        a != b,
    ensures
        lex_lt(a, b) || lex_lt(b, a),
    decreases a.len(),
{
    if a.len() > 0 && b.len() > 0 && a[0] == b[0] {
        if a.drop_first() == b.drop_first() {
            assert(a =~= seq![a[0]] + a.drop_first());
            assert(b =~= seq![b[0]] + b.drop_first());
        }
        lemma_lex_total(a.drop_first(), b.drop_first());
    } else if a.len() == 0 && b.len() == 0 {
        assert(a =~= b);
    }
}

/// Whether `a` comes before `b` in the order of texts.
pub fn lex_less(a: &Vec<char>, b: &Vec<char>) -> (r: bool)
    ensures
        r == lex_lt(a@, b@),
{
    let mut i: usize = 0;
    assert(a@.skip(0) =~= a@);
    assert(b@.skip(0) =~= b@);
    while i < a.len() && i < b.len() && a[i] == b[i]
        invariant
            i <= a.len(),
            i <= b.len(),
            lex_lt(a@.skip(i as int), b@.skip(i as int)) == lex_lt(a@, b@),
        decreases a.len() - i,
    {
        assert(a@.skip(i as int).drop_first() =~= a@.skip(i + 1));
        assert(b@.skip(i as int).drop_first() =~= b@.skip(i + 1));
        i = i + 1;
    }
    if i == a.len() {
        i < b.len()
    } else if i == b.len() {
        false
    } else {
        a[i] < b[i]
    }
}

// ---------------------------------------------------------------------------
// Substring search
// ---------------------------------------------------------------------------

/// The first position where `pat` occurs in `s` (`str::find`).
pub open spec fn find_sub(s: Seq<char>, pat: Seq<char>) -> Option<int>
    decreases s.len(),
{
    if pat.len() > s.len() {
        None
    } else if s.take(pat.len() as int) == pat {
        Some(0)
    } else if s.len() == 0 {
        None
    } else {
        match find_sub(s.drop_first(), pat) {
            Some(k) => Some(k + 1),
            None => None,
        }
    }
}

proof fn lemma_find_sub_is(s: Seq<char>, pat: Seq<char>, k: Option<int>)
    requires
        match k {
            Some(k) => 0 <= k && k + pat.len() <= s.len() && s.subrange(k, k + pat.len()) == pat
                && forall|j: int| 0 <= j < k ==> !#[trigger] matches_at(s, j, pat),
            None => forall|j: int| 0 <= j <= s.len() - pat.len() ==> !#[trigger] matches_at(s, j, pat),
        },
    ensures
        find_sub(s, pat) == k,
    decreases s.len(),
{
    if pat.len() > s.len() {
        if let Some(kk) = k {
        }
    } else if s.take(pat.len() as int) == pat {
        assert(s.subrange(0, pat.len() as int) =~= s.take(pat.len() as int));
        assert(matches_at(s, 0, pat));
        if let Some(kk) = k {
            if kk > 0 {
                assert(!matches_at(s, 0, pat));
            }
        } else {
            assert(!matches_at(s, 0, pat));
        }
    } else if s.len() == 0 {
        assert(pat.len() == 0);
        assert(s.take(0) =~= pat);
    } else {
        let t = s.drop_first();
        match k {
            Some(kk) => {
                if kk == 0 {
                    assert(s.take(pat.len() as int) =~= s.subrange(0, pat.len() as int));
                }
                assert(kk != 0);
                assert forall|j: int| 0 <= j < kk - 1 implies !#[trigger] matches_at(t, j, pat) by {
                    if matches_at(t, j, pat) {
                        assert(t.subrange(j, j + pat.len()) =~= s.subrange(j + 1, j + 1 + pat.len()));
                        assert(matches_at(s, j + 1, pat));
                    }
                }
                assert(t.subrange(kk - 1, kk - 1 + pat.len()) =~= s.subrange(kk, kk + pat.len()));
                lemma_find_sub_is(t, pat, Some(kk - 1));
            },
            None => {
                assert forall|j: int| 0 <= j <= t.len() - pat.len() implies !#[trigger] matches_at(
                    t,
                    j,
                    pat,
                ) by {
                    if matches_at(t, j, pat) {
                        assert(t.subrange(j, j + pat.len()) =~= s.subrange(j + 1, j + 1 + pat.len()));
                        assert(matches_at(s, j + 1, pat));
                    }
                }
                lemma_find_sub_is(t, pat, None);
            },
        }
    }
}

/// `str::find` for a text.
pub fn find_text(s: &Vec<char>, pat: &Vec<char>) -> (r: Option<usize>)
    ensures
        match r {
            Some(k) => find_sub(s@, pat@) == Some(k as int) && k + pat@.len() <= s@.len(),
            None => find_sub(s@, pat@) is None,
        },
{
    if pat.len() > s.len() {
        proof {
            lemma_find_sub_is(s@, pat@, None);
        }
        return None;
    }
    let last = s.len() - pat.len();
    let mut i: usize = 0;
    loop
        invariant
            last == s@.len() - pat@.len(),
            i <= last,
            forall|j: int| 0 <= j < i ==> !#[trigger] matches_at(s@, j, pat@),
        decreases last - i,
    {
        if match_at(s, i, pat) {
            proof {
                lemma_find_sub_is(s@, pat@, Some(i as int));
            }
            return Some(i);
        }
        if i == last {
            proof {
                lemma_find_sub_is(s@, pat@, None);
            }
            return None;
        }
        i = i + 1;
    }
}


// ---------------------------------------------------------------------------
// Building and taking apart short texts
// ---------------------------------------------------------------------------

/// `a + b`.
pub fn cat2(a: &str, b: &str) -> (r: String)
    ensures
        r@ == a@ + b@,
{
    let mut v = chars_of(a);
    extend_str(&mut v, b);
    string_of(&v)
}

/// `a + b + c`.
pub fn cat3(a: &str, b: &str, c: &str) -> (r: String)
    ensures
        r@ == a@ + b@ + c@,
{
    let mut v = chars_of(a);
    extend_str(&mut v, b);
    extend_str(&mut v, c);
    string_of(&v)
}

/// `a + b + c + d`.
pub fn cat4(a: &str, b: &str, c: &str, d: &str) -> (r: String)
    ensures
        r@ == a@ + b@ + c@ + d@,
{
    let mut v = chars_of(a);
    extend_str(&mut v, b);
    extend_str(&mut v, c);
    extend_str(&mut v, d);
    string_of(&v)
}

/// `a + b + c + d + e`.
pub fn cat5(a: &str, b: &str, c: &str, d: &str, e: &str) -> (r: String)
    ensures
        r@ == a@ + b@ + c@ + d@ + e@,
{
    let mut v = chars_of(a);
    extend_str(&mut v, b);
    extend_str(&mut v, c);
    extend_str(&mut v, d);
    extend_str(&mut v, e);
    string_of(&v)
}

/// `s.splitn(2, sep)` on a string.
pub fn split_once_str(s: &str, sep: char) -> (r: (String, Option<String>))
    ensures
        (r.0@, opt_string_view(r.1)) == split_once_seq(s@, Sep::Char(sep)),
{
    let v = chars_of(s);
    let (a, b) = split_once(&v, Sep::Char(sep));
    let first = string_of(&a);
    match b {
        Some(t) => (first, Some(string_of(&t))),
        None => (first, None),
    }
}

/// The text after the first separator, empty when there is none
/// (`s.splitn(2, sep).nth(1).unwrap_or("")`).
pub open spec fn rest_after(s: Seq<char>, sep: char) -> Seq<char> {
    match split_once_seq(s, Sep::Char(sep)).1 {
        Some(t) => t,
        None => Seq::<char>::empty(),
    }
}

pub fn rest_or_empty(r: Option<String>) -> (t: String)
    ensures
        t@ == match opt_string_view(r) {
            Some(x) => x,
            None => Seq::<char>::empty(),
        },
{
    match r {
        Some(x) => x,
        None => String::new(),
    }
}

/// Whether `c` occurs in `s`.
pub fn contains_char(s: &str, c: char) -> (r: bool)
    ensures
        r == s@.contains(c),
{
    let v = chars_of(s);
    match find_sep(&v, Sep::Char(c)) {
        Some(k) => {
            assert(v@[k as int] == c);
            true
        },
        None => {
            proof {
                assert forall|i: int| 0 <= i < v@.len() implies v@[i] != c by {
                    if v@[i] == c {
                        lemma_first_sep_none(v@, Sep::Char(c), i);
                    }
                }
            }
            false
        },
    }
}

/// Each piece trimmed.
pub open spec fn trimmed_all(ps: Seq<Seq<char>>) -> Seq<Seq<char>> {
    ps.map_values(|p: Seq<char>| trim_seq(p))
}

/// `s.split(sep).map(trim).filter(non-empty)`.
pub open spec fn csv_spec(s: Seq<char>, sep: char) -> Seq<Seq<char>> {
    non_empty_pieces(trimmed_all(split_seq(s, Sep::Char(sep))))
}

/// The trimmed, non-empty pieces of `s` between separators.
pub fn split_trimmed(s: &str, sep: char) -> (r: Vec<String>)
    ensures
        string_views(r@) == csv_spec(s@, sep),
{
    let v = chars_of(s);
    let pieces = split_vec(&v, Sep::Char(sep));
    let mut trimmed: Vec<Vec<char>> = Vec::new();
    let mut i: usize = 0;
    while i < pieces.len()
        invariant
            i <= pieces.len(),
            views(trimmed@) == trimmed_all(views(pieces@)).take(i as int),
        decreases pieces.len() - i,
    {
        let t = trim_vec(&pieces[i]);
        let ghost before = trimmed@;
        trimmed.push(t);
        assert(views(trimmed@) =~= views(before).push(t@));
        i = i + 1;
        assert(views(trimmed@) =~= trimmed_all(views(pieces@)).take(i as int));
    }
    assert(trimmed_all(views(pieces@)).take(pieces.len() as int) =~= trimmed_all(views(pieces@)));
    let kept = non_empty_vecs(trimmed);
    strings_of(&kept)
}

} // verus!
