//! Posts kept for the "Send to DM" button, keyed by a short numeric ID and
//! dropped after an hour.
use vstd::prelude::*;
use crate::booru::ImageResult;
use crate::num::{dec, lemma_dec_digits, parse_u64, parse_u64_spec, u64_to_string};
use crate::outside::opt_string_view;
use crate::text::{
    chars_of, extend_str, has_prefix, join_seq, join_strings, str_eq, string_of,
    string_views, strip_prefix,
};

verus! {

/// A post as sent, with the attached image when there was one.
pub struct CachedPost {
    pub image: ImageResult,
    pub booru_name: String,
    pub embed_image: bool,
    pub inline_data: Option<Vec<u8>>,
    pub inline_filename: Option<String>,
}

/// The content of a cached post, by views.
pub struct PostView {
    pub image_url: Seq<char>,
    pub post_url: Option<Seq<char>>,
    pub upstream_source_url: Option<Seq<char>>,
    pub booru_name: Seq<char>,
    pub embed_image: bool,
    pub inline_data: Option<Seq<u8>>,
    pub inline_filename: Option<Seq<char>>,
}

pub open spec fn opt_bytes_view(v: Option<Vec<u8>>) -> Option<Seq<u8>> {
    match v {
        Some(b) => Some(b@),
        None => None,
    }
}

impl View for CachedPost {
    type V = PostView;

    open spec fn view(&self) -> PostView {
        PostView {
            image_url: self.image.image_url@,
            post_url: opt_string_view(self.image.post_url),
            upstream_source_url: opt_string_view(self.image.upstream_source_url),
            booru_name: self.booru_name@,
            embed_image: self.embed_image,
            inline_data: opt_bytes_view(self.inline_data),
            inline_filename: opt_string_view(self.inline_filename),
        }
    }
}

struct CacheEntry {
    id: u64,
    post: CachedPost,
    stored_at: u64,
}

/// Cached posts. Times are nanoseconds on one monotonic clock, supplied by the caller.
pub struct PostCache {
    entries: Vec<CacheEntry>,
    counter: u64,
    max_age: u64,
}

/// One hour, in nanoseconds.
pub const POST_MAX_AGE_NANOS: u64 = 3600000000000u64;

/// The entries of a cache as a map from ID to post and storing time.
pub open spec fn entry_map(s: Seq<(u64, PostView, u64)>) -> Map<u64, (PostView, u64)>
    decreases s.len(),
{
    if s.len() == 0 {
        Map::empty()
    } else {
        entry_map(s.drop_last()).insert(s.last().0, (s.last().1, s.last().2))
    }
}

spec fn entry_views(s: Seq<CacheEntry>) -> Seq<(u64, PostView, u64)> {
    s.map_values(|e: CacheEntry| (e.id, e.post@, e.stored_at))
}

spec fn distinct_ids(s: Seq<(u64, PostView, u64)>) -> bool {
    forall|i: int, j: int| 0 <= i < s.len() && 0 <= j < s.len() && i != j ==> #[trigger] s[i].0
        != #[trigger] s[j].0
}

proof fn lemma_map_dom(s: Seq<(u64, PostView, u64)>, k: u64)
    ensures
        entry_map(s).dom().contains(k) <==> exists|i: int| 0 <= i < s.len() && #[trigger] s[i].0
            == k,
    decreases s.len(),
{
    if s.len() > 0 {
        let t = s.drop_last();
        lemma_map_dom(t, k);
        if entry_map(t).dom().contains(k) {
            let i = choose|i: int| 0 <= i < t.len() && #[trigger] t[i].0 == k;
            assert(s[i] == t[i]);
        }
        if exists|i: int| 0 <= i < s.len() && #[trigger] s[i].0 == k {
            let i = choose|i: int| 0 <= i < s.len() && #[trigger] s[i].0 == k;
            if i < s.len() - 1 {
                assert(t[i] == s[i]);
            }
        }
    }
}

proof fn lemma_map_at(s: Seq<(u64, PostView, u64)>, i: int)
    requires
        distinct_ids(s),
        0 <= i < s.len(),
    ensures
        entry_map(s).dom().contains(s[i].0),
        entry_map(s)[s[i].0] == (s[i].1, s[i].2),
    decreases s.len(),
{
    let t = s.drop_last();
    if i < s.len() - 1 {
        assert(t[i] == s[i]);
        assert(distinct_ids(t)) by {
            assert forall|a: int, b: int|
                0 <= a < t.len() && 0 <= b < t.len() && a != b implies #[trigger] t[a].0
                != #[trigger] t[b].0 by {
                assert(t[a] == s[a] && t[b] == s[b]);
            }
        }
        lemma_map_at(t, i);
        assert(s[s.len() - 1].0 != s[i].0);
    }
}

proof fn lemma_map_update(s: Seq<(u64, PostView, u64)>, i: int, e: (u64, PostView, u64))
    requires
        distinct_ids(s),
        0 <= i < s.len(),
        e.0 == s[i].0,
    ensures
        entry_map(s.update(i, e)) =~= entry_map(s).insert(e.0, (e.1, e.2)),
        distinct_ids(s.update(i, e)),
    decreases s.len(),
{
    let u = s.update(i, e);
    assert(distinct_ids(u)) by {
        assert forall|a: int, b: int|
            0 <= a < u.len() && 0 <= b < u.len() && a != b implies #[trigger] u[a].0
            != #[trigger] u[b].0 by {
            assert(u[a].0 == s[a].0);
            assert(u[b].0 == s[b].0);
        }
    }
    let t = s.drop_last();
    assert(distinct_ids(t)) by {
        assert forall|a: int, b: int|
            0 <= a < t.len() && 0 <= b < t.len() && a != b implies #[trigger] t[a].0
            != #[trigger] t[b].0 by {
            assert(t[a] == s[a] && t[b] == s[b]);
        }
    }
    if i == s.len() - 1 {
        assert(u.drop_last() =~= t);
    } else {
        assert(u.drop_last() =~= t.update(i, e));
        lemma_map_update(t, i, e);
        assert(s[s.len() - 1].0 != s[i].0);
    }
}

/// Whether an entry stored at `stored_at` is still kept at `now`: it is
/// younger than the maximum age (an entry from the future has age zero).
pub open spec fn still_fresh(stored_at: u64, now: u64, max_age: u64) -> bool {
    (if now >= stored_at {
        now - stored_at
    } else {
        0
    }) < max_age
}

/// The entries that a cleanup at `now` keeps.
pub open spec fn fresh_ids(m: Map<u64, (PostView, u64)>, now: u64, max_age: u64) -> Set<u64> {
    Set::new(|k: u64| m.dom().contains(k) && still_fresh(m[k].1, now, max_age))
}

/// The entry that an ID text names: the one whose number renders as that text.
pub open spec fn lookup_id(m: Map<u64, (PostView, u64)>, id: Seq<char>) -> Option<PostView> {
    match parse_u64_spec(id) {
        Some(n) => if dec(n as nat) == id && m.dom().contains(n) {
            Some(m[n].0)
        } else {
            None
        },
        None => None,
    }
}

impl PostCache {
    spec fn wf(self) -> bool {
        distinct_ids(entry_views(self.entries@))
    }

    /// The cached posts, by ID, with the time each was stored.
    pub closed spec fn posts(self) -> Map<u64, (PostView, u64)> {
        entry_map(entry_views(self.entries@))
    }

    /// The ID that the next stored post gets.
    pub closed spec fn next_id(self) -> u64 {
        self.counter
    }

    /// How old a post may get before a cleanup drops it.
    pub closed spec fn max_age(self) -> u64 {
        self.max_age
    }

    pub closed spec fn valid(self) -> bool {
        self.wf()
    }

    /// The cache's state: posts, next ID and maximum age.
    pub open spec fn state(self) -> CacheState {
        CacheState { posts: self.posts(), next: self.next_id(), max_age: self.max_age() }
    }

    /// An empty cache whose posts expire after one hour.
    pub fn new() -> (r: Self)
        ensures
            r.valid(),
            r.posts() == Map::<u64, (PostView, u64)>::empty(),
            r.next_id() == 0,
            r.max_age() == POST_MAX_AGE_NANOS,
    {
        let r = PostCache { entries: Vec::new(), counter: 0, max_age: POST_MAX_AGE_NANOS };
        assert(entry_views(r.entries@) =~= Seq::<(u64, PostView, u64)>::empty());
        r
    }

    fn position(&self, id: u64) -> (r: Option<usize>)
        ensures
            r matches Some(i) ==> i < self.entries@.len() && self.entries@[i as int].id == id,
            r is None ==> forall|i: int|
                0 <= i < self.entries@.len() ==> #[trigger] self.entries@[i].id != id,
    {
        let mut i: usize = 0;
        while i < self.entries.len()
            invariant
                i <= self.entries@.len(),
                forall|j: int| 0 <= j < i ==> #[trigger] self.entries@[j].id != id,
            decreases self.entries@.len() - i,
        {
            if self.entries[i].id == id {
                return Some(i);
            }
            i = i + 1;
        }
        None
    }

    /// Stores a post at time `now` under the next ID and returns that ID as
    /// text; the counter moves on by one (wrapping).
    pub fn store(&mut self, post: CachedPost, now: u64) -> (r: String)
        requires
            old(self).valid(),
        ensures
            final(self).valid(),
            r@ == dec(old(self).next_id() as nat),
            final(self).posts() == old(self).posts().insert(old(self).next_id(), (post@, now)),
            final(self).next_id() == old(self).next_id().wrapping_add(1),
            final(self).max_age() == old(self).max_age(),
            final(self).state() == apply_op(old(self).state(), CacheOp::Store(post@, now)),
    {
        let id = self.counter;
        self.counter = self.counter.wrapping_add(1);
        let ghost pv = post@;
        let entry = CacheEntry { id, post, stored_at: now };
        let ghost old_views = entry_views(self.entries@);
        match self.position(id) {
            Some(i) => {
                proof {
                    assert(old_views[i as int].0 == id);
                    lemma_map_update(old_views, i as int, (id, pv, now));
                }
                self.entries.set(i, entry);
                assert(entry_views(self.entries@) =~= old_views.update(i as int, (id, pv, now)));
            },
            None => {
                self.entries.push(entry);
                assert(entry_views(self.entries@) =~= old_views.push((id, pv, now)));
                assert(entry_views(self.entries@).drop_last() =~= old_views);
                assert(distinct_ids(entry_views(self.entries@))) by {
                    let u = entry_views(self.entries@);
                    assert forall|a: int, b: int|
                        0 <= a < u.len() && 0 <= b < u.len() && a != b implies #[trigger] u[a].0
                        != #[trigger] u[b].0 by {
                        if a < old_views.len() {
                            assert(u[a] == old_views[a]);
                            assert(old_views[a].0 == self.entries@[a].id);
                        }
                        if b < old_views.len() {
                            assert(u[b] == old_views[b]);
                            assert(old_views[b].0 == self.entries@[b].id);
                        }
                    }
                }
            },
        }
        u64_to_string(id)
    }

    /// The post stored under an ID, if it is still cached.
    pub fn get(&self, id: &str) -> (r: Option<CachedPost>)
        requires
            self.valid(),
        ensures
            match r {
                Some(p) => lookup_id(self.posts(), id@) == Some(p@),
                None => lookup_id(self.posts(), id@) is None,
            },
    {
        let n = match parse_u64(id) {
            Some(n) => n,
            None => return None,
        };
        let canonical = u64_to_string(n);
        if !str_eq(canonical.as_str(), id) {
            return None;
        }
        match self.position(n) {
            Some(i) => {
                proof {
                    lemma_map_at(entry_views(self.entries@), i as int);
                }
                let post = &self.entries[i].post;
                let copy = CachedPost {
                    image: ImageResult {
                        image_url: post.image.image_url.clone(),
                        post_url: clone_opt_string(&post.image.post_url),
                        upstream_source_url: clone_opt_string(&post.image.upstream_source_url),
                    },
                    booru_name: post.booru_name.clone(),
                    embed_image: post.embed_image,
                    inline_data: clone_opt_bytes(&post.inline_data),
                    inline_filename: clone_opt_string(&post.inline_filename),
                };
                Some(copy)
            },
            None => {
                proof {
                    lemma_map_dom(entry_views(self.entries@), n);
                    if exists|i: int|
                        0 <= i < entry_views(self.entries@).len() && #[trigger] entry_views(
                            self.entries@,
                        )[i].0 == n {
                        let i = choose|i: int|
                            0 <= i < entry_views(self.entries@).len() && #[trigger] entry_views(
                                self.entries@,
                            )[i].0 == n;
                        assert(self.entries@[i].id == n);
                    }
                }
                None
            },
        }
    }

    /// Drops the posts that are at least `max_age` old at time `now`.
    pub fn cleanup(&mut self, now: u64)
        requires
            old(self).valid(),
        ensures
            final(self).valid(),
            final(self).posts() == old(self).posts().restrict(
                fresh_ids(old(self).posts(), now, old(self).max_age()),
            ),
            final(self).next_id() == old(self).next_id(),
            final(self).max_age() == old(self).max_age(),
            final(self).state() == apply_op(old(self).state(), CacheOp::Cleanup(now)),
    {
        let mut kept: Vec<CacheEntry> = Vec::new();
        let mut old_entries: Vec<CacheEntry> = Vec::new();
        std::mem::swap(&mut old_entries, &mut self.entries);
        let ghost all = entry_views(old_entries@);
        let ghost m = entry_map(all);
        let max_age = self.max_age;
        let n = old_entries.len();
        assert(all.take(0) =~= Seq::<(u64, PostView, u64)>::empty());
        assert(all.take(n as int) =~= all);
        let mut rest: Vec<CacheEntry> = Vec::new();
        let mut src = old_entries;
        while src.len() > 0
            invariant
                n == all.len(),
                src@.len() + rest@.len() == n,
                entry_views(src@) == all.take(src@.len() as int),
                forall|j: int| 0 <= j < rest@.len() ==> entry_views(rest@)[j] == all[n - 1 - j],
            decreases src@.len(),
        {
            let ghost before_src = src@;
            let ghost before_rest = rest@;
            let e = src.pop().unwrap();
            proof {
                assert(entry_views(before_src)[before_src.len() - 1] == all[before_src.len() - 1]);
                assert(entry_views(src@) =~= all.take(src@.len() as int));
            }
            rest.push(e);
            assert forall|j: int| 0 <= j < rest@.len() implies entry_views(rest@)[j] == all[n - 1
                - j] by {
                if j < before_rest.len() {
                    assert(rest@[j] == before_rest[j]);
                    assert(entry_views(rest@)[j] == entry_views(before_rest)[j]);
                } else {
                    assert(rest@[j] == e);
                    assert(before_src[before_src.len() - 1] == e);
                    assert(entry_views(rest@)[j] == entry_views(before_src)[before_src.len() - 1]);
                }
            }
        }
        let mut i: usize = 0;
        while i < n
            invariant
                n == all.len(),
                i <= n,
                rest@.len() == n - i,
                forall|j: int| 0 <= j < n - i ==> entry_views(rest@)[j] == all[n - 1 - j],
                distinct_ids(all),
                max_age == self.max_age,
                entry_views(kept@) == keep_fresh(all.take(i as int), now, max_age),
            decreases n - i,
        {
            let ghost old_rest = rest@;
            let e = rest.pop().unwrap();
            proof {
                assert(old_rest =~= rest@.push(e));
                assert(old_rest[n - i - 1] == e);
                assert(entry_views(old_rest)[n - i - 1] == all[i as int]);
                assert forall|j: int| 0 <= j < n - (i + 1) implies entry_views(rest@)[j] == all[n
                    - 1 - j] by {
                    assert(rest@[j] == old_rest[j]);
                    assert(entry_views(rest@)[j] == entry_views(old_rest)[j]);
                }
            }
            let fresh = if now >= e.stored_at {
                now - e.stored_at < max_age
            } else {
                0 < max_age
            };
            proof {
                assert(all.take(i + 1).drop_last() =~= all.take(i as int));
                assert(all.take(i + 1).last() == all[i as int]);
            }
            if fresh {
                let ghost before = kept@;
                kept.push(e);
                assert(entry_views(kept@) =~= entry_views(before).push(all[i as int]));
            }
            i = i + 1;
        }
        self.entries = kept;
        proof {
            assert(all.take(n as int) =~= all);
            lemma_keep_fresh_map(all, now, max_age);
        }
    }
}

/// The entries of `s` that are still fresh at `now`, in order.
pub open spec fn keep_fresh(s: Seq<(u64, PostView, u64)>, now: u64, max_age: u64) -> Seq<
    (u64, PostView, u64),
>
    decreases s.len(),
{
    if s.len() == 0 {
        s
    } else {
        let r = keep_fresh(s.drop_last(), now, max_age);
        if still_fresh(s.last().2, now, max_age) {
            r.push(s.last())
        } else {
            r
        }
    }
}

proof fn lemma_keep_fresh_members(s: Seq<(u64, PostView, u64)>, now: u64, max_age: u64)
    ensures
        forall|k: int|
            0 <= k < keep_fresh(s, now, max_age).len() ==> exists|j: int|
                0 <= j < s.len() && s[j] == #[trigger] keep_fresh(s, now, max_age)[k],
    decreases s.len(),
{
    if s.len() > 0 {
        let t = s.drop_last();
        lemma_keep_fresh_members(t, now, max_age);
        let r = keep_fresh(t, now, max_age);
        assert forall|k: int|
            0 <= k < keep_fresh(s, now, max_age).len() implies exists|j: int|
                0 <= j < s.len() && s[j] == #[trigger] keep_fresh(s, now, max_age)[k] by {
            if k < r.len() {
                let j = choose|j: int| 0 <= j < t.len() && t[j] == #[trigger] r[k];
                assert(s[j] == t[j]);
                assert(keep_fresh(s, now, max_age)[k] == r[k]);
            } else {
                assert(s[s.len() - 1] == keep_fresh(s, now, max_age)[k]);
            }
        }
    }
}

proof fn lemma_keep_fresh_map(s: Seq<(u64, PostView, u64)>, now: u64, max_age: u64)
    requires
        distinct_ids(s),
    ensures
        distinct_ids(keep_fresh(s, now, max_age)),
        entry_map(keep_fresh(s, now, max_age)) =~= entry_map(s).restrict(
            fresh_ids(entry_map(s), now, max_age),
        ),
    decreases s.len(),
{
    if s.len() == 0 {
        assert(entry_map(s).restrict(fresh_ids(entry_map(s), now, max_age)) =~= Map::empty());
    } else {
        let t = s.drop_last();
        let e = s.last();
        assert(distinct_ids(t)) by {
            assert forall|a: int, b: int|
                0 <= a < t.len() && 0 <= b < t.len() && a != b implies #[trigger] t[a].0
                != #[trigger] t[b].0 by {
                assert(t[a] == s[a] && t[b] == s[b]);
            }
        }
        lemma_keep_fresh_map(t, now, max_age);
        lemma_keep_fresh_members(t, now, max_age);
        lemma_map_dom(t, e.0);
        assert(!entry_map(t).dom().contains(e.0)) by {
            if entry_map(t).dom().contains(e.0) {
                let i = choose|i: int| 0 <= i < t.len() && #[trigger] t[i].0 == e.0;
                assert(s[i] == t[i]);
                assert(s[s.len() - 1].0 != s[i].0);
            }
        }
        let r = keep_fresh(t, now, max_age);
        let m = entry_map(s);
        let mt = entry_map(t);
        assert forall|k: u64| k != e.0 implies (#[trigger] fresh_ids(m, now, max_age).contains(k)
            <==> fresh_ids(mt, now, max_age).contains(k)) by {}
        if still_fresh(e.2, now, max_age) {
            assert(keep_fresh(s, now, max_age) == r.push(e));
            assert(r.push(e).drop_last() =~= r);
            assert(distinct_ids(r.push(e))) by {
                let u = r.push(e);
                assert forall|a: int, b: int|
                    0 <= a < u.len() && 0 <= b < u.len() && a != b implies #[trigger] u[a].0
                    != #[trigger] u[b].0 by {
                    if a < r.len() && b < r.len() {
                        assert(u[a] == r[a] && u[b] == r[b]);
                    } else if a < r.len() {
                        assert(u[a] == r[a]);
                        let j = choose|j: int| 0 <= j < t.len() && t[j] == #[trigger] r[a];
                        assert(mt.dom().contains(t[j].0)) by {
                            lemma_map_dom(t, t[j].0);
                        }
                    } else {
                        assert(u[b] == r[b]);
                        let j = choose|j: int| 0 <= j < t.len() && t[j] == #[trigger] r[b];
                        assert(mt.dom().contains(t[j].0)) by {
                            lemma_map_dom(t, t[j].0);
                        }
                    }
                }
            }
        } else {
            assert(keep_fresh(s, now, max_age) == r);
        }
    }
}

fn clone_opt_string(v: &Option<String>) -> (r: Option<String>)
    ensures
        opt_string_view(r) == opt_string_view(*v),
{
    match v {
        Some(s) => Some(s.clone()),
        None => None,
    }
}

fn clone_opt_bytes(v: &Option<Vec<u8>>) -> (r: Option<Vec<u8>>)
    ensures
        opt_bytes_view(r) == opt_bytes_view(*v),
{
    match v {
        Some(b) => {
            let mut c: Vec<u8> = Vec::new();
            let mut i: usize = 0;
            while i < b.len()
                invariant
                    i <= b.len(),
                    c@ == b@.take(i as int),
                decreases b.len() - i,
            {
                c.push(b[i]);
                i = i + 1;
                assert(c@ =~= b@.take(i as int));
            }
            assert(b@.take(b.len() as int) =~= b@);
            Some(c)
        },
        None => None,
    }
}

/// The DM text of a cached post: its source links, a blank line when there
/// are any, then the image URL.
pub open spec fn dm_content_spec(post: PostView) -> Seq<char> {
    let a = match post.post_url {
        Some(u) => seq!["[source ("@ + post.booru_name + ")](<"@ + u + ">)"@],
        None => Seq::<Seq<char>>::empty(),
    };
    let b = match post.upstream_source_url {
        Some(u) => seq!["[source](<"@ + u + ">)"@],
        None => Seq::<Seq<char>>::empty(),
    };
    let links = a + b;
    let lines = if links.len() > 0 {
        links.push(Seq::<char>::empty())
    } else {
        links
    };
    join_seq(lines.push(post.image_url), "\n"@)
}

/// The text sent by DM for a cached post.
pub fn format_dm_content(post: &CachedPost) -> (r: String)
    ensures
        r@ == dm_content_spec(post@),
{
    let mut lines: Vec<String> = Vec::new();
    if let Some(post_url) = &post.image.post_url {
        let mut v = chars_of("[source (");
        extend_str(&mut v, post.booru_name.as_str());
        extend_str(&mut v, ")](<");
        extend_str(&mut v, post_url.as_str());
        extend_str(&mut v, ">)");
        lines.push(string_of(&v));
    }
    if let Some(source) = &post.image.upstream_source_url {
        let mut v = chars_of("[source](<");
        extend_str(&mut v, source.as_str());
        extend_str(&mut v, ">)");
        let ghost before = lines@;
        lines.push(string_of(&v));
        assert(string_views(lines@) =~= string_views(before).push(v@));
    }
    proof {
        let pv = post@;
        let a = match pv.post_url {
            Some(u) => seq!["[source ("@ + pv.booru_name + ")](<"@ + u + ">)"@],
            None => Seq::<Seq<char>>::empty(),
        };
        let b = match pv.upstream_source_url {
            Some(u) => seq!["[source](<"@ + u + ">)"@],
            None => Seq::<Seq<char>>::empty(),
        };
        assert(string_views(lines@) =~= a + b);
    }
    let ghost links = string_views(lines@);
    if lines.len() > 0 {
        let ghost before = lines@;
        lines.push(String::new());
        assert(string_views(lines@) =~= string_views(before).push(Seq::<char>::empty()));
    }
    let ghost before = lines@;
    lines.push(post.image.image_url.clone());
    assert(string_views(lines@) =~= string_views(before).push(post.image.image_url@));
    join_strings(&lines, "\n")
}

/// `line` stands in `text` as a whole line: between the start of the text or
/// a line break and a line break or the end of the text.
pub open spec fn is_line_of(text: Seq<char>, line: Seq<char>) -> bool {
    exists|k: int|
        0 <= k && k + line.len() <= text.len() && #[trigger] text.subrange(k, k + line.len()) == line
            && (k == 0 || text[k - 1] == '\n') && (k + line.len() == text.len() || text[k
            + line.len()] == '\n')
}

proof fn lemma_join_append(a: Seq<Seq<char>>, b: Seq<Seq<char>>, sep: Seq<char>)
    requires
        a.len() > 0,
        b.len() > 0,
    ensures
        join_seq(a + b, sep) == join_seq(a, sep) + sep + join_seq(b, sep),
    decreases b.len(),
{
    if b.len() == 1 {
        assert((a + b).drop_last() =~= a);
    } else {
        lemma_join_append(a, b.drop_last(), sep);
        assert((a + b).drop_last() =~= a + b.drop_last());
        assert(join_seq(a + b, sep) =~= join_seq(a, sep) + sep + join_seq(b, sep));
    }
}

/// Each piece joined with line breaks is a line of the result.
proof fn lemma_joined_piece_is_line(ps: Seq<Seq<char>>, i: int)
    requires
        0 <= i < ps.len(),
    ensures
        is_line_of(join_seq(ps, "\n"@), ps[i]),
{
    let nl = "\n"@;
    assert(nl =~= seq!['\n']) by {
        reveal_strlit("\n");
    }
    let x = ps[i];
    let left = ps.take(i + 1);
    let right = ps.skip(i + 1);
    let a = if i > 0 {
        join_seq(ps.take(i), nl) + nl
    } else {
        Seq::<char>::empty()
    };
    let b = if right.len() > 0 {
        nl + join_seq(right, nl)
    } else {
        Seq::<char>::empty()
    };
    assert(join_seq(left, nl) == a + x) by {
        if i > 0 {
            assert(left =~= ps.take(i) + seq![x]);
            lemma_join_append(ps.take(i), seq![x], nl);
            assert(join_seq(seq![x], nl) == x);
            assert(join_seq(ps.take(i), nl) + nl + x =~= a + x);
        } else {
            assert(left =~= seq![x]);
            assert(a + x =~= x);
        }
    }
    assert(join_seq(ps, nl) == a + x + b) by {
        if right.len() > 0 {
            assert(ps =~= left + right);
            lemma_join_append(left, right, nl);
            assert(join_seq(left, nl) + nl + join_seq(right, nl) =~= a + x + b);
        } else {
            assert(ps =~= left);
            assert(a + x =~= a + x + b);
        }
    }
    let t = join_seq(ps, nl);
    let k = a.len() as int;
    assert(t.subrange(k, k + x.len()) =~= x);
    if i > 0 {
        assert(t[k - 1] == a[k - 1]);
    }
    if right.len() > 0 {
        assert(t[k + x.len()] == b[0]);
    }
}

/// Every link of a cached post is a line of its DM text, the post's own
/// link first, and the image URL ends the text: alone when the post has no
/// link, else after a blank line.
pub proof fn law_dm_text_carries_every_link(post: PostView)
    ensures
        ({
            let t = dm_content_spec(post);
            &&& post.post_url matches Some(u) ==> {
                let l = "[source ("@ + post.booru_name + ")](<"@ + u + ">)"@;
                &&& is_line_of(t, l)
                &&& t.len() > l.len() && t.take(l.len() as int) == l && t[l.len() as int] == '\n'
            }
            &&& post.upstream_source_url matches Some(u) ==> is_line_of(t, "[source](<"@ + u + ">)"@)
            &&& (post.post_url is None && post.upstream_source_url is None) ==> t == post.image_url
            &&& (post.post_url is Some || post.upstream_source_url is Some) ==> {
                &&& t.len() >= post.image_url.len() + 2
                &&& t.skip(t.len() - post.image_url.len() - 2) == "\n\n"@ + post.image_url
            }
        }),
{
    let nl = "\n"@;
    assert(nl =~= seq!['\n']) by {
        reveal_strlit("\n");
    }
    assert("\n\n"@ =~= seq!['\n', '\n']) by {
        reveal_strlit("\n\n");
    }
    let a = match post.post_url {
        Some(u) => seq!["[source ("@ + post.booru_name + ")](<"@ + u + ">)"@],
        None => Seq::<Seq<char>>::empty(),
    };
    let b = match post.upstream_source_url {
        Some(u) => seq!["[source](<"@ + u + ">)"@],
        None => Seq::<Seq<char>>::empty(),
    };
    let links = a + b;
    let lines = if links.len() > 0 {
        links.push(Seq::<char>::empty())
    } else {
        links
    };
    let all = lines.push(post.image_url);
    let t = dm_content_spec(post);
    assert(t == join_seq(all, nl));
    if let Some(u) = post.post_url {
        let l = "[source ("@ + post.booru_name + ")](<"@ + u + ">)"@;
        assert(all[0] == l);
        lemma_joined_piece_is_line(all, 0);
        assert(all.len() > 1);
        assert(all =~= seq![l] + all.skip(1));
        lemma_join_append(seq![l], all.skip(1), nl);
        assert(join_seq(seq![l], nl) == l);
        assert(t =~= l + nl + join_seq(all.skip(1), nl));
        assert(t.take(l.len() as int) =~= l);
        assert(t[l.len() as int] == nl[0]);
    }
    if let Some(u) = post.upstream_source_url {
        assert(all[a.len() as int] == "[source](<"@ + u + ">)"@);
        lemma_joined_piece_is_line(all, a.len() as int);
    }
    if links.len() == 0 {
        assert(all =~= seq![post.image_url]);
    } else {
        let tail = seq![Seq::<char>::empty(), post.image_url];
        assert(all =~= links + tail);
        lemma_join_append(links, tail, nl);
        assert(tail.drop_last() =~= seq![Seq::<char>::empty()]);
        assert(join_seq(seq![Seq::<char>::empty()], nl) == Seq::<char>::empty());
        assert(tail.last() == post.image_url);
        assert(join_seq(tail, nl) == join_seq(tail.drop_last(), nl) + nl + tail.last());
        assert(join_seq(tail, nl) =~= nl + post.image_url);
        let j = join_seq(links, nl);
        assert(t =~= j + ("\n\n"@ + post.image_url));
        assert(t.skip(t.len() - post.image_url.len() - 2) =~= "\n\n"@ + post.image_url);
    }
}

/// A post with both links is sent as its post link, its source link, a
/// blank line and the image URL.
pub proof fn law_dm_text_with_both_links(post: PostView)
    requires
        post.post_url is Some,
        post.upstream_source_url is Some,
    ensures
        dm_content_spec(post) == "[source ("@ + post.booru_name + ")](<"@ + post.post_url.unwrap()
            + ">)\n[source](<"@ + post.upstream_source_url.unwrap() + ">)\n\n"@ + post.image_url,
{
    let nl = "\n"@;
    assert(nl =~= seq!['\n']) by {
        reveal_strlit("\n");
    }
    let p = post.post_url.unwrap();
    let u = post.upstream_source_url.unwrap();
    let l1 = "[source ("@ + post.booru_name + ")](<"@ + p + ">)"@;
    let l2 = "[source](<"@ + u + ">)"@;
    let links = seq![l1, l2];
    let tail = seq![Seq::<char>::empty(), post.image_url];
    let all = links.push(Seq::<char>::empty()).push(post.image_url);
    let t = dm_content_spec(post);
    assert(seq![l1] + seq![l2] =~= links);
    assert(t == join_seq(all, nl));
    assert(all =~= links + tail);
    lemma_join_append(links, tail, nl);
    assert(tail.drop_last() =~= seq![Seq::<char>::empty()]);
    assert(join_seq(seq![Seq::<char>::empty()], nl) == Seq::<char>::empty());
    assert(join_seq(tail, nl) == join_seq(tail.drop_last(), nl) + nl + tail.last());
    assert(links.drop_last() =~= seq![l1]);
    assert(join_seq(links, nl) == join_seq(seq![l1], nl) + nl + l2);
    assert(">)\n[source](<"@ =~= ">)"@ + nl + "[source](<"@) by {
        reveal_strlit(">)\n[source](<");
        reveal_strlit(">)");
        reveal_strlit("[source](<");
    }
    assert(">)\n\n"@ =~= ">)"@ + nl + nl) by {
        reveal_strlit(">)\n\n");
        reveal_strlit(">)");
    }
    assert(t =~= "[source ("@ + post.booru_name + ")](<"@ + p + ">)\n[source](<"@ + u + ">)\n\n"@
        + post.image_url);
}

/// `dm:{cache_id}`: the custom ID of a post's DM button.
pub fn dm_button_id(cache_id: &str) -> (r: String)
    ensures
        r@ == "dm:"@ + cache_id@,
{
    let mut v = chars_of("dm:");
    extend_str(&mut v, cache_id);
    string_of(&v)
}

/// The cache ID in a DM button's custom ID.
pub fn parse_dm_button_id(custom_id: &str) -> (r: Option<String>)
    ensures
        r matches Some(t) ==> has_prefix(custom_id@, "dm:"@) && t@ == custom_id@.skip(
            "dm:"@.len() as int,
        ),
        r is None ==> !has_prefix(custom_id@, "dm:"@),
{
    strip_prefix(custom_id, "dm:")
}

/// A button made for a cache ID gives that ID back.
pub proof fn law_dm_button_id_roundtrip(cache_id: Seq<char>)
    ensures
        has_prefix("dm:"@ + cache_id, "dm:"@),
        ("dm:"@ + cache_id).skip("dm:"@.len() as int) == cache_id,
{
    assert(("dm:"@ + cache_id).take("dm:"@.len() as int) =~= "dm:"@);
    assert(("dm:"@ + cache_id).skip("dm:"@.len() as int) =~= cache_id);
}

/// Two numbers with the same rendering are the same number.
pub proof fn lemma_dec_injective(a: nat, b: nat)
    requires
        dec(a) == dec(b),
    ensures
        a == b,
{
    lemma_dec_digits(a);
    lemma_dec_digits(b);
}

/// A stored post is found again under the ID that storing it returned.
pub proof fn law_stored_post_is_found(
    posts: Map<u64, (PostView, u64)>,
    id: u64,
    post: PostView,
    now: u64,
)
    ensures
        lookup_id(posts.insert(id, (post, now)), dec(id as nat)) == Some(post),
{
    crate::num::lemma_parse_u64_of_dec(id);
}

/// Storing a post leaves every other cached post as it was.
pub proof fn law_store_keeps_other_posts(
    posts: Map<u64, (PostView, u64)>,
    id: u64,
    post: PostView,
    now: u64,
    other: Seq<char>,
)
    requires
        other != dec(id as nat),
    ensures
        lookup_id(posts.insert(id, (post, now)), other) == lookup_id(posts, other),
{
}

/// The ID given to a post differs from the one given to the next post.
pub proof fn law_consecutive_ids_differ(counter: u64)
    ensures
        dec(counter as nat) != dec(counter.wrapping_add(1) as nat),
{
    if dec(counter as nat) == dec(counter.wrapping_add(1) as nat) {
        lemma_dec_injective(counter as nat, counter.wrapping_add(1) as nat);
    }
}

/// A cleanup at `now` keeps exactly the posts stored less than the maximum age before `now`.
pub proof fn law_cleanup_keeps_fresh_posts(
    posts: Map<u64, (PostView, u64)>,
    now: u64,
    max_age: u64,
    id: u64,
)
    ensures
        posts.restrict(fresh_ids(posts, now, max_age)).dom().contains(id) <==> (posts.dom().contains(
            id,
        ) && still_fresh(posts[id].1, now, max_age)),
        posts.restrict(fresh_ids(posts, now, max_age)).dom().contains(id) ==> posts.restrict(
            fresh_ids(posts, now, max_age),
        )[id] == posts[id],
{
}

/// A cache's state: its posts by ID with their storing times, the next ID,
/// and the maximum age.
pub struct CacheState {
    pub posts: Map<u64, (PostView, u64)>,
    pub next: u64,
    pub max_age: u64,
}

/// A call that changes a cache: storing a post at a time, or a cleanup at a
/// time. (`get` changes nothing.)
pub enum CacheOp {
    Store(PostView, u64),
    Cleanup(u64),
}

/// One call on a cache state, as `store` and `cleanup` state it.
pub open spec fn apply_op(s: CacheState, op: CacheOp) -> CacheState {
    match op {
        CacheOp::Store(p, now) => CacheState {
            posts: s.posts.insert(s.next, (p, now)),
            next: s.next.wrapping_add(1),
            max_age: s.max_age,
        },
        CacheOp::Cleanup(now) => CacheState {
            posts: s.posts.restrict(fresh_ids(s.posts, now, s.max_age)),
            next: s.next,
            max_age: s.max_age,
        },
    }
}

/// A sequence of calls, in order.
pub open spec fn run_ops(s: CacheState, ops: Seq<CacheOp>) -> CacheState
    decreases ops.len(),
{
    if ops.len() == 0 {
        s
    } else {
        apply_op(run_ops(s, ops.drop_last()), ops.last())
    }
}

/// How many of the calls store a post.
pub open spec fn store_count(ops: Seq<CacheOp>) -> nat
    decreases ops.len(),
{
    if ops.len() == 0 {
        0
    } else {
        store_count(ops.drop_last()) + if ops.last() is Store {
            1nat
        } else {
            0nat
        }
    }
}

/// The IDs that the stores among the calls hand out.
pub open spec fn issued_ids(s: CacheState, ops: Seq<CacheOp>) -> Set<u64>
    decreases ops.len(),
{
    if ops.len() == 0 {
        Set::empty()
    } else {
        let before = issued_ids(s, ops.drop_last());
        if ops.last() is Store {
            before.insert(run_ops(s, ops.drop_last()).next)
        } else {
            before
        }
    }
}

/// Every cleanup among the calls runs while a post stored at `stored_at` is still fresh.
pub open spec fn cleanups_while_fresh(ops: Seq<CacheOp>, stored_at: u64, max_age: u64) -> bool {
    forall|i: int|
        0 <= i < ops.len() ==> (#[trigger] ops[i] matches CacheOp::Cleanup(now) ==> still_fresh(
            stored_at,
            now,
            max_age,
        ))
}

proof fn lemma_run_counts(s: CacheState, ops: Seq<CacheOp>)
    ensures
        run_ops(s, ops).max_age == s.max_age,
        run_ops(s, ops).next as int == (s.next as int + store_count(ops)) % 0x1_0000_0000_0000_0000,
    decreases ops.len(),
{
    if ops.len() > 0 {
        lemma_run_counts(s, ops.drop_last());
    }
}

/// A post stored in a cache is found again under the ID that storing it
/// returned, whatever calls follow: later stores (fewer than 2^64 of them,
/// so the counter does not come round to that ID again) and cleanups run
/// while the post is younger than the maximum age.
pub proof fn law_stored_post_stays(s: CacheState, p: PostView, t: u64, ops: Seq<CacheOp>)
    requires
        store_count(ops) <= u64::MAX,
        cleanups_while_fresh(ops, t, s.max_age),
    ensures
        lookup_id(run_ops(apply_op(s, CacheOp::Store(p, t)), ops).posts, dec(s.next as nat)) == Some(
            p,
        ),
    decreases ops.len(),
{
    lemma_stays(s, p, t, ops);
    crate::num::lemma_parse_u64_of_dec(s.next);
}

proof fn lemma_stays(s: CacheState, p: PostView, t: u64, ops: Seq<CacheOp>)
    requires
        store_count(ops) <= u64::MAX,
        cleanups_while_fresh(ops, t, s.max_age),
    ensures
        run_ops(apply_op(s, CacheOp::Store(p, t)), ops).posts.dom().contains(s.next),
        run_ops(apply_op(s, CacheOp::Store(p, t)), ops).posts[s.next] == (p, t),
    decreases ops.len(),
{
    let s0 = apply_op(s, CacheOp::Store(p, t));
    if ops.len() > 0 {
        let d = ops.drop_last();
        assert(cleanups_while_fresh(d, t, s.max_age)) by {
            assert forall|i: int| 0 <= i < d.len() implies (#[trigger] d[i] matches CacheOp::Cleanup(now)
                ==> still_fresh(t, now, s.max_age)) by {
                assert(d[i] == ops[i]);
            }
        }
        lemma_stays(s, p, t, d);
        let r = run_ops(s0, d);
        lemma_run_counts(s0, d);
        assert(s0.next as int == (s.next as int + 1) % 0x1_0000_0000_0000_0000);
        match ops.last() {
            CacheOp::Store(q, now) => {
                assert(store_count(d) + 1 <= u64::MAX);
                assert(r.next as int == (s.next as int + 1 + store_count(d)) % 0x1_0000_0000_0000_0000);
                assert(r.next != s.next);
            },
            CacheOp::Cleanup(now) => {
                assert(ops[ops.len() - 1] == ops.last());
                assert(still_fresh(t, now, s.max_age));
                assert(r.max_age == s.max_age);
                assert(fresh_ids(r.posts, now, r.max_age).contains(s.next));
            },
        }
    }
}

/// What a cache finds under an ID text is a post it held before the calls
/// or one that a store among the calls put under an ID it handed out; so a
/// new cache finds nothing under a text that no store returned.
pub proof fn law_found_only_under_issued_ids(s: CacheState, ops: Seq<CacheOp>, id: Seq<char>)
    ensures
        lookup_id(run_ops(s, ops).posts, id) is Some ==> exists|n: u64|
            dec(n as nat) == id && (s.posts.dom().contains(n) || issued_ids(s, ops).contains(n)),
{
    if lookup_id(run_ops(s, ops).posts, id) is Some {
        let n = parse_u64_spec(id)->Some_0;
        lemma_held_before_or_issued(s, ops, n);
    }
}

proof fn lemma_held_before_or_issued(s: CacheState, ops: Seq<CacheOp>, n: u64)
    ensures
        run_ops(s, ops).posts.dom().contains(n) ==> s.posts.dom().contains(n) || issued_ids(
            s,
            ops,
        ).contains(n),
    decreases ops.len(),
{
    if ops.len() > 0 {
        lemma_held_before_or_issued(s, ops.drop_last(), n);
    }
}

} // verus!
