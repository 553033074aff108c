//! The bounded recency cache of item records.

use vstd::prelude::*;
use vstd::multiset::Multiset;
use crate::item::{
    bytes_view, holds, item_of, load_single_item, CachedPreviousItem, ItemProbe, ItemView,
};
use crate::text::str_eq;

verus! {

/// How many records the cache holds at most.
pub const MAX_PREVIOUS_ITEMS: usize = 6;

/// The views of a sequence of records.
pub open spec fn views(items: Seq<CachedPreviousItem>) -> Seq<ItemView> {
    items.map_values(|i: CachedPreviousItem| i@)
}

/// No two records share a location.
pub open spec fn paths_unique(s: Seq<ItemView>) -> bool {
    forall|i: int, j: int| 0 <= i < j < s.len() ==> #[trigger] s[i].path != #[trigger] s[j].path
}

/// The records are ordered from newest to oldest.
pub open spec fn sorted_desc(s: Seq<ItemView>) -> bool {
    forall|i: int, j: int|
        0 <= i < j < s.len() ==> #[trigger] s[i].created_at >= #[trigger] s[j].created_at
}

/// Some record of `s` is at location `p`.
pub open spec fn has_path(s: Seq<ItemView>, p: Seq<char>) -> bool {
    exists|k: int| 0 <= k < s.len() && #[trigger] s[k].path == p
}

/// The records of `s` whose location no earlier record has, in order.
pub open spec fn first_occurrences(s: Seq<ItemView>) -> Seq<ItemView>
    decreases s.len(),
{
    if s.len() == 0 {
        s
    } else {
        let r = first_occurrences(s.drop_last());
        if has_path(r, s.last().path) {
            r
        } else {
            r.push(s.last())
        }
    }
}

/// Whether some record of `items` is at `path`.
fn contains_path(items: &Vec<CachedPreviousItem>, path: &str) -> (r: bool)
    ensures
        r == has_path(views(items@), path@),
{
    let n = items.len();
    let mut i: usize = 0;
    while i < n
        invariant
            n == items@.len(),
            i <= n,
            forall|k: int| 0 <= k < i ==> #[trigger] views(items@)[k].path != path@,
        decreases n - i,
    {
        if str_eq(items[i].path.as_str(), path) {
            assert(views(items@)[i as int].path == path@);
            return true;
        }
        i = i + 1;
    }
    false
}

/// The first `MAX_PREVIOUS_ITEMS` records.
pub open spec fn capped(s: Seq<ItemView>) -> Seq<ItemView> {
    if s.len() <= MAX_PREVIOUS_ITEMS {
        s
    } else {
        s.take(MAX_PREVIOUS_ITEMS as int)
    }
}

/// The records whose location is not `p`, in their order.
pub open spec fn without_path(s: Seq<ItemView>, p: Seq<char>) -> Seq<ItemView>
    decreases s.len(),
{
    if s.len() == 0 {
        s
    } else {
        let rest = without_path(s.drop_last(), p);
        if s.last().path == p {
            rest
        } else {
            rest.push(s.last())
        }
    }
}

/// The cache after `x` is put in front of it, replacing any record at the
/// same location, and the oldest beyond the bound are dropped.
pub open spec fn upserted(s: Seq<ItemView>, x: ItemView) -> Seq<ItemView> {
    capped(seq![x] + without_path(s, x.path))
}

/// `x` put after every leading record that is at least as new.
pub open spec fn insert_desc(s: Seq<ItemView>, x: ItemView) -> Seq<ItemView>
    decreases s.len(),
{
    if s.len() == 0 {
        seq![x]
    } else if s[0].created_at >= x.created_at {
        seq![s[0]] + insert_desc(s.drop_first(), x)
    } else {
        seq![x] + s
    }
}

/// The records ordered from newest to oldest; records of equal time keep
/// their order.
pub open spec fn sort_desc(s: Seq<ItemView>) -> Seq<ItemView>
    decreases s.len(),
{
    if s.len() == 0 {
        s
    } else {
        insert_desc(sort_desc(s.drop_last()), s.last())
    }
}

/// A record with its thumbnail replaced.
pub open spec fn with_thumbnail(e: ItemView, t: Option<Seq<u8>>, w: u32, h: u32) -> ItemView {
    ItemView { thumbnail: t, thumbnail_width: w, thumbnail_height: h, ..e }
}

/// `post` is `pre` with the thumbnail of its first record at `p` replaced,
/// or `pre` itself where no record is at `p`.
pub open spec fn thumbnail_patched(
    pre: Seq<ItemView>,
    post: Seq<ItemView>,
    p: Seq<char>,
    t: Option<Seq<u8>>,
    w: u32,
    h: u32,
) -> bool {
    &&& post.len() == pre.len()
    &&& (forall|k: int| 0 <= k < pre.len() ==> #[trigger] pre[k].path != p) ==> post == pre
    &&& forall|j: int|
        0 <= j < pre.len() && pre[j].path == p && (forall|k: int|
            0 <= k < j ==> #[trigger] pre[k].path != p) ==> post == pre.update(
            j,
            with_thumbnail(pre[j], t, w, h),
        )
}

/// Every record of `without_path(s, p)` is one of `s`, at another location
/// than `p`; order and distinct locations are kept.
pub proof fn lemma_without_path(s: Seq<ItemView>, p: Seq<char>)
    ensures
        without_path(s, p).len() <= s.len(),
        forall|k: int|
            0 <= k < without_path(s, p).len() ==> s.contains(#[trigger] without_path(s, p)[k])
                && without_path(s, p)[k].path != p,
        sorted_desc(s) ==> sorted_desc(without_path(s, p)),
        paths_unique(s) ==> paths_unique(without_path(s, p)),
    decreases s.len(),
{
    if s.len() > 0 {
        let d = s.drop_last();
        lemma_without_path(d, p);
        let r = without_path(d, p);
        assert forall|k: int| 0 <= k < r.len() implies s.contains(#[trigger] r[k]) by {
            let m = choose|m: int| 0 <= m < d.len() && d[m] == r[k];
            assert(s[m] == r[k]);
        }
        if sorted_desc(s) {
            assert(sorted_desc(d)) by {
                assert forall|i: int, j: int| 0 <= i < j < d.len() implies #[trigger] d[i].created_at
                    >= #[trigger] d[j].created_at by {
                    assert(d[i] == s[i] && d[j] == s[j]);
                }
            }
            assert forall|k: int| 0 <= k < r.len() implies r[k].created_at >= s.last().created_at by {
                let m = choose|m: int| 0 <= m < d.len() && d[m] == r[k];
                assert(s[m] == r[k]);
            }
        }
        if paths_unique(s) {
            assert(paths_unique(d)) by {
                assert forall|i: int, j: int| 0 <= i < j < d.len() implies #[trigger] d[i].path
                    != #[trigger] d[j].path by {
                    assert(d[i] == s[i] && d[j] == s[j]);
                }
            }
            assert forall|k: int| 0 <= k < r.len() implies r[k].path != s.last().path by {
                let m = choose|m: int| 0 <= m < d.len() && d[m] == r[k];
                assert(s[m] == r[k]);
            }
        }
    }
}

/// Where `x` lands: before the first record that is older than it.
proof fn lemma_insert_desc_at(s: Seq<ItemView>, x: ItemView, j: int)
    requires
        0 <= j <= s.len(),
        forall|k: int| 0 <= k < j ==> #[trigger] s[k].created_at >= x.created_at,
        j < s.len() ==> s[j].created_at < x.created_at,
    ensures
        insert_desc(s, x) == s.take(j).push(x) + s.skip(j),
    decreases s.len(),
{
    if s.len() == 0 {
        assert(s.take(j).push(x) + s.skip(j) =~= seq![x]);
    } else if j == 0 {
        assert(s.take(j).push(x) + s.skip(j) =~= seq![x] + s);
    } else {
        let t = s.drop_first();
        assert forall|k: int| 0 <= k < j - 1 implies #[trigger] t[k].created_at >= x.created_at by {
            assert(t[k] == s[k + 1]);
        }
        lemma_insert_desc_at(t, x, j - 1);
        assert(seq![s[0]] + (t.take(j - 1).push(x) + t.skip(j - 1)) =~= s.take(j).push(x) + s.skip(
            j,
        ));
    }
}

/// Inserting into an ordered sequence keeps it ordered, and adds one record.
proof fn lemma_insert_desc_sorted(s: Seq<ItemView>, x: ItemView)
    requires
        sorted_desc(s),
    ensures
        sorted_desc(insert_desc(s, x)),
        insert_desc(s, x).len() == s.len() + 1,
    decreases s.len(),
{
    if s.len() > 0 && s[0].created_at >= x.created_at {
        let t = s.drop_first();
        assert(sorted_desc(t)) by {
            assert forall|i: int, j: int| 0 <= i < j < t.len() implies #[trigger] t[i].created_at
                >= #[trigger] t[j].created_at by {
                assert(t[i] == s[i + 1] && t[j] == s[j + 1]);
            }
        }
        lemma_insert_desc_sorted(t, x);
        let r = insert_desc(t, x);
        lemma_insert_desc_members(t, x);
        let whole = seq![s[0]] + r;
        assert forall|i: int, j: int| 0 <= i < j < whole.len() implies #[trigger] whole[i].created_at
            >= #[trigger] whole[j].created_at by {
            if i == 0 {
                assert(whole[j] == r[j - 1]);
                if r[j - 1] != x {
                    let m = choose|m: int| 0 <= m < t.len() && t[m] == r[j - 1];
                    assert(t[m] == s[m + 1]);
                }
            } else {
                assert(whole[i] == r[i - 1] && whole[j] == r[j - 1]);
            }
        }
    } else if s.len() > 0 {
        let whole = seq![x] + s;
        assert forall|i: int, j: int| 0 <= i < j < whole.len() implies #[trigger] whole[i].created_at
            >= #[trigger] whole[j].created_at by {
            if i == 0 {
                assert(whole[j] == s[j - 1]);
                assert(s[0].created_at >= s[j - 1].created_at || j - 1 == 0);
            } else {
                assert(whole[i] == s[i - 1] && whole[j] == s[j - 1]);
            }
        }
    }
}

/// Every record of `insert_desc(s, x)` is `x` or one of `s`.
proof fn lemma_insert_desc_members(s: Seq<ItemView>, x: ItemView)
    ensures
        forall|k: int|
            0 <= k < insert_desc(s, x).len() ==> #[trigger] insert_desc(s, x)[k] == x || s.contains(
                insert_desc(s, x)[k],
            ),
    decreases s.len(),
{
    if s.len() > 0 && s[0].created_at >= x.created_at {
        let t = s.drop_first();
        lemma_insert_desc_members(t, x);
        let r = insert_desc(t, x);
        assert forall|k: int| 0 <= k < insert_desc(s, x).len() implies #[trigger] insert_desc(
            s,
            x,
        )[k] == x || s.contains(insert_desc(s, x)[k]) by {
            if k == 0 {
                assert(s[0] == insert_desc(s, x)[0]);
            } else {
                assert(insert_desc(s, x)[k] == r[k - 1]);
                if r[k - 1] != x {
                    let m = choose|m: int| 0 <= m < t.len() && t[m] == r[k - 1];
                    assert(s[m + 1] == t[m]);
                }
            }
        }
    } else if s.len() > 0 {
        assert forall|k: int| 0 <= k < insert_desc(s, x).len() implies #[trigger] insert_desc(
            s,
            x,
        )[k] == x || s.contains(insert_desc(s, x)[k]) by {
            if k > 0 {
                assert(insert_desc(s, x)[k] == s[k - 1]);
            }
        }
    }
}

/// Inserting adds exactly `x` to the records.
proof fn lemma_insert_desc_permutes(s: Seq<ItemView>, x: ItemView)
    ensures
        insert_desc(s, x).to_multiset() == s.to_multiset().insert(x),
    decreases s.len(),
{
    broadcast use vstd::seq_lib::lemma_multiset_commutative;
    broadcast use vstd::multiset::group_multiset_axioms;
    broadcast use vstd::seq_lib::group_to_multiset_ensures;
    broadcast use vstd::multiset::lemma_multiset_empty_len;

    if s.len() == 0 {
        assert(seq![x] =~= Seq::<ItemView>::empty().push(x));
        vstd::seq_lib::to_multiset_build(Seq::<ItemView>::empty(), x);
        assert(s.to_multiset() =~= Multiset::empty());
    } else if s[0].created_at >= x.created_at {
        let t = s.drop_first();
        lemma_insert_desc_permutes(t, x);
        assert(s =~= seq![s[0]] + t);
        assert(seq![s[0]].to_multiset().add(t.to_multiset().insert(x)) =~= seq![s[0]].to_multiset().add(
            t.to_multiset(),
        ).insert(x));
    } else {
        assert(seq![x].to_multiset() =~= Multiset::empty().insert(x)) by {
            assert(seq![x] =~= Seq::<ItemView>::empty().push(x));
            vstd::seq_lib::to_multiset_build(Seq::<ItemView>::empty(), x);
            assert(Seq::<ItemView>::empty().to_multiset() =~= Multiset::empty());
        }
        assert(Multiset::empty().insert(x).add(s.to_multiset()) =~= s.to_multiset().insert(x));
    }
}

/// Sorting only reorders: the sorted sequence holds exactly the records it
/// was given, each as often.
pub proof fn lemma_sort_desc_permutes(s: Seq<ItemView>)
    ensures
        sort_desc(s).to_multiset() == s.to_multiset(),
    decreases s.len(),
{
    if s.len() > 0 {
        lemma_sort_desc_permutes(s.drop_last());
        lemma_insert_desc_permutes(sort_desc(s.drop_last()), s.last());
        vstd::seq_lib::to_multiset_build(s.drop_last(), s.last());
        assert(s.drop_last().push(s.last()) =~= s);
    }
}

/// Sorting yields an ordered sequence of the same length.
pub proof fn lemma_sort_desc_sorted(s: Seq<ItemView>)
    ensures
        sorted_desc(sort_desc(s)),
        sort_desc(s).len() == s.len(),
    decreases s.len(),
{
    if s.len() > 0 {
        lemma_sort_desc_sorted(s.drop_last());
        lemma_insert_desc_sorted(sort_desc(s.drop_last()), s.last());
    }
}

/// The records that a scan of `probes` yields, in scan order. Where
/// `containers_only` is set, entries without the `.cap` extension are passed
/// over.
pub open spec fn loaded_items(
    probes: Seq<ItemProbe>,
    screenshots_dir: Seq<char>,
    load_thumbnails: bool,
    containers_only: bool,
) -> Seq<ItemView>
    decreases probes.len(),
{
    if probes.len() == 0 {
        Seq::empty()
    } else {
        let rest = loaded_items(probes.drop_last(), screenshots_dir, load_thumbnails, containers_only);
        let p = probes.last();
        if containers_only && !holds(p.extension, "cap"@) {
            rest
        } else {
            match item_of(&p, screenshots_dir, load_thumbnails) {
                Some(v) => rest.push(v),
                None => rest,
            }
        }
    }
}

/// The startup contents of the cache: every record of the recordings scan
/// and then of the screenshots scan, newest first, cut to the bound.
pub open spec fn previous_items_of(
    recordings: Seq<ItemProbe>,
    screenshots: Seq<ItemProbe>,
    screenshots_dir: Seq<char>,
    load_thumbnails: bool,
) -> Seq<ItemView> {
    capped(
        sort_desc(
            loaded_items(recordings, screenshots_dir, load_thumbnails, false) + loaded_items(
                screenshots,
                screenshots_dir,
                load_thumbnails,
                true,
            ),
        ),
    )
}

/// Inserts `item` after every leading record that is at least as new.
fn insert_by_time(acc: &mut Vec<CachedPreviousItem>, item: CachedPreviousItem)
    ensures
        views(final(acc)@) == insert_desc(views(old(acc)@), item@),
{
    let n = acc.len();
    let mut j: usize = 0;
    while j < n && acc[j].created_at >= item.created_at
        invariant
            n == acc@.len(),
            j <= n,
            forall|k: int| 0 <= k < j ==> #[trigger] acc@[k].created_at >= item.created_at,
        decreases n - j,
    {
        j = j + 1;
    }
    let ghost before = views(acc@);
    proof {
        lemma_insert_desc_at(before, item@, j as int);
    }
    acc.insert(j, item);
    assert(views(acc@) =~= before.take(j as int).push(item@) + before.skip(j as int));
}

/// Adds the records of a scan to `acc`, which holds `sort_desc(prefix)`.
fn scan_into(
    acc: &mut Vec<CachedPreviousItem>,
    probes: Vec<ItemProbe>,
    screenshots_dir: &str,
    load_thumbnails: bool,
    containers_only: bool,
    Ghost(prefix): Ghost<Seq<ItemView>>,
)
    requires
        views(old(acc)@) == sort_desc(prefix),
    ensures
        views(final(acc)@) == sort_desc(
            prefix + loaded_items(probes@, screenshots_dir@, load_thumbnails, containers_only),
        ),
{
    let ghost orig = probes@;
    let mut rest = probes;
    let n = rest.len();
    let mut k: usize = 0;
    while k < n
        invariant
            n == orig.len(),
            k <= n,
            rest@ == orig.skip(k as int),
            views(acc@) == sort_desc(
                prefix + loaded_items(
                    orig.take(k as int),
                    screenshots_dir@,
                    load_thumbnails,
                    containers_only,
                ),
            ),
        decreases n - k,
    {
        let probe = rest.remove(0);
        assert(orig.skip(k as int).drop_first() =~= orig.skip(k + 1));
        assert(orig.take(k + 1).drop_last() =~= orig.take(k as int));
        let ghost done = loaded_items(orig.take(k as int), screenshots_dir@, load_thumbnails, containers_only);
        let wanted = !containers_only || match &probe.extension {
            Some(e) => str_eq(e.as_str(), "cap"),
            None => false,
        };
        if wanted {
            match load_single_item(probe, screenshots_dir, load_thumbnails) {
                Some(item) => {
                    let ghost v = item@;
                    insert_by_time(acc, item);
                    assert((prefix + done).push(v).drop_last() =~= prefix + done);
                    assert(prefix + done.push(v) =~= (prefix + done).push(v));
                },
                None => {},
            }
        }
        k = k + 1;
    }
    assert(orig.take(n as int) =~= orig);
}

/// Builds the cache's startup contents from the scans of the recordings
/// directory and of the screenshots directory; of the latter only `.cap`
/// entries count.
pub fn load_all_previous_items(
    recordings: Vec<ItemProbe>,
    screenshots: Vec<ItemProbe>,
    screenshots_dir: &str,
    load_thumbnails: bool,
) -> (r: Vec<CachedPreviousItem>)
    ensures
        views(r@) == previous_items_of(recordings@, screenshots@, screenshots_dir@, load_thumbnails),
        r@.len() <= MAX_PREVIOUS_ITEMS,
{
    let ghost a = loaded_items(recordings@, screenshots_dir@, load_thumbnails, false);
    let ghost b = loaded_items(screenshots@, screenshots_dir@, load_thumbnails, true);
    let mut acc: Vec<CachedPreviousItem> = Vec::new();
    assert(views(acc@) =~= sort_desc(Seq::<ItemView>::empty()));
    scan_into(&mut acc, recordings, screenshots_dir, load_thumbnails, false, Ghost(Seq::empty()));
    assert(Seq::<ItemView>::empty() + a =~= a);
    scan_into(&mut acc, screenshots, screenshots_dir, load_thumbnails, true, Ghost(a));
    let ghost sorted = views(acc@);
    acc.truncate(MAX_PREVIOUS_ITEMS);
    assert(views(acc@) =~= capped(sorted));
    acc
}

/// The startup contents come out newest first and within the bound; each
/// is a record that the scans yielded, and where the scans yield no more
/// records than the bound, the contents are exactly those records.
pub proof fn lemma_previous_items_sorted(
    recordings: Seq<ItemProbe>,
    screenshots: Seq<ItemProbe>,
    screenshots_dir: Seq<char>,
    load_thumbnails: bool,
)
    ensures
        sorted_desc(previous_items_of(recordings, screenshots, screenshots_dir, load_thumbnails)),
        previous_items_of(recordings, screenshots, screenshots_dir, load_thumbnails).len()
            <= MAX_PREVIOUS_ITEMS,
        forall|k: int|
            0 <= k < previous_items_of(recordings, screenshots, screenshots_dir, load_thumbnails).len()
                ==> (loaded_items(recordings, screenshots_dir, load_thumbnails, false) + loaded_items(
                screenshots,
                screenshots_dir,
                load_thumbnails,
                true,
            )).contains(
                #[trigger] previous_items_of(recordings, screenshots, screenshots_dir, load_thumbnails)[k],
            ),
        (loaded_items(recordings, screenshots_dir, load_thumbnails, false) + loaded_items(
            screenshots,
            screenshots_dir,
            load_thumbnails,
            true,
        )).len() <= MAX_PREVIOUS_ITEMS ==> previous_items_of(
            recordings,
            screenshots,
            screenshots_dir,
            load_thumbnails,
        ).to_multiset() == (loaded_items(recordings, screenshots_dir, load_thumbnails, false)
            + loaded_items(screenshots, screenshots_dir, load_thumbnails, true)).to_multiset(),
{
    broadcast use vstd::seq_lib::group_to_multiset_ensures;

    let all = loaded_items(recordings, screenshots_dir, load_thumbnails, false) + loaded_items(
        screenshots,
        screenshots_dir,
        load_thumbnails,
        true,
    );
    lemma_sort_desc_sorted(all);
    lemma_sort_desc_permutes(all);
    let sorted = sort_desc(all);
    let r = previous_items_of(recordings, screenshots, screenshots_dir, load_thumbnails);
    assert forall|k: int| 0 <= k < r.len() implies all.contains(#[trigger] r[k]) by {
        assert(r[k] == sorted[k]);
        assert(sorted.contains(sorted[k]));
        assert(sorted.to_multiset().count(sorted[k]) > 0);
    }
}

/// Upserting never takes the cache beyond its bound.
pub proof fn lemma_upsert_bounded(s: Seq<ItemView>, x: ItemView)
    ensures
        upserted(s, x).len() <= MAX_PREVIOUS_ITEMS,
{
}

/// The cache after upserting each record of `xs` in turn.
pub open spec fn upserted_all(s: Seq<ItemView>, xs: Seq<ItemView>) -> Seq<ItemView>
    decreases xs.len(),
{
    if xs.len() == 0 {
        s
    } else {
        upserted(upserted_all(s, xs.drop_last()), xs.last())
    }
}

/// Every record of `upserted(s, x)` is `x` or one of `s`.
proof fn lemma_upserted_members(s: Seq<ItemView>, x: ItemView)
    ensures
        forall|k: int|
            0 <= k < upserted(s, x).len() ==> #[trigger] upserted(s, x)[k] == x || s.contains(
                upserted(s, x)[k],
            ),
{
    lemma_without_path(s, x.path);
    let r = without_path(s, x.path);
    let whole = seq![x] + r;
    assert forall|k: int| 0 <= k < upserted(s, x).len() implies #[trigger] upserted(s, x)[k] == x
        || s.contains(upserted(s, x)[k]) by {
        assert(upserted(s, x)[k] == whole[k]);
        if k > 0 {
            assert(whole[k] == r[k - 1]);
        }
    }
}

/// The induction behind `lemma_upserts_keep_order`: no record is newer than
/// the last one upserted (or than the front of the starting cache).
proof fn lemma_upserts_keep_order_aux(s: Seq<ItemView>, xs: Seq<ItemView>)
    requires
        s.len() <= MAX_PREVIOUS_ITEMS,
        sorted_desc(s),
        forall|i: int, k: int|
            0 <= i < xs.len() && 0 <= k < s.len() ==> #[trigger] xs[i].created_at >= #[trigger] s[k].created_at,
        forall|i: int, j: int|
            0 <= j < i < xs.len() ==> #[trigger] xs[i].created_at >= #[trigger] xs[j].created_at,
    ensures
        upserted_all(s, xs).len() <= MAX_PREVIOUS_ITEMS,
        sorted_desc(upserted_all(s, xs)),
        forall|k: int|
            0 <= k < upserted_all(s, xs).len() ==> (#[trigger] upserted_all(s, xs)[k]).created_at
                <= if xs.len() == 0 {
                if s.len() == 0 {
                    0
                } else {
                    s[0].created_at as int
                }
            } else {
                xs.last().created_at as int
            },
    decreases xs.len(),
{
    if xs.len() > 0 {
        let d = xs.drop_last();
        assert forall|i: int, k: int| 0 <= i < d.len() && 0 <= k < s.len() implies #[trigger] d[i].created_at
            >= #[trigger] s[k].created_at by {
            assert(d[i] == xs[i]);
        }
        assert forall|i: int, j: int| 0 <= j < i < d.len() implies #[trigger] d[i].created_at
            >= #[trigger] d[j].created_at by {
            assert(d[i] == xs[i] && d[j] == xs[j]);
        }
        lemma_upserts_keep_order_aux(s, d);
        let prev = upserted_all(s, d);
        let x = xs.last();
        assert forall|k: int| 0 <= k < prev.len() implies x.created_at >= #[trigger] prev[k].created_at by {
            if d.len() == 0 {
                if s.len() > 0 {
                    assert(x.created_at >= s[0].created_at);
                }
            } else {
                assert(d.last() == xs[xs.len() - 2]);
            }
        }
        lemma_upsert_keeps_order(prev, x);
        lemma_upserted_members(prev, x);
        assert forall|k: int| 0 <= k < upserted_all(s, xs).len() implies (#[trigger] upserted_all(
            s,
            xs,
        )[k]).created_at <= x.created_at by {
            let u = upserted(prev, x);
            if u[k] != x {
                let m = choose|m: int| 0 <= m < prev.len() && prev[m] == u[k];
            }
        }
    } else {
        assert forall|k: int| 0 <= k < s.len() implies (#[trigger] s[k]).created_at <= s[0].created_at by {
            if k > 0 {
                assert(s[0].created_at >= s[k].created_at);
            }
        }
    }
}

/// Whatever sequence of upserts is applied, the cache stays within its
/// bound; where each upserted record is no older than the records of the
/// starting cache and the records upserted before it, the cache also stays
/// ordered from newest to oldest.
pub proof fn lemma_upserts_keep_order(s: Seq<ItemView>, xs: Seq<ItemView>)
    requires
        s.len() <= MAX_PREVIOUS_ITEMS,
        sorted_desc(s),
        forall|i: int, k: int|
            0 <= i < xs.len() && 0 <= k < s.len() ==> #[trigger] xs[i].created_at >= #[trigger] s[k].created_at,
        forall|i: int, j: int|
            0 <= j < i < xs.len() ==> #[trigger] xs[i].created_at >= #[trigger] xs[j].created_at,
    ensures
        upserted_all(s, xs).len() <= MAX_PREVIOUS_ITEMS,
        sorted_desc(upserted_all(s, xs)),
{
    lemma_upserts_keep_order_aux(s, xs);
}

/// Upserting a record no older than any in an ordered cache within the
/// bound leaves it ordered and within the bound.
pub proof fn lemma_upsert_keeps_order(s: Seq<ItemView>, x: ItemView)
    requires
        s.len() <= MAX_PREVIOUS_ITEMS,
        sorted_desc(s),
        forall|k: int| 0 <= k < s.len() ==> x.created_at >= #[trigger] s[k].created_at,
    ensures
        upserted(s, x).len() <= MAX_PREVIOUS_ITEMS,
        sorted_desc(upserted(s, x)),
{
    lemma_without_path(s, x.path);
    let r = without_path(s, x.path);
    let whole = seq![x] + r;
    assert forall|i: int, j: int| 0 <= i < j < whole.len() implies #[trigger] whole[i].created_at
        >= #[trigger] whole[j].created_at by {
        assert(whole[j] == r[j - 1]);
        assert(s.contains(r[j - 1]));
        if i > 0 {
            assert(whole[i] == r[i - 1]);
        }
    }
    let u = upserted(s, x);
    assert forall|i: int, j: int| 0 <= i < j < u.len() implies #[trigger] u[i].created_at
        >= #[trigger] u[j].created_at by {
        assert(u[i] == whole[i] && u[j] == whole[j]);
    }
}

/// Upserting keeps the locations distinct and puts the record first.
pub proof fn lemma_upsert_unique(s: Seq<ItemView>, x: ItemView)
    requires
        paths_unique(s),
    ensures
        paths_unique(upserted(s, x)),
        upserted(s, x)[0] == x,
        forall|k: int| 0 < k < upserted(s, x).len() ==> #[trigger] upserted(s, x)[k].path != x.path,
{
    lemma_without_path(s, x.path);
    let r = without_path(s, x.path);
    let whole = seq![x] + r;
    assert forall|i: int, j: int| 0 <= i < j < whole.len() implies #[trigger] whole[i].path
        != #[trigger] whole[j].path by {
        assert(whole[j] == r[j - 1]);
        if i > 0 {
            assert(whole[i] == r[i - 1]);
        }
    }
    let u = upserted(s, x);
    assert forall|i: int, j: int| 0 <= i < j < u.len() implies #[trigger] u[i].path
        != #[trigger] u[j].path by {
        assert(u[i] == whole[i] && u[j] == whole[j]);
    }
    assert forall|k: int| 0 < k < u.len() implies #[trigger] u[k].path != x.path by {
        assert(u[k] == whole[k]);
        assert(whole[k] == r[k - 1]);
    }
}

/// Two upserts at the same location leave exactly one record there: the
/// second one, in front.
pub proof fn lemma_upsert_twice_same_location(s: Seq<ItemView>, x: ItemView, y: ItemView)
    requires
        x.path == y.path,
    ensures
        upserted(upserted(s, x), y)[0] == y,
        forall|k: int|
            0 < k < upserted(upserted(s, x), y).len() ==> #[trigger] upserted(upserted(s, x), y)[k].path
                != y.path,
{
    lemma_without_path(upserted(s, x), y.path);
    let r = without_path(upserted(s, x), y.path);
    let whole = seq![y] + r;
    let u = upserted(upserted(s, x), y);
    assert forall|k: int| 0 < k < u.len() implies #[trigger] u[k].path != y.path by {
        assert(u[k] == whole[k]);
        assert(whole[k] == r[k - 1]);
    }
}

/// The recency cache: at most `MAX_PREVIOUS_ITEMS` records, the most
/// recently added first.
pub struct PreviousItemsCache {
    items: Vec<CachedPreviousItem>,
}

impl View for PreviousItemsCache {
    type V = Seq<ItemView>;

    closed spec fn view(&self) -> Seq<ItemView> {
        views(self.items@)
    }
}

impl PreviousItemsCache {
    /// The cache never holds more than `MAX_PREVIOUS_ITEMS` records, and no
    /// two of them share a location.
    pub open spec fn wf(&self) -> bool {
        &&& self@.len() <= MAX_PREVIOUS_ITEMS
        &&& paths_unique(self@)
    }

    /// A cache of the first `MAX_PREVIOUS_ITEMS` of `items`, where a record at
    /// a location already taken by an earlier one is passed over.
    pub fn new(items: Vec<CachedPreviousItem>) -> (r: PreviousItemsCache)
        ensures
            r.wf(),
            r@ == capped(first_occurrences(views(items@))),
    {
        let ghost orig = items@;
        let mut rest = items;
        let mut kept: Vec<CachedPreviousItem> = Vec::new();
        let n = rest.len();
        let mut k: usize = 0;
        while k < n
            invariant
                n == orig.len(),
                k <= n,
                rest@ == orig.skip(k as int),
                views(kept@) == first_occurrences(views(orig.take(k as int))),
                paths_unique(views(kept@)),
            decreases n - k,
        {
            let e = rest.remove(0);
            assert(views(orig.take(k + 1)).drop_last() =~= views(orig.take(k as int)));
            assert(orig.skip(k as int).drop_first() =~= orig.skip(k + 1));
            if !contains_path(&kept, e.path.as_str()) {
                let ghost before = views(kept@);
                kept.push(e);
                assert(views(kept@) =~= before.push(e@));
                assert forall|i: int, j: int| 0 <= i < j < views(kept@).len() implies #[trigger] views(
                    kept@,
                )[i].path != #[trigger] views(kept@)[j].path by {
                    if j == before.len() {
                        assert(views(kept@)[i] == before[i]);
                    } else {
                        assert(views(kept@)[i] == before[i] && views(kept@)[j] == before[j]);
                    }
                }
            }
            k = k + 1;
        }
        assert(orig.take(n as int) =~= orig);
        let ghost all = views(kept@);
        kept.truncate(MAX_PREVIOUS_ITEMS);
        assert(views(kept@) =~= capped(all));
        assert forall|i: int, j: int| 0 <= i < j < views(kept@).len() implies #[trigger] views(
            kept@,
        )[i].path != #[trigger] views(kept@)[j].path by {
            assert(views(kept@)[i] == all[i] && views(kept@)[j] == all[j]);
        }
        PreviousItemsCache { items: kept }
    }

    /// The records, newest first.
    pub fn items(&self) -> (r: &Vec<CachedPreviousItem>)
        ensures
            views(r@) == self@,
    {
        &self.items
    }

    /// How many records the cache holds.
    pub fn len(&self) -> (r: usize)
        ensures
            r == self@.len(),
    {
        self.items.len()
    }

    /// Puts `item` in front, replacing any record at its location, and
    /// drops the oldest records beyond the bound.
    pub fn upsert_front(&mut self, item: CachedPreviousItem)
        requires
            old(self).wf(),
        ensures
            final(self).wf(),
            final(self)@ == upserted(old(self)@, item@),
    {
        let ghost orig = self.items@;
        proof {
            lemma_upsert_unique(views(orig), item@);
        }
        let mut rest: Vec<CachedPreviousItem> = Vec::new();
        std::mem::swap(&mut rest, &mut self.items);
        let mut kept: Vec<CachedPreviousItem> = Vec::new();
        let n = rest.len();
        let mut k: usize = 0;
        while k < n
            invariant
                n == orig.len(),
                k <= n,
                rest@ == orig.skip(k as int),
                views(kept@) == without_path(views(orig.take(k as int)), item@.path),
            decreases n - k,
        {
            let e = rest.remove(0);
            assert(views(orig.take(k + 1)).drop_last() =~= views(orig.take(k as int)));
            assert(orig.skip(k as int).drop_first() =~= orig.skip(k + 1));
            if !str_eq(e.path.as_str(), item.path.as_str()) {
                kept.push(e);
                assert(views(kept@) =~= without_path(views(orig.take(k + 1)), item@.path));
            }
            k = k + 1;
        }
        assert(orig.take(n as int) =~= orig);
        kept.insert(0, item);
        kept.truncate(MAX_PREVIOUS_ITEMS);
        self.items = kept;
        assert(self@ =~= upserted(views(orig), item@));
    }

    /// Replaces the thumbnail of the first record at `path`; does nothing
    /// where no record is there.
    pub fn update_thumbnail(
        &mut self,
        path: &str,
        thumbnail: Option<Vec<u8>>,
        width: u32,
        height: u32,
    )
        requires
            old(self).wf(),
        ensures
            final(self).wf(),
            thumbnail_patched(old(self)@, final(self)@, path@, bytes_view(thumbnail), width, height),
    {
        let n = self.items.len();
        let mut i: usize = 0;
        while i < n
            invariant
                n == self.items@.len(),
                i <= n,
                self@ == old(self)@,
                old(self).wf(),
                forall|k: int| 0 <= k < i ==> #[trigger] self@[k].path != path@,
            decreases n - i,
        {
            if str_eq(self.items[i].path.as_str(), path) {
                let ghost before = self@;
                self.items[i].thumbnail = thumbnail;
                self.items[i].thumbnail_width = width;
                self.items[i].thumbnail_height = height;
                assert(self@ =~= before.update(
                    i as int,
                    with_thumbnail(before[i as int], bytes_view(thumbnail), width, height),
                ));
                return;
            }
            i = i + 1;
        }
    }
}

} // verus!
