//! Entries as the entry pane shows them, and the merged "All feeds" order:
//! newest first, undated entries last, ties in their original order.

use vstd::prelude::*;
use crate::model::{opt_text, FeedItem, FeedRecord, ItemView, RecordView};
use crate::stamp::{later, is_later, parse_published, stamp_of, Stamp};

verus! {

/// An entry together with the title of the feed it came from.
#[derive(Debug)]
pub struct DisplayItem {
    pub title: String,
    pub feed_title: String,
    pub published: Option<String>,
    pub published_key: Option<Stamp>,
    pub link: Option<String>,
}

/// What a displayed entry holds, as values.
pub struct DisplayView {
    pub title: Seq<char>,
    pub feed_title: Seq<char>,
    pub published: Option<Seq<char>>,
    pub key: Option<Stamp>,
    pub link: Option<Seq<char>>,
}

impl View for DisplayItem {
    type V = DisplayView;

    open spec fn view(&self) -> DisplayView {
        DisplayView {
            title: self.title@,
            feed_title: self.feed_title@,
            published: opt_text(self.published),
            key: self.published_key,
            link: opt_text(self.link),
        }
    }
}

/// The values of a sequence of displayed entries.
pub open spec fn displays_view(s: Seq<DisplayItem>) -> Seq<DisplayView> {
    s.map_values(|d: DisplayItem| d@)
}

/// A feed's title as shown, "Untitled" where it has none.
pub open spec fn shown_title(t: Option<Seq<char>>) -> Seq<char> {
    match t {
        Some(s) => s,
        None => "Untitled"@,
    }
}

/// An entry of `feed` as shown.
pub open spec fn display_of(feed: RecordView, item: ItemView) -> DisplayView {
    DisplayView {
        title: item.title,
        feed_title: shown_title(feed.title),
        published: item.published,
        key: stamp_of(item.published),
        link: item.link,
    }
}

/// The entries of one feed as shown, in the feed's order.
pub open spec fn feed_display(feed: RecordView) -> Seq<DisplayView> {
    feed.items.map_values(|i: ItemView| display_of(feed, i))
}

/// The entries of all feeds as shown, feed after feed, before sorting.
pub open spec fn all_display(feeds: Seq<RecordView>) -> Seq<DisplayView>
    decreases feeds.len(),
{
    if feeds.len() == 0 {
        Seq::empty()
    } else {
        all_display(feeds.drop_last()) + feed_display(feeds.last())
    }
}

/// An entry with key `a` goes strictly before one with key `b`: it is dated
/// later, or it is dated and the other is not.
pub open spec fn precedes(a: Option<Stamp>, b: Option<Stamp>) -> bool {
    match (a, b) {
        (Some(x), Some(y)) => later(x, y),
        (Some(_), None) => true,
        _ => false,
    }
}

/// Neither key goes before the other.
pub open spec fn same_rank(a: Option<Stamp>, b: Option<Stamp>) -> bool {
    !precedes(a, b) && !precedes(b, a)
}

/// `out` is `input` rearranged by `perm` (`out[k]` is `input[perm[k]]`),
/// newest first, with entries of the same rank in their order in `input`.
pub open spec fn sorts_by(input: Seq<DisplayView>, out: Seq<DisplayView>, perm: Seq<int>) -> bool {
    &&& perm.len() == out.len() == input.len()
    &&& forall|k: int| 0 <= k < out.len() ==> 0 <= #[trigger] perm[k] < input.len() && out[k] == input[perm[k]]
    &&& forall|k1: int, k2: int| 0 <= k1 < k2 < out.len() ==> perm[k1] != perm[k2]
    &&& forall|k1: int, k2: int| 0 <= k1 < k2 < out.len() ==> !precedes(out[k2].key, out[k1].key)
    &&& forall|k1: int, k2: int|
        0 <= k1 < k2 < out.len() && same_rank(out[k1].key, out[k2].key) ==> perm[k1] < perm[k2]
}

/// `out` is the stable sort of `input`, newest first and undated last.
pub open spec fn is_stable_sort_desc(input: Seq<DisplayView>, out: Seq<DisplayView>) -> bool {
    exists|perm: Seq<int>| sorts_by(input, out, perm)
}

/// Whether key `a` goes strictly before key `b`.
pub fn key_precedes(a: &Option<Stamp>, b: &Option<Stamp>) -> (r: bool)
    ensures
        r == precedes(*a, *b),
{
    match (a, b) {
        (Some(x), Some(y)) => is_later(*x, *y),
        (Some(_), None) => true,
        _ => false,
    }
}

fn clone_text(o: &Option<String>) -> (r: Option<String>)
    ensures
        opt_text(r) == opt_text(*o),
{
    match o {
        Some(s) => Some(s.clone()),
        None => None,
    }
}

/// A feed's title as shown.
pub fn feed_title_of(feed: &FeedRecord) -> (r: String)
    ensures
        r@ == shown_title(feed@.title),
{
    match &feed.title {
        Some(t) => t.clone(),
        None => String::from_str("Untitled"),
    }
}

/// `item` as shown under a feed titled `feed_title`.
pub fn display_entry(feed_title: &String, item: &FeedItem) -> (r: DisplayItem)
    ensures
        r@ == (DisplayView {
            title: item@.title,
            feed_title: feed_title@,
            published: item@.published,
            key: stamp_of(item@.published),
            link: item@.link,
        }),
{
    DisplayItem {
        title: item.title.clone(),
        feed_title: feed_title.clone(),
        published: clone_text(&item.published),
        published_key: parse_published(&item.published),
        link: clone_text(&item.link),
    }
}

/// The entries of one feed as shown, in the feed's order.
pub fn feed_entries(feed: &FeedRecord) -> (r: Vec<DisplayItem>)
    ensures
        displays_view(r@) == feed_display(feed@),
{
    let title = feed_title_of(feed);
    let mut out: Vec<DisplayItem> = Vec::new();
    let mut j: usize = 0;
    while j < feed.items.len()
        invariant
            j <= feed.items.len(),
            title@ == shown_title(feed@.title),
            displays_view(out@) == feed_display(feed@).subrange(0, j as int),
        decreases feed.items.len() - j,
    {
        let d = display_entry(&title, &feed.items[j]);
        let ghost before = out@;
        out.push(d);
        assert(feed@.items[j as int] == feed.items@[j as int]@);
        assert(displays_view(out@) =~= displays_view(before).push(d@));
        assert(displays_view(out@) =~= feed_display(feed@).subrange(0, j + 1));
        j += 1;
    }
    assert(feed_display(feed@).subrange(0, j as int) =~= feed_display(feed@));
    out
}

/// The entries of all feeds as shown, feed after feed.
pub fn all_entries(feeds: &Vec<FeedRecord>) -> (r: Vec<DisplayItem>)
    ensures
        displays_view(r@) == all_display(feeds@.map_values(|f: FeedRecord| f@)),
{
    let ghost fv = feeds@.map_values(|f: FeedRecord| f@);
    let mut out: Vec<DisplayItem> = Vec::new();
    let mut i: usize = 0;
    while i < feeds.len()
        invariant
            i <= feeds.len(),
            fv == feeds@.map_values(|f: FeedRecord| f@),
            displays_view(out@) == all_display(fv.subrange(0, i as int)),
        decreases feeds.len() - i,
    {
        let mut part = feed_entries(&feeds[i]);
        let ghost before = out@;
        out.append(&mut part);
        assert(fv.subrange(0, i + 1).drop_last() =~= fv.subrange(0, i as int));
        assert(displays_view(out@) =~= displays_view(before) + feed_display(fv[i as int]));
        i += 1;
    }
    assert(fv.subrange(0, i as int) =~= fv);
    out
}

/// Sorts entries newest first, undated entries last, keeping the original
/// order among entries of the same rank.
pub fn sort_by_published(items: Vec<DisplayItem>) -> (r: Vec<DisplayItem>)
    ensures
        is_stable_sort_desc(displays_view(items@), displays_view(r@)),
{
    let ghost input = displays_view(items@);
    let n = items.len();
    let mut rest = items;
    let mut out: Vec<DisplayItem> = Vec::new();
    let ghost mut perm: Seq<int> = Seq::empty();
    let mut i: usize = 0;
    while i < n
        invariant
            i <= n,
            n == input.len(),
            displays_view(rest@) == input.subrange(i as int, n as int),
            rest@.len() == n - i,
            out@.len() == i,
            perm.len() == i,
            forall|k: int| 0 <= k < i ==> 0 <= #[trigger] perm[k] < i && displays_view(out@)[k] == input[perm[k]],
            forall|k1: int, k2: int| 0 <= k1 < k2 < i ==> perm[k1] != perm[k2],
            forall|k1: int, k2: int| 0 <= k1 < k2 < i ==> !precedes(out@[k2]@.key, out@[k1]@.key),
            forall|k1: int, k2: int|
                0 <= k1 < k2 < i && same_rank(out@[k1]@.key, out@[k2]@.key) ==> perm[k1] < perm[k2],
        decreases n - i,
    {
        let ghost rest_before = rest@;
        let x = rest.remove(0);
        assert(rest@ =~= rest_before.subrange(1, rest_before.len() as int));
        assert(displays_view(rest@) =~= displays_view(rest_before).subrange(1, rest_before.len() as int));
        assert(displays_view(rest@) =~= input.subrange(i + 1, n as int));
        assert(x@ == input[i as int]) by {
            assert(displays_view(rest_before)[0] == x@);
        }
        let mut p: usize = 0;
        while p < out.len() && !key_precedes(&x.published_key, &out[p].published_key)
            invariant
                p <= out@.len(),
                forall|k: int| 0 <= k < p ==> !precedes(x@.key, #[trigger] out@[k]@.key),
            decreases out@.len() - p,
        {
            p += 1;
        }
        let ghost old_out = out@;
        let ghost old_perm = perm;
        out.insert(p, x);
        proof {
            perm = old_perm.insert(p as int, i as int);
            assert(forall|k: int| 0 <= k < p ==> out@[k] == old_out[k]);
            assert(out@[p as int] == x);
            assert(forall|k: int| p < k <= i ==> out@[k] == old_out[k - 1]);
            assert(forall|k: int| 0 <= k < p ==> perm[k] == old_perm[k]);
            assert(perm[p as int] == i);
            assert(forall|k: int| p < k <= i ==> perm[k] == old_perm[k - 1]);
            if p < old_out.len() {
                assert(precedes(x@.key, old_out[p as int]@.key));
                assert forall|k: int| p <= k < old_out.len() implies precedes(
                    x@.key,
                    #[trigger] old_out[k]@.key,
                ) by {
                    if k > p {
                        assert(!precedes(old_out[k]@.key, old_out[p as int]@.key));
                    }
                }
            }
            assert forall|k: int| 0 <= k < i + 1 implies 0 <= #[trigger] perm[k] < i + 1
                && displays_view(out@)[k] == input[perm[k]] by {
                if k < p {
                } else if k == p {
                } else {
                    assert(displays_view(old_out)[k - 1] == input[old_perm[k - 1]]);
                }
            }
            assert forall|k1: int, k2: int| 0 <= k1 < k2 < i + 1 implies !precedes(
                out@[k2]@.key,
                out@[k1]@.key,
            ) by {
                if k2 < p {
                } else if k2 == p {
                } else if k1 < p {
                    assert(!precedes(old_out[k2 - 1]@.key, old_out[k1]@.key));
                } else if k1 == p {
                    assert(precedes(x@.key, old_out[k2 - 1]@.key));
                } else {
                    assert(!precedes(old_out[k2 - 1]@.key, old_out[k1 - 1]@.key));
                }
            }
            assert forall|k1: int, k2: int| 0 <= k1 < k2 < i + 1 implies perm[k1] != perm[k2] by {
                if k2 < p {
                } else if k2 == p {
                } else if k1 < p {
                    assert(old_perm[k2 - 1] != old_perm[k1]);
                } else if k1 == p {
                } else {
                    assert(old_perm[k2 - 1] != old_perm[k1 - 1]);
                }
            }
            assert forall|k1: int, k2: int|
                0 <= k1 < k2 < i + 1 && same_rank(
                    out@[k1]@.key,
                    out@[k2]@.key,
                ) implies perm[k1] < perm[k2] by {
                if k2 < p {
                } else if k2 == p {
                } else if k1 < p {
                    assert(same_rank(old_out[k1]@.key, old_out[k2 - 1]@.key));
                } else if k1 == p {
                    assert(precedes(x@.key, old_out[k2 - 1]@.key));
                } else {
                    assert(same_rank(old_out[k1 - 1]@.key, old_out[k2 - 1]@.key));
                }
            }
        }
        i += 1;
    }
    proof {
        assert(sorts_by(input, displays_view(out@), perm));
    }
    out
}

/// The "All feeds" view: every feed's entries, newest first, undated last,
/// entries of the same rank in feed order.
pub fn merged_entries(feeds: &Vec<FeedRecord>) -> (r: Vec<DisplayItem>)
    ensures
        is_stable_sort_desc(all_display(feeds@.map_values(|f: FeedRecord| f@)), displays_view(r@)),
{
    let all = all_entries(feeds);
    sort_by_published(all)
}

/// Of the merged view: dated entries come before undated ones, a later entry
/// before an earlier one, and entries of the same instant (or both undated)
/// keep the order they had feed after feed.
pub proof fn lemma_merged_order(input: Seq<DisplayView>, out: Seq<DisplayView>)
    requires
        is_stable_sort_desc(input, out),
    ensures
        out.len() == input.len(),
        forall|k1: int, k2: int|
            0 <= k1 < k2 < out.len() && out[k2].key.is_some() ==> out[k1].key.is_some(),
        forall|k1: int, k2: int|
            #![trigger out[k1].key, out[k2].key]
            0 <= k1 < k2 < out.len() && out[k1].key.is_some() && out[k2].key.is_some()
                ==> !later(out[k2].key.unwrap(), out[k1].key.unwrap()),
        exists|perm: Seq<int>|
            perm.len() == out.len() && (forall|k1: int, k2: int|
                0 <= k1 < k2 < out.len() && out[k1].key == out[k2].key ==> perm[k1] < perm[k2])
                && (forall|k: int|
                0 <= k < out.len() ==> 0 <= #[trigger] perm[k] < input.len() && out[k] == input[perm[k]]),
{
    let perm = choose|perm: Seq<int>| sorts_by(input, out, perm);
    assert forall|k1: int, k2: int|
        0 <= k1 < k2 < out.len() && out[k1].key == out[k2].key implies perm[k1] < perm[k2] by {
        assert(same_rank(out[k1].key, out[k2].key));
    }

    assert forall|k1: int, k2: int|
        0 <= k1 < k2 < out.len() && out[k2].key.is_some() implies out[k1].key.is_some() by {
        assert(!precedes(out[k2].key, out[k1].key));
    }
    assert forall|k1: int, k2: int|
        #![trigger out[k1].key, out[k2].key]
        0 <= k1 < k2 < out.len() && out[k1].key.is_some() && out[k2].key.is_some() implies !later(
            out[k2].key.unwrap(),
            out[k1].key.unwrap(),
        ) by {
        assert(!precedes(out[k2].key, out[k1].key));
    }
}

} // verus!
