//! The feed collection: feeds keyed by URL, each with its entries.

use vstd::prelude::*;

verus! {

/// The characters of an optional string.
pub open spec fn opt_text(o: Option<String>) -> Option<Seq<char>> {
    match o {
        Some(s) => Some(s@),
        None => None,
    }
}

/// One entry of a feed.
#[derive(Debug)]
pub struct FeedItem {
    pub title: String,
    pub link: Option<String>,
    pub published: Option<String>,
}

/// What an entry holds, as values.
pub struct ItemView {
    pub title: Seq<char>,
    pub link: Option<Seq<char>>,
    pub published: Option<Seq<char>>,
}

impl View for FeedItem {
    type V = ItemView;

    open spec fn view(&self) -> ItemView {
        ItemView {
            title: self.title@,
            link: opt_text(self.link),
            published: opt_text(self.published),
        }
    }
}

/// The values of a sequence of entries.
pub open spec fn items_view(items: Seq<FeedItem>) -> Seq<ItemView> {
    items.map_values(|i: FeedItem| i@)
}

/// A subscribed feed.
#[derive(Debug)]
pub struct FeedRecord {
    pub title: Option<String>,
    pub url: String,
    pub items: Vec<FeedItem>,
}

/// What a feed holds, as values.
pub struct RecordView {
    pub title: Option<Seq<char>>,
    pub url: Seq<char>,
    pub items: Seq<ItemView>,
}

impl View for FeedRecord {
    type V = RecordView;

    open spec fn view(&self) -> RecordView {
        RecordView { title: opt_text(self.title), url: self.url@, items: items_view(self.items@) }
    }
}

/// The whole collection of feeds, in display order.
#[derive(Debug)]
pub struct FeedDb {
    pub feeds: Vec<FeedRecord>,
}

impl View for FeedDb {
    type V = Seq<RecordView>;

    open spec fn view(&self) -> Seq<RecordView> {
        self.feeds@.map_values(|f: FeedRecord| f@)
    }
}

/// No two feeds share a URL.
pub open spec fn urls_unique(feeds: Seq<RecordView>) -> bool {
    forall|i: int, j: int| 0 <= i < j < feeds.len() ==> feeds[i].url != feeds[j].url
}

/// The index of the first feed with the given URL, or -1 where there is none.
pub open spec fn first_match(feeds: Seq<RecordView>, url: Seq<char>) -> int
    decreases feeds.len(),
{
    if feeds.len() == 0 {
        -1
    } else {
        let r = first_match(feeds.drop_last(), url);
        if r >= 0 {
            r
        } else if feeds.last().url == url {
            feeds.len() - 1
        } else {
            -1
        }
    }
}

/// The collection after an insert-or-replace of the feed keyed by `url`.
pub open spec fn upserted(
    feeds: Seq<RecordView>,
    url: Seq<char>,
    title: Option<Seq<char>>,
    items: Seq<ItemView>,
) -> Seq<RecordView> {
    let i = first_match(feeds, url);
    let rec = RecordView { title, url, items };
    if i >= 0 {
        feeds.update(i, rec)
    } else {
        feeds.push(rec)
    }
}

/// The number of entries over all feeds.
pub open spec fn total_items(feeds: Seq<RecordView>) -> nat
    decreases feeds.len(),
{
    if feeds.len() == 0 {
        0
    } else {
        total_items(feeds.drop_last()) + feeds.last().items.len()
    }
}

/// `first_match` finds the first feed with the URL, and only such a feed.
pub proof fn lemma_first_match(feeds: Seq<RecordView>, url: Seq<char>)
    ensures
        first_match(feeds, url) == -1 || 0 <= first_match(feeds, url) < feeds.len(),
        first_match(feeds, url) == -1 ==> forall|j: int|
            0 <= j < feeds.len() ==> feeds[j].url != url,
        first_match(feeds, url) >= 0 ==> feeds[first_match(feeds, url)].url == url,
        forall|j: int| 0 <= j < first_match(feeds, url) ==> feeds[j].url != url,
    decreases feeds.len(),
{
    if feeds.len() > 0 {
        lemma_first_match(feeds.drop_last(), url);
        assert(forall|j: int| 0 <= j < feeds.len() - 1 ==> feeds.drop_last()[j] == feeds[j]);
    }
}

/// A feed with the URL, preceded by none, is the first match.
pub proof fn lemma_first_match_at(feeds: Seq<RecordView>, url: Seq<char>, i: int)
    requires
        0 <= i < feeds.len(),
        feeds[i].url == url,
        forall|j: int| 0 <= j < i ==> feeds[j].url != url,
    ensures
        first_match(feeds, url) == i,
{
    lemma_first_match(feeds, url);
}

/// Inserting or replacing the same feed twice leaves the collection as doing
/// it once.
pub proof fn lemma_upsert_idempotent(
    feeds: Seq<RecordView>,
    url: Seq<char>,
    title: Option<Seq<char>>,
    items: Seq<ItemView>,
)
    ensures
        upserted(upserted(feeds, url, title, items), url, title, items) == upserted(
            feeds,
            url,
            title,
            items,
        ),
{
    let once = upserted(feeds, url, title, items);
    let rec = RecordView { title, url, items };
    lemma_first_match(feeds, url);
    let i = first_match(feeds, url);
    if i >= 0 {
        lemma_first_match_at(once, url, i);
        assert(once.update(i, rec) =~= once);
    } else {
        lemma_first_match_at(once, url, feeds.len() as int);
        assert(once.update(feeds.len() as int, rec) =~= once);
    }
}

/// Storing a feed into an empty collection gives that one feed, first.
pub proof fn lemma_upsert_into_empty(url: Seq<char>, title: Option<Seq<char>>, items: Seq<ItemView>)
    ensures
        upserted(Seq::empty(), url, title, items) == seq![RecordView { title, url, items }],
        first_match(upserted(Seq::empty(), url, title, items), url) == 0,
{
    let one = upserted(Seq::empty(), url, title, items);
    assert(one =~= seq![RecordView { title, url, items }]);
    lemma_first_match_at(one, url, 0);
}

/// Inserting or replacing a feed keeps URLs unique.
pub proof fn lemma_upsert_keeps_urls_unique(
    feeds: Seq<RecordView>,
    url: Seq<char>,
    title: Option<Seq<char>>,
    items: Seq<ItemView>,
)
    requires
        urls_unique(feeds),
    ensures
        urls_unique(upserted(feeds, url, title, items)),
{
    lemma_first_match(feeds, url);
}

impl FeedDb {
    /// An empty collection.
    pub fn new() -> (r: FeedDb)
        ensures
            r@ == Seq::<RecordView>::empty(),
    {
        let r = FeedDb { feeds: Vec::new() };
        assert(r@ =~= Seq::<RecordView>::empty());
        r
    }

    /// The number of feeds.
    pub fn len(&self) -> (r: usize)
        ensures
            r == self@.len(),
    {
        self.feeds.len()
    }

    /// The position of the first feed whose URL is `url`.
    pub fn find_feed(&self, url: &String) -> (r: Option<usize>)
        ensures
            first_match(self@, url@) == -1 ==> r.is_none(),
            first_match(self@, url@) >= 0 ==> r == Some(first_match(self@, url@) as usize),
    {
        let mut i: usize = 0;
        while i < self.feeds.len()
            invariant
                i <= self.feeds.len(),
                forall|j: int| 0 <= j < i ==> self@[j].url != url@,
            decreases self.feeds.len() - i,
        {
            if self.feeds[i].url == *url {
                proof {
                    lemma_first_match_at(self@, url@, i as int);
                }
                return Some(i);
            }
            i += 1;
        }
        proof {
            lemma_first_match(self@, url@);
        }
        None
    }

    /// Replaces the title and entries of the feed keyed by `url`, or appends a
    /// new feed where there is none; returns the feed's position.
    pub fn upsert(&mut self, url: String, title: Option<String>, items: Vec<FeedItem>) -> (r:
        usize)
        ensures
            final(self)@ == upserted(old(self)@, url@, opt_text(title), items_view(items@)),
            r < final(self)@.len(),
            r == first_match(final(self)@, url@),
            final(self)@[r as int].items.len() == items@.len(),
            urls_unique(old(self)@) ==> urls_unique(final(self)@),
    {
        let ghost old_view = self@;
        let ghost new_items = items_view(items@);
        let ghost t = opt_text(title);
        let ghost u = url@;
        proof {
            lemma_first_match(old_view, u);
        }
        let found = self.find_feed(&url);
        proof {
            assert(old_view.len() == self.feeds@.len());
            assert(self@ == old_view);
            assert(first_match(old_view, u) >= 0 ==> found == Some(first_match(old_view, u) as usize));
            assert(first_match(old_view, u) < old_view.len());
            assert(found.is_some() ==> first_match(old_view, u) >= 0);
            if urls_unique(old_view) {
                lemma_upsert_keeps_urls_unique(old_view, u, t, new_items);
            }
        }
        match found {
            Some(i) => {
                let rec = FeedRecord { title, url, items };
                self.feeds.set(i, rec);
                proof {
                    assert(self@ =~= old_view.update(i as int, RecordView { title: t, url: u, items: new_items }));
                    assert(first_match(old_view, u) == i);
                    assert(self@ == upserted(old_view, u, t, new_items));
                    lemma_first_match_at(self@, u, i as int);
                }
                i
            },
            None => {
                let rec = FeedRecord { title, url, items };
                self.feeds.push(rec);
                let n = self.feeds.len() - 1;
                proof {
                    assert(self@ =~= old_view.push(RecordView { title: t, url: u, items: new_items }));
                    assert(first_match(old_view, u) == -1);
                    assert(self@ == upserted(old_view, u, t, new_items));
                    lemma_first_match_at(self@, u, n as int);
                }
                n
            },
        }
    }

    /// Removes the feed at `index`, counted from 0; `None` where there is no
    /// such feed, and then nothing changes.
    pub fn remove(&mut self, index: usize) -> (r: Option<FeedRecord>)
        ensures
            index < old(self)@.len() ==> r.is_some() && r.unwrap()@ == old(self)@[index as int]
                && final(self)@ == old(self)@.remove(index as int),
            index >= old(self)@.len() ==> r.is_none() && final(self)@ == old(self)@,
    {
        if index < self.feeds.len() {
            let ghost old_view = self@;
            let rec = self.feeds.remove(index);
            assert(self@ =~= old_view.remove(index as int));
            Some(rec)
        } else {
            None
        }
    }
}

} // verus!
