//! The interactive session's state: the collection, the two selections, the
//! focused pane, the input mode, and the status line; with navigation and the
//! edit operations on it.

use vstd::prelude::*;
use crate::entries::{
    all_display, displays_view, feed_display, feed_entries, is_stable_sort_desc, merged_entries,
    DisplayItem,
};
use crate::model::{first_match, items_view, opt_text, total_items, upserted, FeedDb, FeedItem, RecordView};

verus! {

/// How far Page-Up and Page-Down move a selection.
pub const PAGE_JUMP: isize = 5;

/// The pane that movement keys act on.
#[derive(Clone, Copy, Debug, PartialEq, Eq, Structural)]
pub enum Focus {
    Feeds,
    Items,
}

/// Whether keys navigate or edit the URL being entered.
#[derive(Clone, Copy, Debug, PartialEq, Eq, Structural)]
pub enum Mode {
    Normal,
    AddUrl,
}

/// Which edit asked for a feed to be fetched.
#[derive(Clone, Copy, Debug, PartialEq, Eq, Structural)]
pub enum FetchPurpose {
    Add,
    Refresh,
}

/// `index` held within `0..=last`.
pub open spec fn clamp_to(index: int, last: int) -> int {
    if index < 0 {
        0
    } else if index > last {
        last
    } else {
        index
    }
}

/// The number of entries the entry pane shows for feed selection `sel`
/// (0 and any index past the last feed select "All feeds").
pub open spec fn view_len(feeds: Seq<RecordView>, sel: int) -> nat {
    if sel <= 0 || sel > feeds.len() {
        total_items(feeds)
    } else {
        feeds[sel - 1].items.len()
    }
}

/// That length as a count, held at the largest `usize`.
pub open spec fn view_count(feeds: Seq<RecordView>, sel: int) -> nat {
    let n = view_len(feeds, sel);
    if n > usize::MAX {
        usize::MAX as nat
    } else {
        n
    }
}

/// The entry selection kept valid for a view of `len` entries: none where the
/// view is empty, else the previous index (0 if none) held below `len`.
pub open spec fn fitted_selection(prev: Option<usize>, len: nat) -> Option<usize> {
    if len == 0 {
        None
    } else {
        let p = match prev {
            Some(i) => i as int,
            None => 0,
        };
        Some(if p > len - 1 { (len - 1) as usize } else { p as usize })
    }
}

/// An entry selection that fits a view of `len` entries.
pub open spec fn selection_fits(sel: Option<usize>, len: nat) -> bool {
    (sel.is_none() <==> len == 0) && (sel matches Some(i) ==> i < len)
}

/// Holds `index` within `0..len`; 0 where `len` is 0.
pub fn clamp_index(index: isize, len: usize) -> (r: usize)
    ensures
        r == clamp_to(index as int, if len == 0 { 0 } else { len - 1 }),
{
    let last: usize = if len == 0 { 0 } else { len - 1 };
    clamp_wide(index as i128, last)
}

fn clamp_wide(index: i128, last: usize) -> (r: usize)
    ensures
        r == clamp_to(index as int, last as int),
{
    if index < 0 {
        0
    } else if index > last as i128 {
        last
    } else {
        index as usize
    }
}

/// The state of one interactive session.
pub struct App {
    pub db: FeedDb,
    /// 0 selects "All feeds"; `i` in `1..=n` selects feed `i - 1`.
    pub feed_selected: usize,
    pub item_selected: Option<usize>,
    pub focus: Focus,
    pub mode: Mode,
    pub input: String,
    pub status: String,
}

impl App {
    /// The feed selection is a real feed or "All feeds", and the entry
    /// selection fits the entries shown.
    pub open spec fn wf(&self) -> bool {
        &&& self.feed_selected <= self.db@.len()
        &&& selection_fits(self.item_selected, self.shown_count())
    }

    /// The number of entries shown (held at the largest `usize`).
    pub open spec fn shown_count(&self) -> nat {
        view_count(self.db@, self.feed_selected as int)
    }

    /// A session over `db`: "All feeds" selected, focus on the feed pane, in
    /// normal mode, with an empty input and status.
    pub fn new(db: FeedDb) -> (r: App)
        ensures
            r.wf(),
            r.db@ == db@,
            r.feed_selected == 0,
            r.item_selected == fitted_selection(None, view_count(db@, 0)),
            r.focus == Focus::Feeds,
            r.mode == Mode::Normal,
            r.input@.len() == 0,
            r.status@.len() == 0,
    {
        let mut app = App {
            db,
            feed_selected: 0,
            item_selected: None,
            focus: Focus::Feeds,
            mode: Mode::Normal,
            input: String::new(),
            status: String::new(),
        };
        let n = app.current_items_count();
        app.ensure_item_selection(n);
        app
    }

    /// The position of the selected real feed, if one is selected.
    pub fn selected_feed(&self) -> (r: Option<usize>)
        ensures
            r matches Some(i) ==> i < self.db@.len() && i + 1 == self.feed_selected,
            r.is_none() <==> (self.feed_selected == 0 || self.feed_selected > self.db@.len()),
    {
        if self.feed_selected == 0 || self.feed_selected > self.db.feeds.len() {
            None
        } else {
            Some(self.feed_selected - 1)
        }
    }

    /// Whether the "All feeds" view is selected.
    pub fn is_all_selected(&self) -> (r: bool)
        ensures
            r == (self.feed_selected == 0),
    {
        self.feed_selected == 0
    }

    /// The number of entries shown, held at the largest `usize`.
    pub fn current_items_count(&self) -> (r: usize)
        ensures
            r == self.shown_count(),
    {
        match self.selected_feed() {
            Some(i) => self.db.feeds[i].items.len(),
            None => {
                let mut sum: usize = 0;
                let mut i: usize = 0;
                let ghost fv = self.db@;
                while i < self.db.feeds.len()
                    invariant
                        i <= self.db.feeds.len(),
                        fv == self.db@,
                        sum == (if total_items(fv.subrange(0, i as int)) > usize::MAX {
                            usize::MAX as nat
                        } else {
                            total_items(fv.subrange(0, i as int))
                        }),
                    decreases self.db.feeds.len() - i,
                {
                    let k = self.db.feeds[i].items.len();
                    assert(fv.subrange(0, i + 1).drop_last() =~= fv.subrange(0, i as int));
                    assert(fv[i as int].items.len() == k);
                    proof {
                        lemma_total_items_grows(fv.subrange(0, i as int), fv.subrange(0, i + 1));
                    }
                    sum = sum.saturating_add(k);
                    i += 1;
                }
                assert(fv.subrange(0, i as int) =~= fv);
                sum
            },
        }
    }

    /// The entries shown: the selected feed's, in its order; or, for "All
    /// feeds", every feed's, newest first and undated last, stably.
    pub fn current_items(&self) -> (r: Vec<DisplayItem>)
        ensures
            1 <= self.feed_selected <= self.db@.len() ==> displays_view(r@) == feed_display(
                self.db@[self.feed_selected - 1],
            ),
            (self.feed_selected == 0 || self.feed_selected > self.db@.len()) ==> is_stable_sort_desc(
                all_display(self.db@),
                displays_view(r@),
            ),
    {
        match self.selected_feed() {
            Some(i) => feed_entries(&self.db.feeds[i]),
            None => merged_entries(&self.db.feeds),
        }
    }

    /// Fits the entry selection to a view of `len` entries.
    pub fn ensure_item_selection(&mut self, len: usize)
        ensures
            final(self).item_selected == fitted_selection(old(self).item_selected, len as nat),
            selection_fits(final(self).item_selected, len as nat),
            final(self).db == old(self).db,
            final(self).feed_selected == old(self).feed_selected,
            final(self).focus == old(self).focus,
            final(self).mode == old(self).mode,
            final(self).input == old(self).input,
            final(self).status == old(self).status,
    {
        if len == 0 {
            self.item_selected = None;
            return;
        }
        let selected = match self.item_selected {
            Some(i) => i,
            None => 0,
        };
        let clamped = if selected > len - 1 { len - 1 } else { selected };
        self.item_selected = Some(clamped);
    }

    /// Moves the feed selection by `delta`, held within `0..=n` for `n`
    /// feeds, and fits the entry selection to the new view.
    pub fn move_feed(&mut self, delta: isize)
        requires
            old(self).wf(),
        ensures
            final(self).wf(),
            final(self).feed_selected == clamp_to(
                old(self).feed_selected + delta,
                old(self).db@.len() as int,
            ),
            final(self).item_selected == fitted_selection(
                old(self).item_selected,
                final(self).shown_count(),
            ),
            final(self).db == old(self).db,
            final(self).focus == old(self).focus,
            final(self).mode == old(self).mode,
            final(self).input == old(self).input,
            final(self).status == old(self).status,
    {
        let target: i128 = self.feed_selected as i128 + delta as i128;
        let next = clamp_wide(target, self.db.feeds.len());
        self.feed_selected = next;
        let n = self.current_items_count();
        self.ensure_item_selection(n);
    }

    /// Moves the entry selection by `delta`, held within the entries shown;
    /// no selection where none are shown.
    pub fn move_item(&mut self, delta: isize)
        requires
            old(self).wf(),
        ensures
            final(self).wf(),
            old(self).shown_count() == 0 ==> final(self).item_selected.is_none(),
            old(self).shown_count() > 0 ==> final(self).item_selected == Some(
                clamp_to(
                    (match old(self).item_selected {
                        Some(i) => i as int,
                        None => 0,
                    }) + delta,
                    old(self).shown_count() - 1,
                ) as usize,
            ),
            final(self).db == old(self).db,
            final(self).feed_selected == old(self).feed_selected,
            final(self).focus == old(self).focus,
            final(self).mode == old(self).mode,
            final(self).input == old(self).input,
            final(self).status == old(self).status,
    {
        let count = self.current_items_count();
        if count == 0 {
            self.item_selected = None;
            return;
        }
        let current = match self.item_selected {
            Some(i) => i,
            None => 0,
        };
        let next = clamp_wide(current as i128 + delta as i128, count - 1);
        self.item_selected = Some(next);
    }

    /// Moves the selection of the focused pane by `delta`.
    pub fn move_selection(&mut self, delta: isize)
        requires
            old(self).wf(),
        ensures
            final(self).wf(),
            moved(*old(self), *final(self), delta as int),
    {
        match self.focus {
            Focus::Feeds => self.move_feed(delta),
            Focus::Items => self.move_item(delta),
        }
    }

    /// Stores a fetched feed under `url` (replacing the title and entries of
    /// the feed with that URL, or appending one), selects it, and fits the
    /// entry selection to its entries.
    pub fn upsert_feed(&mut self, url: String, title: Option<String>, items: Vec<FeedItem>)
        requires
            old(self).wf(),
        ensures
            final(self).wf(),
            final(self).db@ == upserted(old(self).db@, url@, opt_text(title), items_view(items@)),
            final(self).feed_selected == first_match(final(self).db@, url@) + 1,
            final(self).item_selected == fitted_selection(
                old(self).item_selected,
                items@.len() as nat,
            ),
            final(self).focus == old(self).focus,
            final(self).mode == old(self).mode,
            final(self).input == old(self).input,
            final(self).status == old(self).status,
    {
        let ghost n_items = items@.len();
        let index = self.db.upsert(url, title, items);
        assert(index < self.db.feeds.len());
        self.feed_selected = index + 1;
        let n = self.db.feeds[index].items.len();
        assert(self.db@[index as int].items.len() == self.db.feeds@[index as int].items@.len());
        self.ensure_item_selection(n);
    }

    /// Removes the selected real feed, then selects the feed that took its
    /// place (or the new last one, or "All feeds" where none is left) and
    /// fits the entry selection. Returns the removed feed's URL, or `None`
    /// (changing nothing) where "All feeds" is selected.
    pub fn delete_selected(&mut self) -> (r: Option<String>)
        requires
            old(self).wf(),
        ensures
            final(self).wf(),
            old(self).feed_selected == 0 ==> r.is_none() && *final(self) == *old(self),
            old(self).feed_selected > 0 ==> deleted(*old(self), *final(self)) && r.is_some()
                && r.unwrap()@ == old(self).db@[old(self).feed_selected - 1].url
                && final(self).status == old(self).status,
    {
        if self.feed_selected == 0 {
            return None;
        }
        let feed_index = self.feed_selected - 1;
        let removed = self.db.remove(feed_index);
        match removed {
            Some(rec) => {
                if self.db.feeds.len() == 0 {
                    self.feed_selected = 0;
                    self.item_selected = None;
                } else {
                    let n = self.db.feeds.len();
                    self.feed_selected = if feed_index + 1 < n { feed_index + 1 } else { n };
                }
                let count = self.current_items_count();
                self.ensure_item_selection(count);
                Some(rec.url)
            },
            None => None,
        }
    }
}

/// `post` is `pre` after moving the focused pane's selection by `delta`.
pub open spec fn moved(pre: App, post: App, delta: int) -> bool {
    &&& post.db == pre.db
    &&& post.focus == pre.focus
    &&& post.mode == pre.mode
    &&& post.input == pre.input
    &&& post.status == pre.status
    &&& match pre.focus {
        Focus::Feeds => {
            &&& post.feed_selected == clamp_to(pre.feed_selected + delta, pre.db@.len() as int)
            &&& post.item_selected == fitted_selection(pre.item_selected, post.shown_count())
        },
        Focus::Items => {
            &&& post.feed_selected == pre.feed_selected
            &&& post.item_selected == fitted_selection(
                Some(
                    clamp_to(
                        (match pre.item_selected {
                            Some(i) => i as int,
                            None => 0,
                        }) + delta,
                        pre.shown_count() - 1,
                    ) as usize,
                ),
                pre.shown_count(),
            )
        },
    }
}

/// `post` is `pre` after removing the selected real feed (the status aside).
pub open spec fn deleted(pre: App, post: App) -> bool {
    let i = pre.feed_selected - 1;
    let n = pre.db@.len() - 1;
    &&& post.db@ == pre.db@.remove(i)
    &&& post.feed_selected == (if n == 0 {
        0
    } else if i + 1 < n {
        i + 1
    } else {
        n
    })
    &&& post.item_selected == (if n == 0 {
        None
    } else {
        fitted_selection(pre.item_selected, post.shown_count())
    })
    &&& post.focus == pre.focus
    &&& post.mode == pre.mode
    &&& post.input == pre.input
}

/// Appending a feed's entries adds their number to the total.
pub proof fn lemma_total_items_grows(short: Seq<RecordView>, long: Seq<RecordView>)
    requires
        long.len() == short.len() + 1,
        long.drop_last() == short,
    ensures
        total_items(long) == total_items(short) + long.last().items.len(),
{
}

} // verus!
