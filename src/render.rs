//! Text lines of the non-interactive listing.

use vstd::prelude::*;
use crate::entries::shown_title;
use crate::model::{items_view, FeedItem, FeedRecord, ItemView, RecordView};

verus! {

/// An optional text, empty where absent.
pub open spec fn or_empty(o: Option<Seq<char>>) -> Seq<char> {
    match o {
        Some(s) => s,
        None => Seq::empty(),
    }
}

/// `" | "` and the text, or nothing where the text is empty.
pub open spec fn segment(s: Seq<char>) -> Seq<char> {
    if s.len() == 0 {
        Seq::empty()
    } else {
        " | "@ + s
    }
}

/// An entry's line: `- <title>`, then ` | <published>` and ` | <link>` where
/// these are present and not empty.
pub open spec fn item_line_text(item: ItemView) -> Seq<char> {
    "- "@ + item.title + segment(or_empty(item.published)) + segment(or_empty(item.link))
}

/// A feed's label: its shown title and, in parentheses, its URL.
pub open spec fn feed_label_text(feed: RecordView) -> Seq<char> {
    shown_title(feed.title) + " ("@ + feed.url + ")"@
}

fn push_segment(line: &mut String, part: &Option<String>)
    ensures
        final(line)@ == old(line)@ + segment(or_empty(crate::model::opt_text(*part))),
{
    match part {
        Some(s) => {
            if !s.as_str().is_empty() {
                line.append(" | ");
                line.append(s.as_str());
            } else {
                assert(old(line)@ + Seq::<char>::empty() =~= old(line)@);
            }
        },
        None => {
            assert(old(line)@ + Seq::<char>::empty() =~= old(line)@);
        },
    }
}

/// An entry's line of the listing.
pub fn item_line(item: &FeedItem) -> (r: String)
    ensures
        r@ == item_line_text(item@),
{
    let mut line = String::from_str("- ");
    line.append(item.title.as_str());
    push_segment(&mut line, &item.published);
    push_segment(&mut line, &item.link);
    line
}

/// A feed's label in the listing.
pub fn feed_label(feed: &FeedRecord) -> (r: String)
    ensures
        r@ == feed_label_text(feed@),
{
    let mut label = crate::entries::feed_title_of(feed);
    label.append(" (");
    label.append(feed.url.as_str());
    label.append(")");
    label
}

/// The lines listing `items` under `label`: a heading, then one line each.
pub fn item_lines(label: &str, items: &Vec<FeedItem>) -> (r: Vec<String>)
    ensures
        r@.len() == items@.len() + 1,
        r@[0]@ == "Feed: "@ + label@,
        forall|k: int| 0 <= k < items@.len() ==> r@[k + 1]@ == item_line_text(#[trigger] items_view(items@)[k]),
{
    let mut head = String::from_str("Feed: ");
    head.append(label);
    let mut out: Vec<String> = Vec::new();
    out.push(head);
    let mut k: usize = 0;
    while k < items.len()
        invariant
            k <= items@.len(),
            out@.len() == k + 1,
            out@[0]@ == "Feed: "@ + label@,
            forall|j: int| 0 <= j < k ==> out@[j + 1]@ == item_line_text(#[trigger] items_view(items@)[j]),
        decreases items@.len() - k,
    {
        let line = item_line(&items[k]);
        out.push(line);
        k += 1;
    }
    out
}

/// Whether the listing shows `feed` under the URL filter `filter`.
pub fn shows_feed(feed: &FeedRecord, filter: &Option<String>) -> (r: bool)
    ensures
        r == (match filter {
            Some(u) => u@ == feed@.url,
            None => true,
        }),
{
    match filter {
        Some(u) => *u == feed.url,
        None => true,
    }
}

} // verus!
