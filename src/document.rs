//! Feed documents (RSS, Atom, JSON Feed) read into entries.

use vstd::prelude::*;
use crate::guard::{check_npt_safe, npt_safe};
use crate::model::{items_view, opt_text, FeedItem, ItemView};

verus! {

#[verifier::external_type_specification]
#[verifier::external_body]
pub struct ExParseFeedError(feed_rs::parser::ParseFeedError);

/// An entry as the document gives it.
#[derive(Debug)]
pub struct RawEntry {
    pub title: Option<String>,
    pub links: Vec<String>,
    pub published: Option<String>,
}

/// What a document entry holds, as values.
pub struct RawEntryView {
    pub title: Option<Seq<char>>,
    pub links: Seq<Seq<char>>,
    pub published: Option<Seq<char>>,
}

impl View for RawEntry {
    type V = RawEntryView;

    open spec fn view(&self) -> RawEntryView {
        RawEntryView {
            title: opt_text(self.title),
            links: self.links@.map_values(|l: String| l@),
            published: opt_text(self.published),
        }
    }
}

/// A feed as the document gives it.
#[derive(Debug)]
pub struct RawFeed {
    pub title: Option<String>,
    pub entries: Vec<RawEntry>,
}

/// What a document holds, as values.
pub struct RawFeedView {
    pub title: Option<Seq<char>>,
    pub entries: Seq<RawEntryView>,
}

impl View for RawFeed {
    type V = RawFeedView;

    open spec fn view(&self) -> RawFeedView {
        RawFeedView {
            title: opt_text(self.title),
            entries: self.entries@.map_values(|e: RawEntry| e@),
        }
    }
}

/// The feed that the document's bytes hold, or `None` where they hold none.
pub uninterp spec fn parsed_feed(bytes: Seq<u8>) -> Option<RawFeedView>;

/// Relies on feed_rs's `parser::parse`, which reads an RSS, Atom or JSON
/// Feed document: its feed title, and each entry's title, link targets and
/// publication date (written out by chrono's `DateTime::to_rfc3339`). These
/// depend on the bytes alone (the ids it makes up are not kept). Its reading
/// of media play times unwraps digit parses and multiplies without a check,
/// so only documents whose play times are short ASCII values are handed to it.
#[verifier::external_body]
fn parse_document(bytes: &[u8]) -> (r: Result<RawFeed, feed_rs::parser::ParseFeedError>)
    requires
        npt_safe(bytes@),
    ensures
        r matches Ok(f) ==> parsed_feed(bytes@) == Some(f@),
        r is Err ==> parsed_feed(bytes@).is_none(),
{
    feed_rs::parser::parse(bytes).map(|feed| RawFeed {
        title: feed.title.map(|t| t.content),
        entries: feed.entries.into_iter().map(|e| RawEntry {
            title: e.title.map(|t| t.content),
            links: e.links.into_iter().map(|l| l.href).collect(),
            published: e.published.map(|d| d.to_rfc3339()),
        }).collect(),
    })
}

/// An entry as stored: its title ("Untitled" where it has none), its first
/// link, and its publication date.
pub open spec fn entry_item(e: RawEntryView) -> ItemView {
    ItemView {
        title: match e.title {
            Some(t) => t,
            None => "Untitled"@,
        },
        link: if e.links.len() > 0 {
            Some(e.links[0])
        } else {
            None
        },
        published: e.published,
    }
}

/// The entries stored for a document's entries.
pub open spec fn entry_items(entries: Seq<RawEntryView>) -> Seq<ItemView> {
    entries.map_values(|e: RawEntryView| entry_item(e))
}

/// The text reported when the bytes hold no feed.
pub open spec fn parse_failure_text() -> Seq<char> {
    "failed to parse feed"@
}

/// One document entry as stored.
pub fn item_from_entry(e: RawEntry) -> (r: FeedItem)
    ensures
        r@ == entry_item(e@),
{
    let RawEntry { title, links, published } = e;
    let title = match title {
        Some(t) => t,
        None => String::from_str("Untitled"),
    };
    let link = if links.len() > 0 {
        Some(links[0].clone())
    } else {
        None
    };
    FeedItem { title, link, published }
}

/// The title and the stored entries of a parsed document, in its order.
pub fn items_from_feed(raw: RawFeed) -> (r: (Option<String>, Vec<FeedItem>))
    ensures
        opt_text(r.0) == raw@.title,
        items_view(r.1@) == entry_items(raw@.entries),
{
    let ghost rv = raw@;
    let RawFeed { title, entries } = raw;
    let n = entries.len();
    let mut rest = entries;
    let mut out: Vec<FeedItem> = Vec::new();
    let mut i: usize = 0;
    while i < n
        invariant
            i <= n,
            n == rv.entries.len(),
            rest@.len() == n - i,
            forall|k: int| 0 <= k < n - i ==> #[trigger] rest@[k]@ == rv.entries[k + i],
            items_view(out@) == entry_items(rv.entries.subrange(0, i as int)),
        decreases n - i,
    {
        let ghost before = out@;
        let ghost rest_before = rest@;
        let e = rest.remove(0);
        assert(e@ == rv.entries[i as int]) by {
            assert(rest_before[0]@ == rv.entries[0 + i]);
        }
        assert forall|k: int| 0 <= k < n - (i + 1) implies #[trigger] rest@[k]@ == rv.entries[k + (i + 1)] by {
            assert(rest@[k] == rest_before[k + 1]);
            assert(rest_before[k + 1]@ == rv.entries[(k + 1) + i]);
        }
        let item = item_from_entry(e);
        out.push(item);
        assert(items_view(out@) =~= items_view(before).push(item@));
        assert(entry_items(rv.entries.subrange(0, i + 1)) =~= entry_items(
            rv.entries.subrange(0, i as int),
        ).push(entry_item(rv.entries[i as int])));
        i += 1;
    }
    assert(rv.entries.subrange(0, n as int) =~= rv.entries);
    (title, out)
}

/// Reads a feed document: its title and stored entries, or the failure text
/// where the bytes hold no feed.
pub fn parse_feed_items(bytes: &[u8]) -> (r: Result<(Option<String>, Vec<FeedItem>), String>)
    requires
        npt_safe(bytes@),
    ensures
        parsed_feed(bytes@).is_none() <==> r is Err,
        r matches Err(e) ==> e@ == parse_failure_text(),
        r matches Ok((title, items)) ==> parsed_feed(bytes@) matches Some(f) && opt_text(title)
            == f.title && items_view(items@) == entry_items(f.entries),
{
    match parse_document(bytes) {
        Ok(raw) => Ok(items_from_feed(raw)),
        Err(_) => Err(String::from_str("failed to parse feed")),
    }
}

/// Reads a feed document as `parse_feed_items` does where its play times are
/// safe to read; reports the failure text, without parsing, where they are not.
pub fn read_feed(bytes: &[u8]) -> (r: Result<(Option<String>, Vec<FeedItem>), String>)
    ensures
        !npt_safe(bytes@) ==> r is Err,
        npt_safe(bytes@) ==> (parsed_feed(bytes@).is_none() <==> r is Err),
        r matches Err(e) ==> e@ == parse_failure_text(),
        r is Ok ==> npt_safe(bytes@),
        r matches Ok((title, items)) ==> parsed_feed(bytes@) matches Some(f) && opt_text(title)
            == f.title && items_view(items@) == entry_items(f.entries),
{
    if check_npt_safe(bytes) {
        parse_feed_items(bytes)
    } else {
        Err(String::from_str("failed to parse feed"))
    }
}

} // verus!
