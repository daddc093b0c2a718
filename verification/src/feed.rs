use vstd::prelude::*;

use crate::errors::ParserError;

verus! {

/// One item of a parsed feed, prior to transformation: the four fields the
/// pipeline reads, each absent where the document omits it.
pub struct RawEntry {
    pub title: Option<String>,
    pub link: Option<String>,
    pub content: Option<String>,
    pub pub_date: Option<String>,
}

/// The mathematical model of a raw feed entry.
pub struct SpecEntry {
    pub title: Option<Seq<char>>,
    pub link: Option<Seq<char>>,
    pub content: Option<Seq<char>>,
    pub pub_date: Option<Seq<char>>,
}

impl View for RawEntry {
    type V = SpecEntry;

    open spec fn view(&self) -> SpecEntry {
        SpecEntry {
            title: match self.title {
                Some(s) => Some(s@),
                None => None,
            },
            link: match self.link {
                Some(s) => Some(s@),
                None => None,
            },
            content: match self.content {
                Some(s) => Some(s@),
                None => None,
            },
            pub_date: match self.pub_date {
                Some(s) => Some(s@),
                None => None,
            },
        }
    }
}

/// The models of a sequence of raw entries.
pub open spec fn entries_view(s: Seq<RawEntry>) -> Seq<SpecEntry> {
    s.map_values(|e: RawEntry| e@)
}

/// What the outside feed parser returns for a byte string: `None` when the
/// bytes are not a well-formed feed document, else the entries in document
/// order. A function of the bytes alone.
pub uninterp spec fn feed_entries_of(bytes: Seq<u8>) -> Option<Seq<SpecEntry>>;

/// Relies on rss's `Channel::read_from` and the `Item` accessors `title`,
/// `link`, `content` and `pub_date`: whether the bytes parse as an RSS
/// document, and those four fields of each item, are a function of the bytes
/// alone.
#[verifier::external_body]
fn read_channel(bytes: &[u8]) -> (r: Option<Vec<RawEntry>>)
    ensures
        r matches Some(v) ==> feed_entries_of(bytes@) == Some(entries_view(v@)),
        r is None ==> feed_entries_of(bytes@) is None,
{
    match rss::Channel::read_from(bytes) {
        Ok(ch) => Some(
            ch.items().iter().map(
                |it| RawEntry {
                    title: it.title().map(|s| s.to_owned()),
                    link: it.link().map(|s| s.to_owned()),
                    content: it.content().map(|s| s.to_owned()),
                    pub_date: it.pub_date().map(|s| s.to_owned()),
                },
            ).collect(),
        ),
        Err(_) => None,
    }
}

/// Parses a syndication document from its bytes into raw entries. Fails with
/// `FeedParseError` exactly when the bytes are not a well-formed feed.
pub fn parse_feed_bytes(bytes: &[u8]) -> (r: Result<Vec<RawEntry>, ParserError>)
    ensures
        feed_entries_of(bytes@) matches Some(s) ==> (r matches Ok(v) && entries_view(v@)
            == s),
        feed_entries_of(bytes@) is None ==> (r matches Err(e) && e
            == ParserError::FeedParseError),
{
    match read_channel(bytes) {
        Some(v) => Ok(v),
        None => Err(ParserError::FeedParseError),
    }
}

} // verus!
