use vstd::prelude::*;

use crate::errors::ParserError;
use crate::feed::feed_entries_of;
use crate::feed::parse_feed_bytes;
use crate::post::Post;
use crate::post::build_posts;
use crate::post::posts_view;
use crate::post::spec_build_all;
use crate::resolver::get_substack_url;
use crate::resolver::spec_resolve;

verus! {

/// The feed-to-file pipeline's component container: the resolved feed URL,
/// the caller's output directory name and the posts built so far.
pub struct Parser {
    pub output_dir: String,
    pub url: String,
    pub items: Vec<Post>,
}

impl Parser {
    /// Builds a parser for a non-empty source identifier, resolving it to
    /// the canonical feed URL. Starts with no items.
    pub fn new(url: String, output_dir: String) -> (r: Parser)
        requires
            url@.len() > 0,
        ensures
            r.url@ == spec_resolve(url@),
            r.output_dir@ == output_dir@,
            r.items@.len() == 0,
    {
        let rss_url = match get_substack_url(url) {
            Ok(u) => u,
            Err(_) => vstd::pervasive::unreached(),
        };
        Parser { url: rss_url, output_dir, items: Vec::new() }
    }

    /// The compute half of fetching and parsing: parses already-fetched feed
    /// bytes and builds one post per entry into `items`, in feed order.
    /// Fails with `FeedParseError` on a malformed document and with the
    /// defect of the earliest defective entry otherwise; on failure `items`
    /// is left exactly as it was.
    pub fn build_items(&mut self, bytes: &[u8]) -> (r: Result<(), ParserError>)
        ensures
            final(self).url == old(self).url,
            final(self).output_dir == old(self).output_dir,
            r matches Ok(u) ==> (feed_entries_of(bytes@) matches Some(entries)
                && spec_build_all(entries) == Ok::<_, ParserError>(
                posts_view(final(self).items@),
            )),
            r matches Ok(u) ==> forall|i: int|
                0 <= i < final(self).items@.len() ==> (#[trigger] final(self).items@[i]).wf(),
            r matches Err(e) ==> final(self).items == old(self).items && (match feed_entries_of(
                bytes@,
            ) {
                None => e == ParserError::FeedParseError,
                Some(entries) => spec_build_all(entries) == Err::<Seq<crate::post::SpecPost>,
                    ParserError,
                >(e),
            }),
    {
        let entries = match parse_feed_bytes(bytes) {
            Ok(v) => v,
            Err(e) => {
                return Err(e);
            },
        };
        match build_posts(&entries) {
            Ok(posts) => {
                self.items = posts;
                Ok(())
            },
            Err(e) => Err(e),
        }
    }
}

} // verus!
