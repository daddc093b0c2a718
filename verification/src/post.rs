use vstd::prelude::*;

use crate::date::Date;
use crate::date::spec_format_date;
use crate::date::spec_parse_date;
use crate::date::format_date;
use crate::errors::ParserError;
use crate::feed::RawEntry;
use crate::feed::SpecEntry;
use crate::feed::entries_view;

verus! {

/// The characters of `s` after its last `/`; all of `s` when it holds none.
pub open spec fn after_last_slash(s: Seq<char>) -> Seq<char>
    decreases s.len(),
{
    if s.len() == 0 {
        Seq::empty()
    } else if s.last() == '/' {
        Seq::empty()
    } else {
        after_last_slash(s.drop_last()).push(s.last())
    }
}

/// The slug of a link: its last non-empty segment when split on `/`, or
/// `None` when every segment is empty.
pub open spec fn spec_slug(s: Seq<char>) -> Option<Seq<char>>
    decreases s.len(),
{
    if s.len() == 0 {
        None
    } else if s.last() == '/' {
        spec_slug(s.drop_last())
    } else {
        Some(after_last_slash(s))
    }
}

/// What `after_last_slash` returns holds no `/`.
proof fn lemma_after_last_slash_no_slash(s: Seq<char>)
    ensures
        forall|i: int| 0 <= i < after_last_slash(s).len() ==> after_last_slash(s)[i] != '/',
    decreases s.len(),
{
    if s.len() > 0 && s.last() != '/' {
        lemma_after_last_slash_no_slash(s.drop_last());
        let r = after_last_slash(s);
        assert forall|i: int| 0 <= i < r.len() implies r[i] != '/' by {
            if i < r.len() - 1 {
                assert(r[i] == after_last_slash(s.drop_last())[i]);
            } else {
                assert(r[i] == s.last());
            }
        }
    }
}

/// A slug, where one exists, is non-empty and holds no `/`.
pub proof fn lemma_slug_valid(s: Seq<char>)
    ensures
        spec_slug(s) matches Some(t) ==> t.len() > 0 && (forall|i: int|
            0 <= i < t.len() ==> t[i] != '/'),
    decreases s.len(),
{
    if s.len() == 0 {
    } else if s.last() == '/' {
        lemma_slug_valid(s.drop_last());
    } else {
        lemma_after_last_slash_no_slash(s);
        assert(after_last_slash(s).len() > 0);
    }
}

/// When a prefix ending in `/` is followed by a slash-free non-empty tail,
/// the characters after the last slash are exactly that tail.
proof fn lemma_after_last_slash_tail(q: Seq<char>, tail: Seq<char>)
    requires
        q.len() > 0,
        q.last() == '/',
        tail.len() > 0,
        forall|i: int| 0 <= i < tail.len() ==> tail[i] != '/',
    ensures
        after_last_slash(q + tail) == tail,
    decreases tail.len(),
{
    let s = q + tail;
    assert(s.last() == tail.last());
    assert(s.last() != '/');
    if tail.len() == 1 {
        assert(s.drop_last() =~= q);
        assert(after_last_slash(q) =~= Seq::<char>::empty());
        assert(after_last_slash(s) == after_last_slash(q).push(s.last()));
        assert(after_last_slash(s) =~= tail);
    } else {
        assert(s.drop_last() =~= q + tail.drop_last());
        lemma_after_last_slash_tail(q, tail.drop_last());
        assert(after_last_slash(s) == after_last_slash(q + tail.drop_last()).push(s.last()));
        assert(after_last_slash(s) =~= tail);
    }
}

/// Law: for every link that ends in `/` followed by a non-empty, slash-free
/// tail, the slug is exactly that tail.
pub proof fn lemma_slug_of_well_formed(prefix: Seq<char>, tail: Seq<char>)
    requires
        tail.len() > 0,
        forall|i: int| 0 <= i < tail.len() ==> tail[i] != '/',
    ensures
        spec_slug(prefix + seq!['/'] + tail) == Some(tail),
{
    let q = prefix + seq!['/'];
    let s = q + tail;
    assert(q.last() == '/');
    assert(s.last() == tail.last());
    lemma_after_last_slash_tail(q, tail);
    assert(prefix + seq!['/'] + tail =~= s);
    assert(spec_slug(s) == Some(after_last_slash(s)));
}

/// Extracts the slug of a link: the last non-empty segment when split on `/`.
/// Fails with `MalformedLink` when the link has no such segment.
pub fn extract_slug(link: &str) -> (r: Result<String, ParserError>)
    ensures
        spec_slug(link@) matches Some(t) ==> (r matches Ok(s) && s@ == t),
        spec_slug(link@) is None ==> (r matches Err(e) && e == ParserError::MalformedLink),
{
    let n = link.unicode_len();
    proof {
        assert(link@.take(n as int) =~= link@);
    }
    let mut end: usize = n;
    while end > 0 && link.get_char(end - 1) == '/'
        invariant
            n == link@.len(),
            end <= n,
            spec_slug(link@) == spec_slug(link@.take(end as int)),
        decreases end,
    {
        proof {
            let t = link@.take(end as int);
            assert(t.last() == link@[end - 1]);
            assert(t.drop_last() =~= link@.take(end - 1));
        }
        end = end - 1;
    }
    if end == 0 {
        proof {
            assert(link@.take(0) =~= Seq::<char>::empty());
        }
        return Err(ParserError::MalformedLink);
    }
    proof {
        let t = link@.take(end as int);
        assert(t.last() == link@[end - 1]);
        assert(spec_slug(link@) == Some(after_last_slash(t)));
    }
    let mut start: usize = end;
    while start > 0 && link.get_char(start - 1) != '/'
        invariant
            n == link@.len(),
            start <= end <= n,
            after_last_slash(link@.take(end as int)) == after_last_slash(
                link@.take(start as int),
            ) + link@.subrange(start as int, end as int),
            forall|i: int|
                start <= i < end ==> link@[i] != '/',
        decreases start,
    {
        proof {
            let t = link@.take(start as int);
            assert(t.last() == link@[start - 1]);
            assert(t.drop_last() =~= link@.take(start - 1));
            assert(after_last_slash(t) == after_last_slash(link@.take(start - 1)).push(
                link@[start - 1],
            ));
            assert(after_last_slash(link@.take(start - 1)) + link@.subrange(
                start - 1,
                end as int,
            ) =~= after_last_slash(t) + link@.subrange(start as int, end as int));
        }
        start = start - 1;
    }
    proof {
        let t = link@.take(start as int);
        if start == 0 {
            assert(t =~= Seq::<char>::empty());
            assert(after_last_slash(t) =~= Seq::<char>::empty());
        } else {
            assert(t.last() == link@[start - 1]);
            assert(after_last_slash(t) =~= Seq::<char>::empty());
        }
        assert(after_last_slash(link@.take(end as int)) =~= link@.subrange(
            start as int,
            end as int,
        ));
    }
    let raw = link.substring_char(start, end);
    Ok(raw.to_owned())
}

/// One post, built once from one raw feed entry and consumed once by the
/// file-writing stage.
pub struct Post {
    /// The last non-empty segment of the entry's link; never empty, never
    /// holds `/`.
    pub slug: String,
    /// The entry's title, kept for diagnostics only.
    pub title: String,
    /// The entry's content converted to Markdown.
    pub md: String,
    /// The entry's publication date.
    pub date: Date,
}

/// The mathematical model of a post.
pub struct SpecPost {
    pub slug: Seq<char>,
    pub title: Seq<char>,
    pub md: Seq<char>,
    pub date: Date,
}

impl View for Post {
    type V = SpecPost;

    open spec fn view(&self) -> SpecPost {
        SpecPost { slug: self.slug@, title: self.title@, md: self.md@, date: self.date }
    }
}

impl Post {
    /// Well-formedness: the slug is a valid filename part and the date fits
    /// its rendering.
    pub open spec fn wf(self) -> bool {
        &&& self.slug@.len() > 0
        &&& forall|i: int| 0 <= i < self.slug@.len() ==> self.slug@[i] != '/'
        &&& self.date.wf()
    }
}

/// The post built from already-converted Markdown and the entry's link,
/// title and publication-date strings; or the defect of the entry.
pub open spec fn spec_build_post(
    md: Seq<char>,
    url: Seq<char>,
    title: Seq<char>,
    pubdate: Seq<char>,
) -> Result<SpecPost, ParserError> {
    match spec_slug(url) {
        None => Err(ParserError::MalformedLink),
        Some(slug) => match spec_parse_date(pubdate) {
            None => Err(ParserError::InvalidDate),
            Some(date) => Ok(SpecPost { slug, title, md, date }),
        },
    }
}

impl Post {
    /// Builds a post from converted Markdown and the entry's link, title and
    /// publication date. Fails with `MalformedLink` when the link has no
    /// non-empty segment and with `InvalidDate` when the date does not parse.
    pub fn new(md: &str, url: &str, title: &str, pubdate: &str) -> (r: Result<
        Post,
        ParserError,
    >)
        ensures
            r matches Ok(p) ==> spec_build_post(md@, url@, title@, pubdate@) == Ok::<
                SpecPost,
                ParserError,
            >(p@) && p.wf(),
            r matches Err(e) ==> spec_build_post(md@, url@, title@, pubdate@) == Err::<
                SpecPost,
                ParserError,
            >(e),
    {
        let slug = match extract_slug(url) {
            Ok(s) => s,
            Err(e) => {
                return Err(e);
            },
        };
        let date = match Date::parse_rfc2822(pubdate) {
            Some(d) => d,
            None => {
                return Err(ParserError::InvalidDate);
            },
        };
        proof {
            lemma_slug_valid(url@);
        }
        Ok(Post { slug, title: title.to_owned(), md: md.to_owned(), date })
    }

    /// The slug of this post.
    pub fn slug(&self) -> (r: &str)
        ensures
            r@ == self.slug@,
    {
        self.slug.as_str()
    }

    /// The derived output filename, `MM-DD-YYYY-{slug}.md`.
    pub fn filename(&self) -> (r: String)
        requires
            self.wf(),
        ensures
            r@ == spec_filename(self@),
    {
        let mut s = format_date(&self.date);
        s.append("-");
        s.append(self.slug.as_str());
        s.append(".md");
        proof {
            assert(s@ =~= spec_filename(self@));
        }
        s
    }
}

/// The output filename of a post: its date as `MM-DD-YYYY`, a dash, its slug
/// and the `.md` extension.
pub open spec fn spec_filename(p: SpecPost) -> Seq<char> {
    spec_format_date(p.date) + "-"@ + p.slug + ".md"@
}

/// What the outside HTML-to-Markdown converter returns for an HTML string.
/// A function of the characters alone.
pub uninterp spec fn markdown_of(html: Seq<char>) -> Seq<char>;

/// Relies on html2md's `parse_html`: the conversion is a pure function of the
/// input characters alone.
#[verifier::external_body]
fn convert_html(html: &str) -> (r: String)
    ensures
        r@ == markdown_of(html@),
{
    html2md::parse_html(html)
}

/// The Markdown body kept for an entry: the conversion of its content, or
/// empty where the document carries none.
pub open spec fn spec_body_of(content: Option<Seq<char>>) -> Seq<char> {
    match content {
        Some(c) => markdown_of(c),
        None => Seq::empty(),
    }
}

/// The title kept for an entry: its own, or empty where the document carries
/// none.
pub open spec fn spec_title_of(title: Option<Seq<char>>) -> Seq<char> {
    match title {
        Some(t) => t,
        None => Seq::empty(),
    }
}

/// The post built from one raw entry, or the defect of that entry: a missing
/// link counts as malformed, a missing publication date as invalid.
pub open spec fn spec_post_of_entry(e: SpecEntry) -> Result<SpecPost, ParserError> {
    match e.link {
        None => Err(ParserError::MalformedLink),
        Some(url) => match e.pub_date {
            None => Err(ParserError::InvalidDate),
            Some(pd) => spec_build_post(spec_body_of(e.content), url, spec_title_of(e.title), pd),
        },
    }
}

impl Post {
    /// Builds a post from one raw feed entry: converts the content to
    /// Markdown, extracts the slug from the link and parses the publication
    /// date. A missing title or content is kept empty; a missing link fails
    /// with `MalformedLink`, a missing or unparsable date with `InvalidDate`.
    pub fn from_entry(entry: &RawEntry) -> (r: Result<Post, ParserError>)
        ensures
            r matches Ok(p) ==> spec_post_of_entry(entry@) == Ok::<SpecPost, ParserError>(p@)
                && p.wf(),
            r matches Err(e) ==> spec_post_of_entry(entry@) == Err::<SpecPost, ParserError>(e),
    {
        let url: &str = match &entry.link {
            Some(l) => l.as_str(),
            None => {
                return Err(ParserError::MalformedLink);
            },
        };
        let pubdate: &str = match &entry.pub_date {
            Some(p) => p.as_str(),
            None => {
                return Err(ParserError::InvalidDate);
            },
        };
        let title: &str = match &entry.title {
            Some(t) => t.as_str(),
            None => "",
        };
        let md: String = match &entry.content {
            Some(c) => convert_html(c.as_str()),
            None => String::new(),
        };
        proof {
            if entry.title is None {
                reveal_strlit("");
                assert(""@ =~= Seq::<char>::empty());
            }
        }
        Post::new(md.as_str(), url, title, pubdate)
    }
}

/// The models of a sequence of posts.
pub open spec fn posts_view(s: Seq<Post>) -> Seq<SpecPost> {
    s.map_values(|p: Post| p@)
}

/// The posts built from a sequence of entries, or the defect of the earliest
/// defective entry: the build stops at the first failure.
pub open spec fn spec_build_all(entries: Seq<SpecEntry>) -> Result<Seq<SpecPost>, ParserError>
    decreases entries.len(),
{
    if entries.len() == 0 {
        Ok(Seq::empty())
    } else {
        match spec_build_all(entries.drop_last()) {
            Err(e) => Err(e),
            Ok(ps) => match spec_post_of_entry(entries.last()) {
                Err(e) => Err(e),
                Ok(p) => Ok(ps.push(p)),
            },
        }
    }
}

/// Once a prefix of the entries fails to build, the whole sequence fails with
/// the same defect.
proof fn lemma_build_all_err(entries: Seq<SpecEntry>, k: int, e: ParserError)
    requires
        0 <= k <= entries.len(),
        spec_build_all(entries.take(k)) == Err::<Seq<SpecPost>, ParserError>(e),
    ensures
        spec_build_all(entries) == Err::<Seq<SpecPost>, ParserError>(e),
    decreases entries.len() - k,
{
    if k == entries.len() {
        assert(entries.take(k) =~= entries);
    } else {
        assert(entries.take(k + 1).drop_last() =~= entries.take(k));
        lemma_build_all_err(entries, k + 1, e);
    }
}

/// Builds one post per raw entry, in order. Fails with the defect of the
/// earliest defective entry, building nothing past it.
pub fn build_posts(entries: &Vec<RawEntry>) -> (r: Result<Vec<Post>, ParserError>)
    ensures
        r matches Ok(v) ==> spec_build_all(entries_view(entries@)) == Ok::<
            Seq<SpecPost>,
            ParserError,
        >(posts_view(v@)) && (forall|i: int| 0 <= i < v@.len() ==> v@[i].wf()),
        r matches Err(e) ==> spec_build_all(entries_view(entries@)) == Err::<
            Seq<SpecPost>,
            ParserError,
        >(e),
{
    let ghost ev = entries_view(entries@);
    let mut posts: Vec<Post> = Vec::new();
    proof {
        assert(ev.take(0) =~= Seq::<SpecEntry>::empty());
        assert(posts_view(posts@) =~= Seq::<SpecPost>::empty());
    }
    let n = entries.len();
    for i in 0..n
        invariant
            n == entries@.len(),
            ev == entries_view(entries@),
            posts@.len() == i,
            spec_build_all(ev.take(i as int)) == Ok::<Seq<SpecPost>, ParserError>(
                posts_view(posts@),
            ),
            forall|j: int| 0 <= j < posts@.len() ==> posts@[j].wf(),
    {
        proof {
            assert(ev[i as int] == entries@[i as int]@);
        }
        match Post::from_entry(&entries[i]) {
            Ok(p) => {
                let ghost pv = posts_view(posts@);
                let ghost sp = p@;
                posts.push(p);
                proof {
                    assert(ev.take(i + 1).drop_last() =~= ev.take(i as int));
                    assert(ev.take(i + 1).last() == ev[i as int]);
                    assert(posts_view(posts@) =~= pv.push(sp));
                    assert(spec_build_all(ev.take(i + 1)) == Ok::<Seq<SpecPost>, ParserError>(
                        pv.push(sp),
                    ));
                }
            },
            Err(e) => {
                proof {
                    assert(ev.take(i + 1).drop_last() =~= ev.take(i as int));
                    assert(ev.take(i + 1).last() == ev[i as int]);
                    assert(spec_build_all(ev.take(i + 1)) == Err::<Seq<SpecPost>, ParserError>(
                        e,
                    ));
                    lemma_build_all_err(ev, i + 1, e);
                }
                return Err(e);
            },
        }
    }
    proof {
        assert(ev.take(n as int) =~= ev);
    }
    Ok(posts)
}

} // verus!
