use vstd::prelude::*;

use crate::errors::ParserError;

verus! {

/// True when the three characters of a scheme separator, `://`, stand at
/// index `i` of `s`.
pub open spec fn sep_at(s: Seq<char>, i: int) -> bool {
    &&& 0 <= i
    &&& i + 3 <= s.len()
    &&& s[i] == ':'
    &&& s[i + 1] == '/'
    &&& s[i + 2] == '/'
}

/// True when `s` contains a scheme separator anywhere.
pub open spec fn has_sep(s: Seq<char>) -> bool {
    exists|i: int| sep_at(s, i)
}

/// What remains of `s` after its first scheme separator; `s` itself when none
/// occurs.
pub open spec fn strip_scheme(s: Seq<char>) -> Seq<char>
    decreases s.len(),
{
    if sep_at(s, 0) {
        s.skip(3)
    } else if s.len() == 0 {
        s
    } else if has_sep(s) {
        strip_scheme(s.skip(1))
    } else {
        s
    }
}

/// The canonical feed endpoint for a source identifier: scheme stripped,
/// `https://` prefixed and the fixed feed suffix appended.
pub open spec fn spec_resolve(d: Seq<char>) -> Seq<char> {
    "https://"@ + strip_scheme(d) + "/feed"@
}

/// When a separator stands at `i` and none stands earlier, stripping the
/// scheme keeps exactly what follows that separator.
proof fn lemma_strip_at(s: Seq<char>, i: int)
    requires
        sep_at(s, i),
        forall|j: int| 0 <= j < i ==> !sep_at(s, j),
    ensures
        strip_scheme(s) == s.skip(i + 3),
    decreases i,
{
    if i == 0 {
        assert(strip_scheme(s) == s.skip(3));
    } else {
        assert(!sep_at(s, 0));
        assert(has_sep(s));
        let t = s.skip(1);
        assert(sep_at(t, i - 1)) by {
            assert(t[i - 1] == s[i]);
            assert(t[i] == s[i + 1]);
            assert(t[i + 1] == s[i + 2]);
        }
        assert forall|j: int| 0 <= j < i - 1 implies !sep_at(t, j) by {
            assert(!sep_at(s, j + 1));
            if sep_at(t, j) {
                assert(s[j + 1] == t[j]);
                assert(s[j + 2] == t[j + 1]);
                assert(s[j + 3] == t[j + 2]);
                assert(sep_at(s, j + 1));
            }
        }
        lemma_strip_at(t, i - 1);
        assert(t.skip(i - 1 + 3) =~= s.skip(i + 3));
    }
}

/// When no separator occurs anywhere in `s`, stripping the scheme keeps `s`.
proof fn lemma_strip_none(s: Seq<char>)
    requires
        forall|j: int| !sep_at(s, j),
    ensures
        strip_scheme(s) == s,
{
    assert(!sep_at(s, 0));
    assert(!has_sep(s));
}

/// Normalizes a user-supplied domain or URL into the canonical feed URL.
/// Fails only on an empty input.
pub fn get_substack_url(domain: String) -> (r: Result<String, ParserError>)
    ensures
        domain@.len() == 0 ==> (r matches Err(e) && e == ParserError::InvalidInput),
        domain@.len() > 0 ==> (r matches Ok(u) && u@ == spec_resolve(domain@)),
{
    let d = domain.as_str();
    let n = d.unicode_len();
    if n == 0 {
        return Err(ParserError::InvalidInput);
    }
    let mut i: usize = 0;
    let mut sep: Option<usize> = None;
    while i < n && n - i >= 3 && sep.is_none()
        invariant
            n == d@.len(),
            i <= n,
            sep matches Some(k) ==> k + 3 <= n && sep_at(d@, k as int) && (forall|j: int|
                0 <= j < k ==> !sep_at(d@, j)),
            sep is None ==> forall|j: int| 0 <= j < i ==> !sep_at(d@, j),
        decreases n - i, (if sep is None { 1int } else { 0int }),
    {
        if d.get_char(i) == ':' && d.get_char(i + 1) == '/' && d.get_char(i + 2) == '/' {
            sep = Some(i);
        } else {
            i = i + 1;
        }
    }
    let rest: &str = match sep {
        Some(k) => {
            proof {
                lemma_strip_at(d@, k as int);
            }
            d.substring_char(k + 3, n)
        },
        None => {
            proof {
                assert forall|j: int| !sep_at(d@, j) by {
                    if 0 <= j && j + 3 <= n {
                        assert(j < i);
                    }
                }
                lemma_strip_none(d@);
                assert(d@.subrange(0, n as int) =~= d@);
            }
            d.substring_char(0, n)
        },
    };
    let mut out = String::new();
    out.append("https://");
    out.append(rest);
    out.append("/feed");
    proof {
        assert(out@ =~= spec_resolve(domain@));
    }
    Ok(out)
}

/// Law: for every non-empty source identifier whose remainder (with the feed
/// suffix appended) holds no scheme separator of its own, the resolved URL
/// ends in the fixed feed suffix and contains exactly one scheme separator,
/// the one of `https://`.
pub proof fn lemma_resolve_well_formed(d: Seq<char>)
    requires
        d.len() > 0,
        forall|i: int| !sep_at(strip_scheme(d) + "/feed"@, i),
    ensures
        spec_resolve(d).len() >= 13,
        spec_resolve(d).skip(spec_resolve(d).len() - 5) == "/feed"@,
        sep_at(spec_resolve(d), 5),
        forall|i: int| sep_at(spec_resolve(d), i) ==> i == 5,
{
    reveal_strlit("https://");
    reveal_strlit("/feed");
    let h = "https://"@;
    let t = strip_scheme(d) + "/feed"@;
    let r = spec_resolve(d);
    assert(h.len() == 8);
    assert("/feed"@.len() == 5);
    assert(r =~= h + t);
    assert(r.len() == 8 + t.len());
    assert(t.len() >= 5);
    assert(r.skip(r.len() - 5) =~= "/feed"@);
    assert(h[0] == 'h' && h[1] == 't' && h[2] == 't' && h[3] == 'p' && h[4] == 's' && h[5]
        == ':' && h[6] == '/' && h[7] == '/');
    assert(sep_at(r, 5)) by {
        assert(r[5] == ':' && r[6] == '/' && r[7] == '/');
    }
    assert forall|i: int| sep_at(r, i) implies i == 5 by {
        if i < 8 {
            assert(r[i] == h[i]);
            if i != 5 {
                assert(h[i] != ':');
            }
        } else {
            assert(r[i] == t[i - 8]);
            assert(r[i + 1] == t[i - 7]);
            assert(r[i + 2] == t[i - 6]);
            assert(sep_at(t, i - 8));
        }
    }
}

} // verus!
