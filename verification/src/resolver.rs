//! The slug resolver: finds or assigns a slug for a URL against the store,
//! disambiguating collisions by walking successive windows of the URL's
//! digest, and registering caller-chosen slugs without ever overwriting a
//! different URL's mapping.

use vstd::prelude::*;
use vstd::string::StrSliceExecFns;
use vstd::string::StringExecFns;

use crate::digest::digest_of;
use crate::digest::shorten;
use crate::store::Store;
use crate::store::ShortenUrl;
use crate::store::add_to_db;
use crate::store::retrieve_slug_from_db;

verus! {

/// Why a resolution failed.
#[derive(Debug, PartialEq, Eq)]
pub enum ResolveError {
    /// The caller-supplied slug already denotes a different URL.
    SlugConflict,
    /// Every candidate window of the digest already denotes a different URL.
    SlugSpaceExhausted,
}

/// The candidate slug cut from digest `d` at offset `off`: the 8-character
/// window starting there.
pub open spec fn window(d: Seq<char>, off: int) -> Seq<char> {
    d.subrange(off, off + 8)
}

/// How many candidate windows digest `d` offers: one per offset in
/// `0 ..= d.len() - 8`.
pub open spec fn num_windows(d: Seq<char>) -> int {
    d.len() - 7
}

/// Offset `off` is blocked for `url`: its window is taken by a different URL.
pub open spec fn blocked(
    m: Map<Seq<char>, Seq<char>>,
    d: Seq<char>,
    url: Seq<char>,
    off: int,
) -> bool {
    m.contains_key(window(d, off)) && m[window(d, off)] != url
}

/// The first offset at or after `off` that is not blocked, or
/// `num_windows(d)` when every remaining offset is.
pub open spec fn first_open_from(
    m: Map<Seq<char>, Seq<char>>,
    d: Seq<char>,
    url: Seq<char>,
    off: int,
) -> int
    decreases num_windows(d) - off,
{
    if off < 0 || off >= num_windows(d) {
        num_windows(d)
    } else if !blocked(m, d, url, off) {
        off
    } else {
        first_open_from(m, d, url, off + 1)
    }
}

/// The offset whose window auto-generation assigns: the first one not
/// blocked, or `num_windows(d)` when the digest is exhausted.
pub open spec fn first_open(m: Map<Seq<char>, Seq<char>>, d: Seq<char>, url: Seq<char>) -> int {
    first_open_from(m, d, url, 0)
}

/// Auto-generation succeeds: some window is free or already denotes `url`.
pub open spec fn resolvable(m: Map<Seq<char>, Seq<char>>, d: Seq<char>, url: Seq<char>) -> bool {
    first_open(m, d, url) < num_windows(d)
}

/// A request resolves in auto-generate mode when the caller supplied no
/// slug, or supplied an empty one.
pub open spec fn wants_auto(requested: Option<String>) -> bool {
    match requested {
        Option::None => true,
        Option::Some(s) => s@.len() == 0,
    }
}

/// What a successful resolution means: `slug` is the identifier assigned
/// for `url` under request `requested` against initial store `m0`,
/// `existed` tells whether it was already persisted, and `m1` is the store
/// the resolution leaves behind — unchanged on an idempotent hit, extended
/// by exactly the new pair otherwise.
pub open spec fn resolution_ok(
    m0: Map<Seq<char>, Seq<char>>,
    url: Seq<char>,
    requested: Option<String>,
    slug: Seq<char>,
    existed: bool,
    m1: Map<Seq<char>, Seq<char>>,
) -> bool {
    &&& existed == m0.contains_key(slug)
    &&& (existed ==> m0[slug] == url)
    &&& m1 == (if existed {
        m0
    } else {
        m0.insert(slug, url)
    })
    &&& (if wants_auto(requested) {
        slug == window(digest_of(url), first_open(m0, digest_of(url), url)) && resolvable(
            m0,
            digest_of(url),
            url,
        )
    } else {
        slug == (requested->0)@
    })
}

/// When and why a resolution fails: auto-generation only by exhausting
/// every window, a caller-chosen slug only because it already denotes a
/// different URL.
pub open spec fn resolution_err(
    m0: Map<Seq<char>, Seq<char>>,
    url: Seq<char>,
    requested: Option<String>,
    e: ResolveError,
) -> bool {
    if wants_auto(requested) {
        e == ResolveError::SlugSpaceExhausted && !resolvable(m0, digest_of(url), url)
    } else {
        e == ResolveError::SlugConflict && m0.contains_key((requested->0)@) && m0[(requested->0)@]
            != url
    }
}

/// Every offset below `first_open_from(m, d, url, off)` is blocked, and the
/// offset itself, when in range, is not.
pub proof fn lemma_first_open_from_props(
    m: Map<Seq<char>, Seq<char>>,
    d: Seq<char>,
    url: Seq<char>,
    off: int,
)
    requires
        0 <= off <= num_windows(d),
    ensures
        off <= first_open_from(m, d, url, off) <= num_windows(d),
        forall|j: int| off <= j < first_open_from(m, d, url, off) ==> blocked(m, d, url, j),
        first_open_from(m, d, url, off) < num_windows(d) ==> !blocked(
            m,
            d,
            url,
            first_open_from(m, d, url, off),
        ),
    decreases num_windows(d) - off,
{
    if off < num_windows(d) && blocked(m, d, url, off) {
        lemma_first_open_from_props(m, d, url, off + 1);
    }
}

/// An offset whose predecessors are all blocked and which is itself not
/// blocked is exactly the one `first_open_from` picks.
pub proof fn lemma_first_open_from_char(
    m: Map<Seq<char>, Seq<char>>,
    d: Seq<char>,
    url: Seq<char>,
    off: int,
    k: int,
)
    requires
        0 <= off <= k < num_windows(d),
        !blocked(m, d, url, k),
        forall|j: int| off <= j < k ==> blocked(m, d, url, j),
    ensures
        first_open_from(m, d, url, off) == k,
    decreases k - off,
{
    if off < k {
        assert(blocked(m, d, url, off));
        lemma_first_open_from_char(m, d, url, off + 1, k);
    }
}

/// Auto-generate mode: walk the digest's windows in offset order and return
/// the first that is free (`existed == false`) or already denotes this URL
/// (`existed == true`); fail only when every window denotes a different URL.
/// The store is only read.
pub fn generate_slug(url: String, store: &Store) -> (r: Result<(String, bool), ResolveError>)
    ensures
        ({
            let d = digest_of(url@);
            let k = first_open(store@, d, url@);
            &&& (r is Ok <==> resolvable(store@, d, url@))
            &&& (r matches Ok(p) ==> {
                &&& p.0@ == window(d, k)
                &&& p.0@.len() == 8
                &&& p.1 == store@.contains_key(p.0@)
                &&& (p.1 ==> store@[p.0@] == url@)
            })
            &&& (r matches Err(e) ==> e == ResolveError::SlugSpaceExhausted)
        }),
        digest_of(url@).len() == 32,
{
    let digest = shorten(url.clone());
    let dstr = digest.as_str();
    let len = dstr.unicode_len();
    let ghost d = digest_of(url@);
    let ghost m = store@;
    let mut off: usize = 0;
    while off + 8 <= len
        invariant
            m == store@,
            d == digest_of(url@),
            dstr@ == d,
            len == d.len(),
            len == 32,
            off <= num_windows(d),
            forall|j: int| 0 <= j < off ==> blocked(m, d, url@, j),
        decreases len - off,
    {
        let cand = dstr.substring_char(off, off + 8);
        match retrieve_slug_from_db(String::from_str(cand), store) {
            Some(rec) => {
                if rec.url == url {
                    proof {
                        lemma_first_open_from_char(m, d, url@, 0, off as int);
                    }
                    return Ok((String::from_str(cand), true));
                }
                proof {
                    assert(blocked(m, d, url@, off as int));
                }
                off = off + 1;
            }
            None => {
                proof {
                    lemma_first_open_from_char(m, d, url@, 0, off as int);
                }
                return Ok((String::from_str(cand), false));
            }
        }
    }
    proof {
        lemma_first_open_from_props(m, d, url@, 0);
    }
    Err(ResolveError::SlugSpaceExhausted)
}

/// Resolve a URL to its slug. With no requested slug (or an empty one),
/// auto-generation walks the digest's windows; a non-empty requested slug is
/// taken as is when free or already denoting this URL, and refused when it
/// denotes a different one. A new `(slug, url)` pair is persisted exactly
/// when `existed == false`; nothing else is ever written.
pub fn resolve(url: String, requested_slug: Option<String>, store: &mut Store) -> (r: Result<
    (String, bool),
    ResolveError,
>)
    ensures
        r matches Ok(p) ==> resolution_ok(
            old(store)@,
            url@,
            requested_slug,
            p.0@,
            p.1,
            final(store)@,
        ) && p.0@.len() != 0,
        r matches Err(e) ==> resolution_err(old(store)@, url@, requested_slug, e)
            && final(store)@ == old(store)@,
        r matches Ok(p) ==> final(store)@.contains_key(p.0@) && final(store)@[p.0@] == url@,
        wants_auto(requested_slug) ==> digest_of(url@).len() == 32,
{
    match requested_slug {
        Some(s) => {
            if s.as_str().is_empty() {
                resolve_auto(url, store)
            } else {
                match retrieve_slug_from_db(s.clone(), store) {
                    Some(rec) => {
                        if rec.url == url {
                            Ok((s, true))
                        } else {
                            Err(ResolveError::SlugConflict)
                        }
                    }
                    None => {
                        let record = ShortenUrl { url, slug: s.clone() };
                        match add_to_db(record, store) {
                            Ok(()) => Ok((s, false)),
                            Err(_) => unreached(),
                        }
                    }
                }
            }
        }
        None => resolve_auto(url, store),
    }
}

/// The auto-generate path shared by both ways of asking for it: find the
/// window and persist the pair when it was not already there.
fn resolve_auto(url: String, store: &mut Store) -> (r: Result<(String, bool), ResolveError>)
    ensures
        ({
            let m0 = old(store)@;
            let d = digest_of(url@);
            let k = first_open(m0, d, url@);
            let w = window(d, k);
            &&& (r is Ok <==> resolvable(m0, d, url@))
            &&& (r matches Ok(p) ==> {
                &&& p.0@ == w
                &&& p.0@.len() == 8
                &&& p.1 == m0.contains_key(w)
                &&& (p.1 ==> m0[w] == url@)
                &&& final(store)@ == (if p.1 { m0 } else { m0.insert(w, url@) })
            })
            &&& (r matches Err(e) ==> e == ResolveError::SlugSpaceExhausted)
            &&& (r is Err ==> final(store)@ == m0)
        }),
        digest_of(url@).len() == 32,
{
    match generate_slug(url.clone(), store) {
        Ok((slug, existed)) => {
            if existed {
                Ok((slug, true))
            } else {
                let record = ShortenUrl { url, slug: slug.clone() };
                match add_to_db(record, store) {
                    Ok(()) => Ok((slug, false)),
                    Err(_) => unreached(),
                }
            }
        }
        Err(e) => Err(e),
    }
}

/// A shorten request as the transport hands it over: the URL to register
/// and, optionally, a caller-chosen slug.
#[derive(Debug, Clone)]
pub struct ShortenUrlPostRequest {
    pub url: String,
    pub slug: Option<String>,
}

/// The computing core of the POST handler: resolve the request against the
/// store and build the record to answer with. `existed` lets the transport
/// tell a fresh registration from an idempotent hit.
pub fn handle_post_url(req: ShortenUrlPostRequest, store: &mut Store) -> (r: Result<
    (ShortenUrl, bool),
    ResolveError,
>)
    ensures
        r matches Ok(p) ==> resolution_ok(
            old(store)@,
            req.url@,
            req.slug,
            p.0.slug@,
            p.1,
            final(store)@,
        ) && p.0.url@ == req.url@ && p.0.slug@.len() != 0,
        r matches Err(e) ==> resolution_err(old(store)@, req.url@, req.slug, e)
            && final(store)@ == old(store)@,
        wants_auto(req.slug) ==> digest_of(req.url@).len() == 32,
{
    let ShortenUrlPostRequest { url, slug } = req;
    match resolve(url.clone(), slug, store) {
        Ok((assigned, existed)) => Ok((ShortenUrl { url, slug: assigned }, existed)),
        Err(e) => Err(e),
    }
}

/// The redirect path's point lookup: the URL that `slug` denotes, or `None`
/// when the slug is unassigned.
pub fn lookup(slug: String, store: &Store) -> (r: Option<String>)
    ensures
        r is Some <==> store@.contains_key(slug@),
        r matches Some(u) ==> u@ == store@[slug@],
{
    match retrieve_slug_from_db(slug, store) {
        Some(rec) => Some(rec.url),
        None => None,
    }
}

} // verus!
