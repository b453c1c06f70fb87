//! The library's laws: properties of the resolution model that hold for
//! every store and every URL, stated over the store's map view and proved
//! once and for all.

use vstd::prelude::*;

use crate::digest::digest_of;
use crate::resolver::blocked;
use crate::resolver::first_open;
use crate::resolver::lemma_first_open_from_char;
use crate::resolver::lemma_first_open_from_props;
use crate::resolver::num_windows;
use crate::resolver::resolvable;
use crate::resolver::window;

verus! {

/// Law: the fingerprint is deterministic — equal URLs always yield equal
/// digests, on every call and in every resolution.
pub proof fn lemma_digest_deterministic(u1: Seq<char>, u2: Seq<char>)
    requires
        u1 == u2,
    ensures
        digest_of(u1) == digest_of(u2),
{
}

/// Law: auto-generate resolution is idempotent. When resolving `url`
/// against store `m` succeeds with the window at offset `k` as slug, a
/// second auto-generate resolution of `url` against the store the first
/// one leaves behind walks to the same offset, finds the same slug already
/// denoting `url` — an idempotent hit — and so writes nothing.
pub proof fn lemma_auto_idempotent(m: Map<Seq<char>, Seq<char>>, url: Seq<char>)
    requires
        resolvable(m, digest_of(url), url),
    ensures
        ({
            let d = digest_of(url);
            let k = first_open(m, d, url);
            let s = window(d, k);
            let m1 = if m.contains_key(s) {
                m
            } else {
                m.insert(s, url)
            };
            &&& resolvable(m1, d, url)
            &&& first_open(m1, d, url) == k
            &&& m1.contains_key(s)
            &&& m1[s] == url
        }),
{
    let d = digest_of(url);
    let k = first_open(m, d, url);
    let s = window(d, k);
    if num_windows(d) < 0 {
        assert(!resolvable(m, d, url));
    }
    lemma_first_open_from_props(m, d, url, 0);
    if !m.contains_key(s) {
        let m1 = m.insert(s, url);
        assert forall|j: int| 0 <= j < k implies blocked(m1, d, url, j) by {
            assert(blocked(m, d, url, j));
            assert(window(d, j) != s);
        }
        assert(!blocked(m1, d, url, k));
        lemma_first_open_from_char(m1, d, url, 0, k);
    }
}

/// Law: collision disambiguation. When the first `k` candidate windows for
/// `url` are each taken by a different URL and the window at offset `k` is
/// free, auto-generation assigns exactly that window, as a fresh slug.
pub proof fn lemma_collision_disambiguation(
    m: Map<Seq<char>, Seq<char>>,
    url: Seq<char>,
    k: int,
)
    requires
        0 <= k < num_windows(digest_of(url)),
        forall|j: int| 0 <= j < k ==> blocked(m, digest_of(url), url, j),
        !m.contains_key(window(digest_of(url), k)),
    ensures
        resolvable(m, digest_of(url), url),
        first_open(m, digest_of(url), url) == k,
        !m.contains_key(window(digest_of(url), first_open(m, digest_of(url), url))),
{
    lemma_first_open_from_char(m, digest_of(url), url, 0, k);
}

/// Law: round trip. After a successful auto-generate resolution of `url`,
/// the assigned slug denotes `url` in the store the resolution leaves
/// behind, so looking it up yields `url` back.
pub proof fn lemma_round_trip(m: Map<Seq<char>, Seq<char>>, url: Seq<char>)
    requires
        resolvable(m, digest_of(url), url),
    ensures
        ({
            let d = digest_of(url);
            let s = window(d, first_open(m, d, url));
            let m1 = if m.contains_key(s) {
                m
            } else {
                m.insert(s, url)
            };
            &&& m1.contains_key(s)
            &&& m1[s] == url
        }),
{
    lemma_auto_idempotent(m, url);
}

/// Law: exhaustion. When every candidate window for `url` is taken by a
/// different URL, auto-generation cannot resolve — it reports the digest as
/// exhausted instead of assigning or overwriting anything.
pub proof fn lemma_exhaustion(m: Map<Seq<char>, Seq<char>>, url: Seq<char>)
    requires
        forall|j: int| 0 <= j < num_windows(digest_of(url)) ==> blocked(m, digest_of(url), url, j),
    ensures
        !resolvable(m, digest_of(url), url),
{
    let d = digest_of(url);
    if num_windows(d) > 0 {
        lemma_first_open_from_props(m, d, url, 0);
    }
}

} // verus!
