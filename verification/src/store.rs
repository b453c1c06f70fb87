//! The slug store: the single source of truth for persisted records. An
//! insert-only collection keyed by slug, offering a point lookup and an
//! insert-if-absent write that never overwrites an existing record.

use vstd::prelude::*;

verus! {

/// A persisted record: a slug and the URL it denotes. Once persisted the
/// pair never changes — a slug either is absent from the store or
/// permanently denotes one URL.
#[derive(Debug, Clone)]
pub struct ShortenUrl {
    pub url: String,
    pub slug: String,
}

/// The failure of the store's insert: the slug is already taken. The store
/// never overwrites an existing record.
#[derive(Debug, PartialEq, Eq)]
pub enum StoreError {
    AlreadyExists,
}

/// The store of persisted records. Its view is the map from each persisted
/// slug to the URL it denotes.
pub struct Store {
    records: Vec<ShortenUrl>,
}

/// The map that a sequence of records denotes: each record's slug maps to
/// its URL.
spec fn map_of(s: Seq<ShortenUrl>) -> Map<Seq<char>, Seq<char>>
    decreases s.len(),
{
    if s.len() == 0 {
        Map::empty()
    } else {
        map_of(s.drop_last()).insert(s.last().slug@, s.last().url@)
    }
}

/// Slugs are pairwise distinct and non-empty.
spec fn wf_records(s: Seq<ShortenUrl>) -> bool {
    &&& forall|i: int, j: int| 0 <= i < j < s.len() ==> s[i].slug@ != s[j].slug@
    &&& forall|i: int| 0 <= i < s.len() ==> s[i].slug@.len() != 0
}

impl View for Store {
    type V = Map<Seq<char>, Seq<char>>;

    closed spec fn view(&self) -> Map<Seq<char>, Seq<char>> {
        map_of(self.records@)
    }
}

/// A key is in the map exactly when some record carries it as its slug.
proof fn lemma_map_of_contains(s: Seq<ShortenUrl>, k: Seq<char>)
    ensures
        map_of(s).contains_key(k) <==> exists|i: int| 0 <= i < s.len() && s[i].slug@ == k,
    decreases s.len(),
{
    if s.len() > 0 {
        lemma_map_of_contains(s.drop_last(), k);
        if s.last().slug@ == k {
            assert(s[s.len() - 1].slug@ == k);
        } else {
            if exists|i: int| 0 <= i < s.len() && s[i].slug@ == k {
                let i = choose|i: int| 0 <= i < s.len() && s[i].slug@ == k;
                assert(s.drop_last()[i].slug@ == k);
            }
            if exists|i: int| 0 <= i < s.drop_last().len() && s.drop_last()[i].slug@ == k {
                let i = choose|i: int| 0 <= i < s.drop_last().len() && s.drop_last()[i].slug@ == k;
                assert(s[i].slug@ == k);
            }
        }
    }
}

/// A record that no later record shadows decides the map at its slug.
proof fn lemma_map_of_get(s: Seq<ShortenUrl>, i: int)
    requires
        0 <= i < s.len(),
        forall|j: int| i < j < s.len() ==> s[j].slug@ != s[i].slug@,
    ensures
        map_of(s).contains_key(s[i].slug@),
        map_of(s)[s[i].slug@] == s[i].url@,
    decreases s.len(),
{
    if i < s.len() - 1 {
        assert(s[s.len() - 1].slug@ != s[i].slug@);
        assert(s.drop_last()[i] == s[i]);
        lemma_map_of_get(s.drop_last(), i);
    }
}

impl Store {
    #[verifier::type_invariant]
    spec fn inv(self) -> bool {
        wf_records(self.records@)
    }

    /// An empty store: no slug maps to anything.
    pub fn new() -> (s: Store)
        ensures
            s@ == Map::<Seq<char>, Seq<char>>::empty(),
    {
        let s = Store { records: Vec::new() };
        proof {
            assert(s@ =~= Map::<Seq<char>, Seq<char>>::empty());
        }
        s
    }
}

/// Point lookup: the record persisted under `slug`, or `None` when the slug
/// is unassigned.
pub fn retrieve_slug_from_db(slug: String, store: &Store) -> (r: Option<ShortenUrl>)
    ensures
        r is Some <==> store@.contains_key(slug@),
        r matches Some(rec) ==> rec.slug@ == slug@ && rec.url@ == store@[slug@],
{
    proof {
        use_type_invariant(store);
        lemma_map_of_contains(store.records@, slug@);
    }
    let n = store.records.len();
    let mut i: usize = 0;
    while i < n
        invariant
            n == store.records.len(),
            wf_records(store.records@),
            store@.contains_key(slug@) <==> exists|j: int|
                0 <= j < store.records@.len() && store.records@[j].slug@ == slug@,
            forall|j: int| 0 <= j < i ==> store.records@[j].slug@ != slug@,
        decreases n - i,
    {
        let rec = &store.records[i];
        if rec.slug == slug {
            proof {
                lemma_map_of_get(store.records@, i as int);
            }
            return Some(ShortenUrl { url: rec.url.clone(), slug: rec.slug.clone() });
        }
        i = i + 1;
    }
    None
}

/// Insert-if-absent: persist the record unless its slug is already taken,
/// in which case the store is left as it was and the insert is refused.
pub fn add_to_db(shorten: ShortenUrl, store: &mut Store) -> (r: Result<(), StoreError>)
    requires
        shorten.slug@.len() != 0,
    ensures
        r is Ok <==> !old(store)@.contains_key(shorten.slug@),
        r is Ok ==> final(store)@ == old(store)@.insert(shorten.slug@, shorten.url@),
        r is Err ==> final(store)@ == old(store)@ && r == Err::<(), StoreError>(
            StoreError::AlreadyExists,
        ),
{
    let probe = retrieve_slug_from_db(shorten.slug.clone(), store);
    match probe {
        Some(_) => Err(StoreError::AlreadyExists),
        None => {
            proof {
                use_type_invariant(&*store);
                lemma_map_of_contains(store.records@, shorten.slug@);
                assert(forall|j: int|
                    0 <= j < store.records@.len() ==> store.records@[j].slug@ != shorten.slug@);
            }
            let ghost old_records = store.records@;
            let mut records: Vec<ShortenUrl> = Vec::new();
            std::mem::swap(&mut records, &mut store.records);
            records.push(shorten);
            proof {
                assert(records@.drop_last() =~= old_records);
                assert(map_of(records@) == map_of(old_records).insert(
                    records@.last().slug@,
                    records@.last().url@,
                ));
            }
            store.records = records;
            Ok(())
        }
    }
}

} // verus!
