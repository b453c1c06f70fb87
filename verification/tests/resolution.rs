use shortlink::digest::shorten;
use shortlink::resolver::generate_slug;
use shortlink::resolver::handle_post_url;
use shortlink::resolver::lookup;
use shortlink::resolver::resolve;
use shortlink::resolver::ResolveError;
use shortlink::resolver::ShortenUrlPostRequest;
use shortlink::store::add_to_db;
use shortlink::store::ShortenUrl;
use shortlink::store::Store;

/// Occupy the first `k` candidate windows of `digest` with URLs that all
/// differ from anything a test resolves. Windows that repeat earlier ones
/// are already occupied and are left as they are.
fn occupy_windows(store: &mut Store, digest: &str, k: usize) {
    for i in 0..k {
        let slug = digest[i..i + 8].to_string();
        let url = format!("https://occupied.example/{}", i);
        let _ = add_to_db(ShortenUrl { url, slug }, store);
    }
}

#[test]
fn digest_is_deterministic() {
    let u = "https://example.com/a".to_string();
    assert_eq!(shorten(u.clone()), shorten(u.clone()));
    assert_eq!(shorten(u).len(), 32);
}

#[test]
fn digest_matches_known_values() {
    // the well-known digests of the empty string and of "abc"
    assert_eq!(shorten(String::new()), "d41d8cd98f00b204e9800998ecf8427e");
    assert_eq!(shorten("abc".to_string()), "900150983cd24fb0d6963f7d28e17f72");
}

#[test]
fn concrete_scenario() {
    let mut store = Store::new();
    let url = "https://example.com/a".to_string();
    let digest = shorten(url.clone());

    let (slug, existed) = resolve(url.clone(), None, &mut store).unwrap();
    assert_eq!(slug, digest[0..8].to_string());
    assert!(!existed);

    let (slug2, existed2) = resolve(url.clone(), None, &mut store).unwrap();
    assert_eq!(slug2, slug);
    assert!(existed2);

    assert_eq!(lookup(slug, &store), Some(url));
}

#[test]
fn auto_generation_is_idempotent_on_a_busy_store() {
    let mut store = Store::new();
    let _ = resolve("https://example.com/x".to_string(), None, &mut store).unwrap();
    let _ = resolve("https://example.com/y".to_string(), Some("named".to_string()), &mut store)
        .unwrap();

    let url = "https://example.com/z".to_string();
    let (slug, existed) = resolve(url.clone(), None, &mut store).unwrap();
    assert!(!existed);
    let (slug2, existed2) = resolve(url.clone(), None, &mut store).unwrap();
    assert_eq!(slug2, slug);
    assert!(existed2);
    assert_eq!(lookup(slug, &store), Some(url));
}

#[test]
fn explicit_slug_registers_and_round_trips() {
    let mut store = Store::new();
    let url = "https://example.com/docs".to_string();
    let (slug, existed) = resolve(url.clone(), Some("docs".to_string()), &mut store).unwrap();
    assert_eq!(slug, "docs");
    assert!(!existed);
    assert_eq!(lookup("docs".to_string(), &store), Some(url.clone()));

    // registering the same pair again is an idempotent hit
    let (slug2, existed2) = resolve(url, Some("docs".to_string()), &mut store).unwrap();
    assert_eq!(slug2, "docs");
    assert!(existed2);
}

#[test]
fn no_silent_overwrite() {
    let mut store = Store::new();
    let a = "https://example.com/a".to_string();
    let b = "https://example.com/b".to_string();
    resolve(a.clone(), Some("taken".to_string()), &mut store).unwrap();

    let r = resolve(b, Some("taken".to_string()), &mut store);
    assert_eq!(r, Err(ResolveError::SlugConflict));
    // the stored mapping is untouched
    assert_eq!(lookup("taken".to_string(), &store), Some(a));
}

#[test]
fn empty_requested_slug_means_auto_generation() {
    let mut store = Store::new();
    let url = "https://example.com/a".to_string();
    let digest = shorten(url.clone());
    let (slug, existed) = resolve(url, Some(String::new()), &mut store).unwrap();
    assert_eq!(slug, digest[0..8].to_string());
    assert!(!existed);
}

#[test]
fn collision_disambiguation() {
    let mut store = Store::new();
    let url = "https://example.com/contended".to_string();
    let digest = shorten(url.clone());
    occupy_windows(&mut store, &digest, 3);

    let (slug, existed) = resolve(url, None, &mut store).unwrap();
    assert_eq!(slug, digest[3..11].to_string());
    assert!(!existed);
}

#[test]
fn exhaustion_is_an_error_not_a_crash() {
    let mut store = Store::new();
    let url = "https://example.com/unlucky".to_string();
    let digest = shorten(url.clone());
    occupy_windows(&mut store, &digest, 25);

    let r = resolve(url, None, &mut store);
    assert_eq!(r, Err(ResolveError::SlugSpaceExhausted));
    // the first window still denotes its own URL
    assert_eq!(
        lookup(digest[0..8].to_string(), &store),
        Some("https://occupied.example/0".to_string())
    );
}

#[test]
fn generate_slug_only_reads_the_store() {
    let store = Store::new();
    let url = "https://example.com/g".to_string();
    let digest = shorten(url.clone());

    let (slug, existed) = generate_slug(url, &store).unwrap();
    assert_eq!(slug, digest[0..8].to_string());
    assert!(!existed);
    // the candidate was not persisted
    assert_eq!(lookup(slug, &store), None);
}

#[test]
fn lookup_of_unassigned_slug_is_none() {
    let store = Store::new();
    assert_eq!(lookup("nothing".to_string(), &store), None);
}

#[test]
fn post_handler_builds_the_record() {
    let mut store = Store::new();
    let url = "https://example.com/a".to_string();
    let digest = shorten(url.clone());

    let req = ShortenUrlPostRequest { url: url.clone(), slug: None };
    let (record, existed) = handle_post_url(req, &mut store).unwrap();
    assert_eq!(record.url, url);
    assert_eq!(record.slug, digest[0..8].to_string());
    assert!(!existed);

    let req2 = ShortenUrlPostRequest { url: "https://example.com/b".to_string(), slug: Some(record.slug.clone()) };
    let r2 = handle_post_url(req2, &mut store);
    assert!(matches!(r2, Err(ResolveError::SlugConflict)));
}
