use statuspage::api::bulk::idempotent_response;
use statuspage::idempotency::{
    header_key, make_key, next_stage, store, CachedResponse, Progress, Stage, Step,
    MAX_CACHED_BODY,
};

/// Answers by key, as the server keeps them.
struct Kept {
    inner: moka::future::Cache<String, (u16, String, Vec<u8>)>,
}

impl Kept {
    fn new() -> Kept {
        Kept { inner: moka::future::Cache::builder().max_capacity(1024).build() }
    }

    fn lookup(&self, header: Option<&str>, body: &[u8]) -> Option<(u16, String, Vec<u8>)> {
        let key = header_key(header.map(str::as_bytes), body)?;
        futures::executor::block_on(self.inner.get(&key))
    }

    fn store(&self, header: Option<&str>, body: &[u8], status: u16, reply: Vec<u8>) {
        if let Some((key, r)) = store(header.map(str::as_bytes), body, status, "application/json", reply) {
            futures::executor::block_on(
                self.inner.insert(key, (r.status, r.content_type, r.body)),
            );
        }
    }

    fn entry_count(&self) -> u64 {
        futures::executor::block_on(self.inner.run_pending_tasks());
        self.inner.entry_count()
    }
}

#[test]
fn missing_header_is_pass_through() {
    let cache = Kept::new();
    let body = b"{}";
    assert!(cache.lookup(None, body).is_none());
    cache.store(None, body, 200, b"{}".to_vec());
    assert_eq!(cache.entry_count(), 0);
}

#[test]
fn same_key_same_body_returns_cached_response() {
    let cache = Kept::new();
    let header = Some("abc-123");
    let body = br#"{"targets":[]}"#;
    assert!(cache.lookup(header, body).is_none());
    cache.store(header, body, 200, br#"{"created":[],"errors":[]}"#.to_vec());
    let cached = cache.lookup(header, body).unwrap();
    assert_eq!(cached.0, 200);
    assert_eq!(cached.1, "application/json");
    assert_eq!(&cached.2[..], &b"{\"created\":[],\"errors\":[]}"[..]);
}

#[test]
fn same_key_different_body_is_a_fresh_request() {
    let cache = Kept::new();
    let header = Some("abc-123");
    let body_a = br#"{"targets":[1]}"#;
    let body_b = br#"{"targets":[2]}"#;
    cache.store(header, body_a, 200, b"{}".to_vec());
    assert!(cache.lookup(header, body_b).is_none());
    assert!(cache.lookup(header, body_a).is_some());
}

#[test]
fn empty_header_value_is_treated_as_absent() {
    let cache = Kept::new();
    let body = b"{}";
    assert!(cache.lookup(Some(""), body).is_none());
    assert!(header_key(Some(b""), body).is_none());
    assert!(header_key(Some(b"  \t "), body).is_none());
}

#[test]
fn oversize_body_is_not_cached() {
    let cache = Kept::new();
    let header = Some("abc-123");
    let body = b"{}";
    cache.store(header, body, 200, vec![b'x'; MAX_CACHED_BODY + 1]);
    assert_eq!(cache.entry_count(), 0);
    cache.store(header, body, 200, vec![b'x'; MAX_CACHED_BODY]);
    assert_eq!(cache.entry_count(), 1);
}

#[test]
fn keys_join_the_header_and_the_digest_of_the_body() {
    assert_eq!(
        make_key("k:1", b"abc"),
        "k:1:ba7816bf8f01cfea414140de5dae2223b00361a396177a9cb410ff61f20015ad"
    );
    assert_eq!(header_key(Some(b"  k "), b"abc"), Some(make_key("k", b"abc")));
    assert_ne!(make_key("a", b"x"), make_key("a", b"y"));
    assert_ne!(make_key("a", b"x"), make_key("b", b"x"));
}

#[test]
fn a_request_is_handled_only_when_it_is_still_unanswered() {
    let (s, step) = next_stage(Stage::FirstLook, Progress::LookedUp { hit: false });
    assert_eq!((s, step), (Stage::Waiting, Step::WaitForTurn));
    let (s, step) = next_stage(s, Progress::Free);
    assert_eq!((s, step), (Stage::SecondLook, Step::LookAgain));
    assert_eq!(
        next_stage(s, Progress::LookedUp { hit: true }),
        (Stage::Done, Step::Replay)
    );
    let (s, step) = next_stage(s, Progress::LookedUp { hit: false });
    assert_eq!((s, step), (Stage::Handling, Step::Handle));
    assert_eq!(next_stage(s, Progress::Handled { ok: false }), (Stage::Done, Step::TellError));
    assert_eq!(
        next_stage(s, Progress::Handled { ok: true }),
        (Stage::Done, Step::KeepAndAnswer)
    );
    assert_eq!(next_stage(Stage::Done, Progress::Free), (Stage::Done, Step::Ignore));
    assert_eq!(
        next_stage(Stage::FirstLook, Progress::LookedUp { hit: true }),
        (Stage::Done, Step::Replay)
    );
}

#[test]
fn a_content_type_that_cannot_stand_in_a_header_becomes_json() {
    let keep = |ct: &str| {
        idempotent_response(CachedResponse {
            status: 201,
            content_type: ct.to_string(),
            body: vec![1, 2],
        })
    };
    let good = keep("text/plain; charset=utf-8");
    assert_eq!(good.content_type, "text/plain; charset=utf-8");
    assert_eq!(good.status, 201);
    assert_eq!(good.body, vec![1, 2]);
    assert_eq!(keep("a\tb").content_type, "a\tb");
    assert_eq!(keep("naïve").content_type, "naïve");
    assert_eq!(keep("a\nb").content_type, "application/json");
    assert_eq!(keep("a\u{7f}b").content_type, "application/json");
}
