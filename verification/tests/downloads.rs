use pit::download::{Cache, DownloadError};

// SHA-1 of the three bytes `abc`.
const ABC_DIGEST: &str = "a9993e364706816aba3e25717850c26c9cd0d89d";

/// A transport stand-in that counts how often it is asked for bytes.
struct CountingTransport {
    calls: usize,
    chunks: Vec<Vec<u8>>,
}

impl CountingTransport {
    fn download(&mut self) -> Vec<Vec<u8>> {
        self.calls += 1;
        self.chunks.clone()
    }
}

/// The fetch flow around the cache: serve a hit as it stands, otherwise
/// download, verify and record.
fn fetch(
    cache: &mut Cache,
    transport: &mut CountingTransport,
    url: &String,
    path: &str,
    expected: Option<&String>,
) -> Result<Vec<u8>, DownloadError> {
    if let Some(data) = cache.lookup(&path.to_string()) {
        return Ok(data.clone());
    }
    let chunks = transport.download();
    cache.commit(url, path.to_string(), &chunks, expected)
}

#[test]
fn repeated_fetch_hits_the_cache() {
    let mut cache = Cache::new();
    let mut transport = CountingTransport {
        calls: 0,
        chunks: vec![b"ab".to_vec(), b"c".to_vec()],
    };
    let url = "https://example.invalid/client.jar".to_string();
    let expected = ABC_DIGEST.to_string();

    let first = fetch(&mut cache, &mut transport, &url, "client.jar", Some(&expected))
        .expect("first fetch must verify and succeed");
    let second = fetch(&mut cache, &mut transport, &url, "client.jar", Some(&expected))
        .expect("second fetch must be served from the cache");

    assert_eq!(first, b"abc".to_vec());
    assert_eq!(first, second, "both fetches must yield the same payload");
    assert_eq!(transport.calls, 1, "only the first fetch may touch the transport");
}

#[test]
fn integrity_mismatch_writes_nothing() {
    let mut cache = Cache::new();
    let url = "https://example.invalid/bad.bin".to_string();
    let expected = "0000000000000000000000000000000000000000".to_string();
    let chunks = vec![b"hello".to_vec()];

    let result = cache.commit(&url, "bad.bin".to_string(), &chunks, Some(&expected));
    match result {
        Err(DownloadError::UnexpectedHash { url: u, expected: e }) => {
            assert_eq!(u, url);
            assert_eq!(e, expected);
        }
        other => panic!("expected an integrity mismatch, got {:?}", other),
    }
    assert!(
        cache.lookup(&"bad.bin".to_string()).is_none(),
        "a mismatching payload must not be written"
    );
}

#[test]
fn matching_digest_is_accepted() {
    let mut cache = Cache::new();
    let url = "https://example.invalid/abc".to_string();
    let expected = ABC_DIGEST.to_string();
    let data = cache
        .commit(&url, "abc.bin".to_string(), &vec![b"abc".to_vec()], Some(&expected))
        .expect("a matching digest must be accepted");
    assert_eq!(data, b"abc".to_vec());
    assert_eq!(cache.lookup(&"abc.bin".to_string()), Some(&b"abc".to_vec()));
}

#[test]
fn digest_ignores_chunk_boundaries() {
    let mut cache = Cache::new();
    let url = "https://example.invalid/abc".to_string();
    let expected = ABC_DIGEST.to_string();
    let chunked = vec![b"a".to_vec(), b"".to_vec(), b"bc".to_vec()];
    let data = cache
        .commit(&url, "abc.bin".to_string(), &chunked, Some(&expected))
        .expect("the digest must depend on the stream, not the chunking");
    assert_eq!(data, b"abc".to_vec());
}

#[test]
fn unchecked_commit_stores_the_payload() {
    let mut cache = Cache::new();
    let url = "https://example.invalid/catalog.json".to_string();
    let data = cache
        .commit(&url, "catalog.json".to_string(), &vec![b"{}".to_vec()], None)
        .expect("a commit without an expected digest must succeed");
    assert_eq!(data, b"{}".to_vec());
    assert_eq!(
        cache.lookup(&"catalog.json".to_string()),
        Some(&b"{}".to_vec())
    );
}

#[test]
fn lookup_misses_on_an_empty_cache() {
    let cache = Cache::new();
    assert!(cache.lookup(&"anything".to_string()).is_none());
}

#[test]
fn most_recent_write_wins() {
    let mut cache = Cache::new();
    let url = "https://example.invalid/f".to_string();
    cache
        .commit(&url, "f".to_string(), &vec![b"old".to_vec()], None)
        .expect("first write");
    cache
        .commit(&url, "f".to_string(), &vec![b"new".to_vec()], None)
        .expect("second write");
    assert_eq!(cache.lookup(&"f".to_string()), Some(&b"new".to_vec()));
}
