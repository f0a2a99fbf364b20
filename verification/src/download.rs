//! The verified download cache.
//!
//! The transport hands the library the byte chunks it received for a URL;
//! the library concatenates them exactly as received, checks the payload
//! against an expected content digest when one was supplied, and only on
//! success records the bytes under their destination path.  A path already
//! recorded is served again without any transfer and without
//! re-verification.

use vstd::prelude::*;

verus! {

/// Why a fetch failed.  Transport and decoding failures are reported by the
/// caller that performed them; an integrity mismatch is detected here.
#[derive(Debug)]
pub enum DownloadError {
    /// The payload could not be decoded as the expected document.
    Json(String),
    /// The transport reported a non-success status or an I/O failure.
    Http(String),
    /// The computed digest of the payload differs from the expected one.
    UnexpectedHash { url: String, expected: String },
}

/// The lower-case hex text of the SHA-1 digest of a byte sequence.  The
/// digest is a function of the bytes alone; nothing further is assumed of
/// its value.
pub uninterp spec fn sha1_hex_of(data: Seq<u8>) -> Seq<char>;

/// Relies on `sha1_smol::Sha1::from`, `Sha1::digest` and the `Display` of
/// `sha1_smol::Digest`: one digest over exactly the given bytes, rendered
/// as lower-case hex text.
#[verifier::external_body]
fn sha1_hexdigest(data: &Vec<u8>) -> (r: String)
    ensures
        r@ == sha1_hex_of(data@),
{
    sha1_smol::Sha1::from(data.as_slice()).digest().to_string()
}

/// The byte stream a chunk sequence carries: the chunks joined in order.
pub open spec fn spec_concat(chunks: Seq<Seq<u8>>) -> Seq<u8>
    decreases chunks.len(),
{
    if chunks.len() == 0 {
        Seq::empty()
    } else {
        spec_concat(chunks.drop_last()) + chunks.last()
    }
}

/// The stream carried by an executable chunk vector.
pub open spec fn spec_chunk_stream(chunks: Seq<Vec<u8>>) -> Seq<u8> {
    spec_concat(chunks.map_values(|c: Vec<u8>| c@))
}

/// Join the received chunks in order into one payload.
pub fn concat_chunks(chunks: &Vec<Vec<u8>>) -> (r: Vec<u8>)
    ensures
        r@ == spec_chunk_stream(chunks@),
{
    let ghost stream = chunks@.map_values(|c: Vec<u8>| c@);
    let mut out: Vec<u8> = Vec::new();
    let mut i: usize = 0;
    while i < chunks.len()
        invariant
            i <= chunks@.len(),
            stream == chunks@.map_values(|c: Vec<u8>| c@),
            out@ == spec_concat(stream.take(i as int)),
        decreases chunks@.len() - i,
    {
        let chunk = &chunks[i];
        let mut j: usize = 0;
        while j < chunk.len()
            invariant
                j <= chunk@.len(),
                chunk@ == chunks@[i as int]@,
                i < chunks@.len(),
                stream == chunks@.map_values(|c: Vec<u8>| c@),
                out@ == spec_concat(stream.take(i as int)) + chunk@.take(j as int),
            decreases chunk@.len() - j,
        {
            out.push(chunk[j]);
            j = j + 1;
        }
        proof {
            assert(stream.take(i + 1).drop_last() =~= stream.take(i as int));
            assert(stream.take(i + 1).last() == chunk@);
            assert(out@ =~= spec_concat(stream.take(i + 1)));
        }
        i = i + 1;
    }
    proof {
        assert(stream.take(chunks@.len() as int) =~= stream);
    }
    out
}

/// The materialized files, as the cache sees them: destination path to byte
/// content, most recent write last.
pub struct Cache {
    entries: Vec<(String, Vec<u8>)>,
}

impl View for Cache {
    type V = Seq<(Seq<char>, Seq<u8>)>;

    closed spec fn view(&self) -> Seq<(Seq<char>, Seq<u8>)> {
        self.entries@.map_values(|e: (String, Vec<u8>)| (e.0@, e.1@))
    }
}

/// The content recorded under a path, the most recent write winning.
pub open spec fn spec_store_lookup(store: Seq<(Seq<char>, Seq<u8>)>, path: Seq<char>) -> Option<
    Seq<u8>,
>
    decreases store.len(),
{
    if store.len() == 0 {
        None
    } else if store.last().0 == path {
        Some(store.last().1)
    } else {
        spec_store_lookup(store.drop_last(), path)
    }
}

impl Cache {
    /// A cache with nothing materialized yet.
    pub fn new() -> (r: Cache)
        ensures
            r@ == Seq::<(Seq<char>, Seq<u8>)>::empty(),
    {
        let c = Cache { entries: Vec::new() };
        proof {
            assert(c@ =~= Seq::<(Seq<char>, Seq<u8>)>::empty());
        }
        c
    }

    /// The cache-hit short circuit: content already at `path` is served
    /// as it stands, with no transfer and no digest re-verification.
    pub fn lookup(&self, path: &String) -> (r: Option<&Vec<u8>>)
        ensures
            match r {
                Some(data) => spec_store_lookup(self@, path@) == Some(data@),
                None => spec_store_lookup(self@, path@) is None,
            },
    {
        let mut i: usize = self.entries.len();
        proof {
            assert(self@.take(self@.len() as int) =~= self@);
        }
        while i > 0
            invariant
                i <= self.entries@.len(),
                self@.len() == self.entries@.len(),
                spec_store_lookup(self@, path@) == spec_store_lookup(
                    self@.take(i as int),
                    path@,
                ),
            decreases i,
        {
            proof {
                assert(self@.take(i as int).drop_last() =~= self@.take(i - 1));
                assert(self@.take(i as int).last() == self@[i - 1]);
            }
            i = i - 1;
            if self.entries[i].0 == *path {
                return Some(&self.entries[i].1);
            }
        }
        None
    }

    /// Accept a payload downloaded for `url`: join the chunks exactly as
    /// the transport delivered them, check the stream against the expected
    /// digest when one was supplied, and only then record the bytes under
    /// `path`.  On a mismatch the error names the URL and the expected
    /// digest, and nothing is written.
    pub fn commit(
        &mut self,
        url: &String,
        path: String,
        chunks: &Vec<Vec<u8>>,
        expected: Option<&String>,
    ) -> (r: Result<Vec<u8>, DownloadError>)
        ensures
            ({
                let data = spec_chunk_stream(chunks@);
                match expected {
                    Some(e) => if sha1_hex_of(data) == e@ {
                        &&& r matches Ok(d) && d@ == data
                        &&& final(self)@ == old(self)@.push((path@, data))
                    } else {
                        &&& r matches Err(DownloadError::UnexpectedHash { url: u, expected: x })
                            && u@ == url@
                            && x@ == e@
                        &&& final(self)@ == old(self)@
                    },
                    None => {
                        &&& r matches Ok(d) && d@ == data
                        &&& final(self)@ == old(self)@.push((path@, data))
                    },
                }
            }),
    {
        let data = concat_chunks(chunks);
        if let Some(e) = expected {
            let computed = sha1_hexdigest(&data);
            if computed != *e {
                return Err(
                    DownloadError::UnexpectedHash { url: url.clone(), expected: e.clone() },
                );
            }
        }
        let stored = copy_bytes(&data);
        let ghost before = self@;
        self.entries.push((path, stored));
        proof {
            assert(self@ =~= before.push((self.entries@.last().0@, data@)));
        }
        Ok(data)
    }
}

/// A fresh vector holding the same bytes.
fn copy_bytes(data: &Vec<u8>) -> (r: Vec<u8>)
    ensures
        r@ == data@,
{
    let mut out: Vec<u8> = Vec::new();
    let mut i: usize = 0;
    while i < data.len()
        invariant
            i <= data@.len(),
            out@ == data@.take(i as int),
        decreases data@.len() - i,
    {
        out.push(data[i]);
        proof {
            assert(out@ =~= data@.take(i + 1));
        }
        i = i + 1;
    }
    proof {
        assert(data@.take(data@.len() as int) =~= data@);
    }
    out
}

/// Fetching a path that was committed before serves exactly the committed
/// bytes again: the second fetch is a cache hit and needs no transfer.
pub proof fn lemma_commit_then_lookup(
    store: Seq<(Seq<char>, Seq<u8>)>,
    path: Seq<char>,
    data: Seq<u8>,
)
    ensures
        spec_store_lookup(store.push((path, data)), path) == Some(data),
{
    assert(store.push((path, data)).last() == (path, data));
}

/// Neither the accepted payload nor its digest verdict depends on how the
/// transport chunked the stream, only on the bytes themselves.
pub proof fn lemma_chunking_irrelevant(a: Seq<Seq<u8>>, b: Seq<Seq<u8>>)
    requires
        spec_concat(a) == spec_concat(b),
    ensures
        sha1_hex_of(spec_concat(a)) == sha1_hex_of(spec_concat(b)),
{
}

} // verus!
