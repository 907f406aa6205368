//! Search results: the candidate record, its identifier and the shaping of
//! raw image hits into candidates.
use vstd::prelude::*;
use vstd::arithmetic::div_mod::{lemma_add_mod_noop, lemma_mod_twice};
use vstd::utf8::encode_utf8;
use crate::text::{hex_string, lower_hex};

verus! {

/// Most candidates one search request may ask for.
pub const MAX_REQUEST_COUNT: usize = 10;

/// One search result.
#[derive(Debug, Clone)]
pub struct ImageResult {
    pub id: String,
    pub title: String,
    pub download_url: String,
    pub width: u32,
    pub height: u32,
    pub source_query: String,
}

impl ImageResult {
    /// A field-by-field copy.
    pub fn duplicate(&self) -> (r: Self)
        ensures
            r == *self,
    {
        ImageResult {
            id: self.id.clone(),
            title: self.title.clone(),
            download_url: self.download_url.clone(),
            width: self.width,
            height: self.height,
            source_query: self.source_query.clone(),
        }
    }
}

/// One image as the search service reports it: dimensions may be missing.
#[derive(Debug, Clone)]
pub struct ImageHit {
    pub title: String,
    pub image_url: String,
    pub image_width: Option<u32>,
    pub image_height: Option<u32>,
}

impl ImageHit {
    /// A field-by-field copy.
    pub fn duplicate(&self) -> (r: Self)
        ensures
            r == *self,
    {
        ImageHit {
            title: self.title.clone(),
            image_url: self.image_url.clone(),
            image_width: self.image_width,
            image_height: self.image_height,
        }
    }
}

pub open spec fn hash_modulus() -> nat {
    0x1_0000_0000_0000_0000
}

/// The polynomial hash of `bytes`: `h = h * 31 + b` for each byte, modulo 2^64.
pub open spec fn hash_of(bytes: Seq<u8>) -> u64
    decreases bytes.len(),
{
    if bytes.len() == 0 {
        0
    } else {
        ((hash_of(bytes.drop_last()) as nat * 31 + bytes.last() as nat) % hash_modulus()) as u64
    }
}

/// Hash of the UTF-8 bytes of `input`, used as a stable identifier of a URL.
pub fn simple_hash(input: &str) -> (r: u64)
    ensures
        r == hash_of(encode_utf8(input@)),
{
    let bytes = input.as_bytes();
    let mut hash: u64 = 0;
    let mut i: usize = 0;
    while i < bytes.len()
        invariant
            i <= bytes@.len(),
            bytes@ == encode_utf8(input@),
            hash == hash_of(bytes@.subrange(0, i as int)),
        decreases bytes@.len() - i,
    {
        let b = bytes[i];
        proof {
            let pre = bytes@.subrange(0, i as int);
            let next = bytes@.subrange(0, i + 1);
            assert(next.drop_last() =~= pre);
            let m = hash_modulus() as int;
            lemma_add_mod_noop(hash as int * 31, b as int, m);
            lemma_mod_twice(b as int, m);
            assert((b as int) % m == b as int);
        }
        hash = hash.wrapping_mul(31).wrapping_add(b as u64);
        i += 1;
    }
    assert(bytes@.subrange(0, bytes@.len() as int) =~= bytes@);
    hash
}

/// How many candidates to ask the search service for, given the caller's limit.
pub fn request_count(limit: usize) -> (r: usize)
    ensures
        r == if limit < MAX_REQUEST_COUNT { limit } else { MAX_REQUEST_COUNT },
{
    if limit < MAX_REQUEST_COUNT {
        limit
    } else {
        MAX_REQUEST_COUNT
    }
}

/// A dimension as reported, with a missing one read as zero ("unknown").
pub open spec fn dimension_or_unknown(d: Option<u32>) -> u32 {
    match d {
        Some(v) => v,
        None => 0,
    }
}

/// `r` is the candidate made from `hit` for the request `query`.
pub open spec fn is_result_of(r: ImageResult, hit: ImageHit, query: Seq<char>) -> bool {
    &&& r.id@ == lower_hex(hash_of(encode_utf8(hit.image_url@)) as nat)
    &&& r.title == hit.title
    &&& r.download_url == hit.image_url
    &&& r.width == dimension_or_unknown(hit.image_width)
    &&& r.height == dimension_or_unknown(hit.image_height)
    &&& r.source_query@ == query
}

/// Makes the candidate for one reported image.
pub fn result_from_hit(hit: ImageHit, original_query: &str) -> (r: ImageResult)
    ensures
        is_result_of(r, hit, original_query@),
{
    let hash = simple_hash(hit.image_url.as_str());
    let width = match hit.image_width {
        Some(w) => w,
        None => 0,
    };
    let height = match hit.image_height {
        Some(h) => h,
        None => 0,
    };
    ImageResult {
        id: hex_string(hash),
        title: hit.title,
        download_url: hit.image_url,
        width,
        height,
        source_query: String::from_str(original_query),
    }
}

/// Turns the reported images into candidates, in the order reported, keeping at
/// most `limit` of them.
pub fn collect_results(hits: &Vec<ImageHit>, original_query: &str, limit: usize) -> (r: Vec<
    ImageResult,
>)
    ensures
        r@.len() == if hits@.len() < limit { hits@.len() } else { limit as nat },
        forall|i: int| 0 <= i < r@.len() ==> is_result_of(#[trigger] r@[i], hits@[i], original_query@),
{
    let mut results: Vec<ImageResult> = Vec::new();
    let mut i: usize = 0;
    while i < hits.len() && i < limit
        invariant
            i <= hits@.len(),
            i <= limit,
            results@.len() == i,
            forall|j: int| 0 <= j < i ==> is_result_of(#[trigger] results@[j], hits@[j], original_query@),
        decreases hits@.len() - i,
    {
        let hit = hits[i].duplicate();
        results.push(result_from_hit(hit, original_query));
        i += 1;
    }
    results
}

/// Whether an HTTP status code signals rate limiting: 429 (Too Many Requests) or
/// 503 (Service Unavailable).
pub fn is_rate_limit_status(status: u16) -> (r: bool)
    ensures
        r == (status == 429 || status == 503),
{
    status == 429 || status == 503
}

} // verus!
