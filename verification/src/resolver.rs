//! The cache-then-network resolution policy.
//!
//! Resolving a word means: serve the payload from the cache when its key is
//! present — no fetch, no rate-limit cost — and only on a cache miss take
//! the outcome of one remote fetch, writing a successful fetch back to the
//! store and propagating a failed one without touching the store. The
//! binary around this library performs the fetch itself and hands its
//! outcome in as a plain value.

use vstd::prelude::*;
use crate::cache::CacheMap;
use crate::cache::lookup_key;
use crate::cache::normalized_key;

verus! {

/// What one remote fetch attempt came back with: either the raw JSON body
/// together with the service's rate-limit telemetry, or a failure message.
pub enum FetchOutcome {
    Success { json: String, remaining: u64, limit: u64 },
    Failure { message: String },
}

/// Mathematical view of a fetch outcome.
pub enum FetchOutcomeView {
    Success { json: Seq<char>, remaining: u64, limit: u64 },
    Failure { message: Seq<char> },
}

impl View for FetchOutcome {
    type V = FetchOutcomeView;

    open spec fn view(&self) -> FetchOutcomeView {
        match self {
            FetchOutcome::Success { json, remaining, limit } => FetchOutcomeView::Success {
                json: json@,
                remaining: *remaining,
                limit: *limit,
            },
            FetchOutcome::Failure { message } => FetchOutcomeView::Failure { message: message@ },
        }
    }
}

/// Mathematical view of what one resolution produced.
pub struct ResolutionView {
    pub payload: Result<Seq<char>, Seq<char>>,
    pub fetched: bool,
    pub telemetry: Option<(u64, u64)>,
}

/// What one resolution produced: the JSON payload or the fetch failure
/// message, whether a remote fetch was performed, and the rate-limit
/// telemetry when a fetch succeeded.
pub struct Resolution {
    pub payload: Result<String, String>,
    pub fetched: bool,
    pub telemetry: Option<(u64, u64)>,
}

impl View for Resolution {
    type V = ResolutionView;

    open spec fn view(&self) -> ResolutionView {
        ResolutionView {
            payload: match &self.payload {
                Ok(j) => Ok(j@),
                Err(m) => Err(m@),
            },
            fetched: self.fetched,
            telemetry: self.telemetry,
        }
    }
}

/// The resolution policy itself, as a function on the store's mapping: the
/// new mapping and the resolution that resolving `word` produces when the
/// one permitted fetch would have outcome `fetch`.
pub open spec fn resolve_model(
    cache: Map<Seq<char>, Seq<char>>,
    word: Seq<char>,
    fetch: FetchOutcomeView,
) -> (Map<Seq<char>, Seq<char>>, ResolutionView) {
    let key = normalized_key(word);
    if cache.contains_key(key) {
        (
            cache,
            ResolutionView { payload: Ok(cache[key]), fetched: false, telemetry: None },
        )
    } else {
        match fetch {
            FetchOutcomeView::Success { json, remaining, limit } => (
                cache.insert(key, json),
                ResolutionView {
                    payload: Ok(json),
                    fetched: true,
                    telemetry: Some((remaining, limit)),
                },
            ),
            FetchOutcomeView::Failure { message } => (
                cache,
                ResolutionView { payload: Err(message), fetched: true, telemetry: None },
            ),
        }
    }
}

/// Resolves one word against the store. Serves the cached payload when the
/// word's key is present; only on a miss does the given fetch outcome come
/// into play: a successful fetch is written back to the store and its
/// payload returned, a failed fetch leaves the store untouched and its
/// message is propagated.
pub fn resolve(cache: &mut CacheMap, word: &str, fetch: FetchOutcome) -> (r: Resolution)
    ensures
        (final(cache)@, r@) == resolve_model(old(cache)@, word@, fetch@),
        r.fetched == !old(cache)@.contains_key(normalized_key(word@)),
{
    let key = lookup_key(word);
    match cache.read(key.as_str()) {
        Some(json) => Resolution { payload: Ok(json), fetched: false, telemetry: None },
        None => match fetch {
            FetchOutcome::Success { json, remaining, limit } => {
                cache.write(key.as_str(), json.as_str());
                Resolution {
                    payload: Ok(json),
                    fetched: true,
                    telemetry: Some((remaining, limit)),
                }
            },
            FetchOutcome::Failure { message } => Resolution {
                payload: Err(message),
                fetched: true,
                telemetry: None,
            },
        },
    }
}

/// Law: two resolutions of the same word in sequence perform at most one
/// remote fetch. When the first resolution produced a payload — from the
/// cache or from its one fetch, whose write to the store succeeds — the
/// second resolution is served from the store: it fetches nothing, leaves
/// the store as it was, and returns the same payload, whatever outcome its
/// own fetch would have had.
pub proof fn lemma_second_resolve_served_from_cache(
    cache: Map<Seq<char>, Seq<char>>,
    word: Seq<char>,
    first: FetchOutcomeView,
    second: FetchOutcomeView,
)
    requires
        resolve_model(cache, word, first).1.payload is Ok,
    ensures
        ({
            let (cache1, r1) = resolve_model(cache, word, first);
            let (cache2, r2) = resolve_model(cache1, word, second);
            &&& !r2.fetched
            &&& cache2 == cache1
            &&& r2.payload == r1.payload
        }),
{
}

} // verus!
