//! The request coordinator: derive the key, consult the cache unless
//! bypassed, and on a miss feed the fetched bytes through the pipeline, store
//! the result, and render it. The fetch itself is the transport layer's; it
//! hands the raw bytes in and the steps here decide everything else.

use vstd::prelude::*;

use crate::cache::CacheKey;
use crate::cache::CacheStore;
use crate::cache::EntryModel;
use crate::cache::fresh_at;
use crate::filters::Filter;
use crate::filters::filter_of_speed;
use crate::filters::parse_filter;
use crate::pipeline::PipelineError;
use crate::pipeline::animated_gif_of;
use crate::pipeline::b64_encode;
use crate::pipeline::b64_encoding_of;
use crate::pipeline::png_decodable;
use crate::pipeline::transform;
use crate::render::Mode;
use crate::render::Output;
use crate::render::OutputModel;
use crate::render::mode_of;
use crate::render::parse_mode;
use crate::render::render;
use crate::render::render_model;
use crate::text::id_value;
use crate::text::parse_identity;
use crate::text::strip_gif_suffix;
use crate::text::stripped_id;
use crate::text::str_eq;
use crate::text::valid_identity;

verus! {

/// A validated request: the parsed identity, its textual form for the JSON
/// envelope, the output mode, the filter, and whether the cache read is
/// bypassed.
#[derive(Debug)]
pub struct Request {
    pub id: i64,
    pub id_str: String,
    pub mode: Mode,
    pub filter: Filter,
    pub bypass: bool,
}

impl Request {
    /// The cache key the request names.
    pub open spec fn key_spec(self) -> CacheKey {
        CacheKey { id: self.id, filter: self.filter }
    }

    pub fn key(&self) -> (k: CacheKey)
        ensures
            k == self.key_spec(),
    {
        CacheKey { id: self.id, filter: self.filter }
    }
}

/// A malformed identity: a client error, raised before any cache or network
/// work.
#[derive(Clone, Copy, Debug, PartialEq, Eq, Structural)]
pub enum RequestError {
    InvalidInput,
}

/// Validate the raw request values. The identity must parse as an integer
/// once a trailing ".gif" is stripped; every mode, bypass and speed value is
/// accepted and mapped totally.
pub fn prepare(
    raw_id: &str,
    mode_param: Option<&str>,
    upd_param: Option<&str>,
    speed_param: Option<&str>,
) -> (r: Result<Request, RequestError>)
    ensures
        r is Ok <==> valid_identity(stripped_id(raw_id@)),
        r matches Ok(req) ==> {
            &&& req.id as int == id_value(stripped_id(raw_id@))
            &&& req.id_str@ == stripped_id(raw_id@)
            &&& (mode_param matches Some(s) ==> req.mode == mode_of(s@))
            &&& (mode_param is None ==> req.mode == Mode::Binary)
            &&& (speed_param matches Some(s) ==> req.filter == filter_of_speed(s@))
            &&& (speed_param is None ==> req.filter == Filter::Quality)
            &&& req.bypass == (match upd_param {
                Some(u) => u@ == "true"@,
                None => false,
            })
        },
        r matches Err(e) ==> e == RequestError::InvalidInput,
{
    let stripped = strip_gif_suffix(raw_id);
    match parse_identity(stripped) {
        None => Err(RequestError::InvalidInput),
        Some(id) => {
            let bypass = match upd_param {
                Some(u) => str_eq(u, "true"),
                None => false,
            };
            Ok(
                Request {
                    id,
                    id_str: stripped.to_owned(),
                    mode: parse_mode(mode_param),
                    filter: parse_filter(speed_param),
                    bypass,
                },
            )
        },
    }
}

/// What the fast path serves: with no bypass, a present and fresh entry's
/// payload rendered in the requested mode; otherwise nothing — the request
/// must go through the pipeline.
pub open spec fn try_cache_model(
    m: Map<CacheKey, EntryModel>,
    req: Request,
    now: u64,
) -> Option<OutputModel> {
    if !req.bypass && m.contains_key(req.key_spec()) && fresh_at(
        m[req.key_spec()].inserted_at,
        now,
    ) {
        render_model(req.mode, req.id_str@, m[req.key_spec()].payload)
    } else {
        None
    }
}

/// The fast path: serve from the cache when allowed to, with no pipeline
/// work. Side-effect-free.
pub fn try_cache(store: &CacheStore, req: &Request, now: u64) -> (r: Option<Output>)
    requires
        store.wf(),
    ensures
        r is Some <==> try_cache_model(store@, *req, now) is Some,
        r matches Some(o) ==> try_cache_model(store@, *req, now) == Some(o@),
{
    if req.bypass {
        return None;
    }
    match store.lookup_fresh(req.key(), now) {
        Some(payload) => render(req.mode, req.id_str.as_str(), &payload),
        None => None,
    }
}

/// Store a pipeline result under the request's key and render it: the entry
/// is replaced wholesale with the payload encoding of exactly these bytes,
/// and the response derives from that same representation.
pub fn store_and_render(store: &mut CacheStore, req: &Request, now: u64, gif: Vec<u8>) -> (o:
    Output)
    requires
        old(store).wf(),
    ensures
        final(store).wf(),
        final(store)@ == old(store)@.insert(
            req.key_spec(),
            EntryModel { inserted_at: now, payload: b64_encoding_of(gif@) },
        ),
        render_model(req.mode, req.id_str@, b64_encoding_of(gif@)) == Some(o@),
        req.mode == Mode::Binary ==> o@ == (OutputModel::Binary { body: gif@ }),
{
    let payload = b64_encode(gif.as_slice());
    store.insert(req.key(), now, payload.clone());
    match req.mode {
        Mode::Binary => Output::Binary { body: gif },
        Mode::Base64Text => {
            let body = String::from_str("data:image/png;base64,").concat(payload.as_str());
            Output::Base64Text { body }
        },
        Mode::Json => Output::Json { id: req.id_str.clone(), image_data: payload },
    }
}

/// Complete a miss, a stale hit or a bypass once the raw bytes have arrived:
/// transform them, store the result, and render it. It succeeds exactly when
/// the bytes decode as a PNG; then the entry is replaced wholesale with the
/// encoding of the animation these bytes and this filter determine, and the
/// response renders that same representation. On a pipeline failure nothing
/// is cached and the error is terminal for this request.
pub fn complete_miss(store: &mut CacheStore, req: &Request, now: u64, fetched_bytes: &[u8]) -> (r:
    Result<Output, PipelineError>)
    requires
        old(store).wf(),
    ensures
        final(store).wf(),
        r is Ok <==> png_decodable(fetched_bytes@),
        r is Err ==> final(store)@ == old(store)@,
        r matches Ok(o) ==> ({
            let payload = b64_encoding_of(animated_gif_of(fetched_bytes@, req.filter));
            &&& final(store)@ == old(store)@.insert(
                req.key_spec(),
                EntryModel { inserted_at: now, payload },
            )
            &&& render_model(req.mode, req.id_str@, payload) == Some(o@)
        }),
{
    match transform(fetched_bytes, req.filter) {
        Err(e) => Err(e),
        Ok(gif) => {
            let o = store_and_render(store, req, now, gif);
            Ok(o)
        },
    }
}

/// Idempotent fast path law: what the cache serves is a function of the
/// store, the request and the clock alone, so two consecutive non-bypass
/// requests over an unchanged fresh entry render identical responses — and
/// the fast path, by its contract, performs no fetch or transform work.
pub proof fn lemma_fast_path_idempotent(
    m: Map<CacheKey, EntryModel>,
    req: Request,
    now: u64,
    o1: OutputModel,
    o2: OutputModel,
)
    requires
        try_cache_model(m, req, now) == Some(o1),
        try_cache_model(m, req, now) == Some(o2),
    ensures
        o1 == o2,
{
}

/// Miss-then-hit law: once a completed request has stored the encoding of
/// its pipeline result, any non-bypass request for the same key within the
/// TTL is served from the cache, and what it is served renders exactly that
/// stored representation.
pub proof fn lemma_miss_then_hit(
    m: Map<CacheKey, EntryModel>,
    req: Request,
    t_insert: u64,
    t_read: u64,
    gif: Seq<u8>,
)
    requires
        !req.bypass,
        fresh_at(t_insert, t_read),
    ensures
        ({
            let stored = m.insert(
                req.key_spec(),
                EntryModel { inserted_at: t_insert, payload: b64_encoding_of(gif) },
            );
            try_cache_model(stored, req, t_read) == render_model(
                req.mode,
                req.id_str@,
                b64_encoding_of(gif),
            )
        }),
{
}

/// Bypass law: a bypassed request is never served from the cache, however
/// fresh the entry — it must go through the pipeline, whose completion then
/// overwrites the stored entry wholesale.
pub proof fn lemma_bypass_misses(m: Map<CacheKey, EntryModel>, req: Request, now: u64)
    requires
        req.bypass,
    ensures
        try_cache_model(m, req, now) is None,
{
}

} // verus!
