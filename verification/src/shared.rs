//! The process-wide cache: one store behind a verified reader-writer lock,
//! shared by every concurrent request handler. Readers proceed together; a
//! write replaces an entry atomically, so no reader ever observes a torn
//! entry. The lock is never held across the pipeline: it is taken once for
//! the lookup and once, separately, for the insert.

use vstd::prelude::*;
use vstd::rwlock::RwLock;
use vstd::rwlock::RwLockPredicate;

use crate::cache::CacheKey;
use crate::cache::CacheStore;
use crate::cache::EntryModel;
use crate::cache::fresh_at;
use crate::coordinator::Request;
use crate::coordinator::store_and_render;
use crate::coordinator::try_cache;
use crate::coordinator::try_cache_model;
use crate::pipeline::PipelineError;
use crate::pipeline::animated_gif_of;
use crate::pipeline::b64_encoding_of;
use crate::pipeline::png_decodable;
use crate::pipeline::transform;
use crate::render::Output;
use crate::render::render_model;

verus! {

/// What every value stored in the lock satisfies: a well-formed store.
pub struct StorePred;

impl RwLockPredicate<CacheStore> for StorePred {
    open spec fn inv(self, v: CacheStore) -> bool {
        v.wf()
    }
}

/// A shared-ownership cache handle, constructed once at startup and reachable
/// from every request-handling unit for the life of the process.
pub struct SharedCache {
    lock: RwLock<CacheStore, StorePred>,
}

impl SharedCache {
    #[verifier::type_invariant]
    closed spec fn locked_pred(self) -> bool {
        self.lock.pred() == StorePred
    }

    /// A shared cache starts empty.
    pub fn new() -> SharedCache {
        SharedCache { lock: RwLock::new(CacheStore::new(), Ghost(StorePred)) }
    }

    /// The fast path under a shared read-lock: what is returned is what some
    /// well-formed snapshot of the store serves for this request — never a
    /// torn entry.
    pub fn try_cache(&self, req: &Request, now: u64) -> (r: Option<Output>)
        ensures
            r matches Some(o) ==> exists|m: Map<CacheKey, EntryModel>|
                #[trigger] try_cache_model(m, *req, now) == Some(o@),
    {
        proof {
            use_type_invariant(self);
        }
        let handle = self.lock.acquire_read();
        let store = handle.borrow();
        let ghost m = store@;
        let r = try_cache(store, req, now);
        handle.release_read();
        proof {
            if r is Some {
                assert(try_cache_model(m, *req, now) == Some(r->0@));
            }
        }
        r
    }

    /// Complete a miss, a stale hit or a bypass: the pipeline runs outside
    /// the lock; the write then replaces the entry wholesale under the
    /// exclusive lock. It succeeds exactly when the bytes decode as a PNG,
    /// and the response renders the encoding of the animation these bytes
    /// and this filter determine. Two concurrent completions for one key
    /// leave the store in the state of exactly one of them.
    pub fn complete_miss(&self, req: &Request, now: u64, fetched_bytes: &[u8]) -> (r: Result<
        Output,
        PipelineError,
    >)
        ensures
            r is Ok <==> png_decodable(fetched_bytes@),
            r matches Ok(o) ==> render_model(
                req.mode,
                req.id_str@,
                b64_encoding_of(animated_gif_of(fetched_bytes@, req.filter)),
            ) == Some(o@),
    {
        proof {
            use_type_invariant(self);
        }
        match transform(fetched_bytes, req.filter) {
            Err(e) => Err(e),
            Ok(gif) => {
                let (mut store, write_handle) = self.lock.acquire_write();
                let o = store_and_render(&mut store, req, now, gif);
                write_handle.release_write(store);
                Ok(o)
            },
        }
    }

    /// The stored payload for a key if present and fresh in some well-formed
    /// snapshot of the store, under a shared read-lock.
    pub fn lookup_fresh(&self, key: CacheKey, now: u64) -> (r: Option<String>)
        ensures
            r matches Some(p) ==> exists|m: Map<CacheKey, EntryModel>|
                {
                    &&& #[trigger] m.contains_key(key)
                    &&& fresh_at(m[key].inserted_at, now)
                    &&& m[key].payload == p@
                },
    {
        proof {
            use_type_invariant(self);
        }
        let handle = self.lock.acquire_read();
        let store = handle.borrow();
        let ghost m = store@;
        let r = store.lookup_fresh(key, now);
        handle.release_read();
        proof {
            if r is Some {
                assert(m.contains_key(key) && fresh_at(m[key].inserted_at, now) && m[key].payload
                    == r->0@);
            }
        }
        r
    }
}

} // verus!
