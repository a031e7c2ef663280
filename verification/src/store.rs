//! The state of the stored document of a key, and a model of the store.

use crate::calendar::Ymd;
use vstd::prelude::*;

verus! {

/// What the store holds for a key at a moment.
#[derive(Clone, Copy, Debug, PartialEq, Eq, Structural)]
pub enum CacheState {
    /// No document is stored.
    Absent,
    /// The stored document was written less than the time to live ago.
    Fresh,
    /// The stored document is older.
    Stale,
}

/// The time to live that is used where none is configured: thirty minutes,
/// in seconds.
pub const DEFAULT_TTL: u64 = 1800;

/// The state of a document last written at `written`, or of none, at the
/// moment `now`, under the time to live `ttl`.
pub open spec fn cache_state(written: Option<int>, now: int, ttl: int) -> CacheState {
    match written {
        None => CacheState::Absent,
        Some(at) => if now - at < ttl {
            CacheState::Fresh
        } else {
            CacheState::Stale
        },
    }
}

/// The model of `written` in an event or a phase.
pub open spec fn moment(written: Option<i64>) -> Option<int> {
    match written {
        Some(at) => Some(at as int),
        None => None,
    }
}

/// Classifies what a look at the store found: `written` is the moment at
/// which the stored document was last written, or nothing where none is
/// stored. Moments and the time to live are counted in seconds.
pub fn probe(written: Option<i64>, now: i64, ttl: u64) -> (state: CacheState)
    ensures
        state == cache_state(moment(written), now as int, ttl as int),
{
    match written {
        None => CacheState::Absent,
        Some(at) => {
            let age: i128 = now as i128 - at as i128;
            if age < ttl as i128 {
                CacheState::Fresh
            } else {
                CacheState::Stale
            }
        },
    }
}

/// A stored document: its bytes and the moment of its last write.
pub struct Artifact {
    pub bytes: Seq<u8>,
    pub written: int,
}

/// The store as the engine sees it: at most one document for each date.
pub struct StoreModel {
    pub documents: Map<Ymd, Artifact>,
}

impl StoreModel {
    /// The moment of the last write of the document of `key`, if one is stored.
    pub open spec fn written(self, key: Ymd) -> Option<int> {
        if self.documents.contains_key(key) {
            Some(self.documents[key].written)
        } else {
            None
        }
    }

    /// What a look at the store finds for `key` at the moment `now`.
    pub open spec fn probe(self, key: Ymd, now: int, ttl: int) -> CacheState {
        cache_state(self.written(key), now, ttl)
    }

    /// The store after `bytes` were written for `key` at the moment `now`, in
    /// place of what was stored for it.
    pub open spec fn commit(self, key: Ymd, bytes: Seq<u8>, now: int) -> StoreModel {
        StoreModel { documents: self.documents.insert(key, Artifact { bytes, written: now }) }
    }

    /// The store after the document of `key` was removed.
    pub open spec fn invalidate(self, key: Ymd) -> StoreModel {
        StoreModel { documents: self.documents.remove(key) }
    }
}

/// A document that was just written is fresh, and it is the only one that
/// the write changed: other keys are found as before.
pub proof fn commit_makes_fresh(store: StoreModel, key: Ymd, bytes: Seq<u8>, now: int, ttl: int)
    requires
        ttl > 0,
    ensures
        store.commit(key, bytes, now).probe(key, now, ttl) == CacheState::Fresh,
        store.commit(key, bytes, now).documents[key].bytes == bytes,
        store.commit(key, bytes, now).written(key) == Some(now),
        forall|other: Ymd|
            other != key ==> store.commit(key, bytes, now).documents.contains_key(other)
                == store.documents.contains_key(other),
        forall|other: Ymd|
            other != key && store.documents.contains_key(other) ==> store.commit(
                key,
                bytes,
                now,
            ).documents[other] == store.documents[other],
{
}

/// A write replaces: it leaves the store as if the document had been removed
/// first and then written.
pub proof fn commit_replaces(store: StoreModel, key: Ymd, bytes: Seq<u8>, now: int)
    ensures
        store.commit(key, bytes, now) == store.invalidate(key).commit(key, bytes, now),
{
    assert(store.commit(key, bytes, now).documents =~= store.invalidate(key).commit(
        key,
        bytes,
        now,
    ).documents);
}

/// A document that was removed is absent, whatever the moment and the time
/// to live.
pub proof fn invalidate_makes_absent(store: StoreModel, key: Ymd, now: int, ttl: int)
    ensures
        store.invalidate(key).probe(key, now, ttl) == CacheState::Absent,
{
}

} // verus!
