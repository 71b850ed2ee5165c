//! A safe access layer over an embedded ordered key-value storage engine.
//!
//! The storage engine itself is an opaque collaborator reached through raw
//! native handles, and every call into it is made by the unverified shell
//! around this crate. This crate specifies and verifies the layer that the
//! shell drives: the ownership and lifecycle of the database and
//! write-batch handles, the accumulation and atomic-flush protocol of a
//! write batch, the marshaling of engine outcomes into structured results,
//! and the byte buffers that lookups return.

use vstd::prelude::*;

mod bytes;
mod database;
mod error;
mod model;
mod octets;
mod options;
mod write_batch;

pub use bytes::bytes_cmp;
pub use bytes::bytes_eq;
pub use bytes::lemma_lex_cmp_equal_iff_eq;
pub use bytes::lex_cmp;
pub use database::Database;
pub use database::OpenOutcome;
pub use error::Error;
pub use model::apply_entries;
pub use model::last_put;
pub use model::lemma_apply_entries_lookup;
pub use model::lemma_apply_entries_push;
pub use model::lemma_last_write_wins;
pub use model::lemma_write_then_read;
pub use octets::Octets;
pub use options::Options;
pub use write_batch::WriteBatch;

verus! {

/// What the engine reported when asked to apply a batch atomically.
pub enum WriteOutcome {
    /// The engine applied every pending entry, in insertion order.
    Applied,
    /// The engine rejected the batch, with this message; nothing of the
    /// batch was applied.
    Failure(String),
}

/// What the engine reported for a point lookup.
pub enum GetOutcome {
    /// The key is stored; these are its value bytes (possibly none).
    Found(Vec<u8>),
    /// The key is not stored. A miss is not an error.
    Missing,
    /// The lookup itself failed, with this message.
    Failure(String),
}

/// Flushes `batch` into `db` and returns what the engine made of it.
///
/// What the engine is handed is the batch's pending entries, in insertion
/// order; the `model` module says what applying them leaves in the store.
/// A batch that never allocated its native handle has nothing to flush:
/// the call succeeds without consulting the engine. Otherwise the result
/// follows `outcome`. Either way the batch's pending entries are gone
/// afterwards — even after a failure — so nothing can be submitted twice;
/// its native handle is kept for the next round of `put`s.
pub fn write(db: &Database, batch: &mut WriteBatch, outcome: WriteOutcome) -> (r: Result<
    (),
    Error,
>)
    requires
        db.is_open(),
        old(batch).wf(),
    ensures
        final(batch).wf(),
        final(batch).pending() == Seq::<(Seq<u8>, Seq<u8>)>::empty(),
        final(batch).is_allocated() == old(batch).is_allocated(),
        !old(batch).is_allocated() ==> r is Ok,
        old(batch).is_allocated() ==> match outcome {
            WriteOutcome::Applied => r is Ok,
            WriteOutcome::Failure(m) => r matches Err(e) && e@ == m@,
        },
{
    if batch.is_allocated() {
        batch.clear();
        match outcome {
            WriteOutcome::Applied => Ok(()),
            WriteOutcome::Failure(message) => Err(Error::engine_failure(message)),
        }
    } else {
        proof {
            assert(batch.pending() =~= Seq::<(Seq<u8>, Seq<u8>)>::empty());
        }
        Ok(())
    }
}

/// Returns the value stored under `key`, as the engine reported it.
///
/// `key` is the key the lookup was issued for; any byte sequence is
/// allowed, the empty one included. A key that is not stored yields `Ok`
/// with an empty buffer — the query itself succeeded, so a miss is not an
/// error. A stored value, empty included, comes back byte for byte. Only an
/// operational failure of the engine is an `Err`, carrying the engine's
/// message.
pub fn get(db: &Database, key: &[u8], outcome: GetOutcome) -> (r: Result<Octets, Error>)
    requires
        db.is_open(),
    ensures
        match outcome {
            GetOutcome::Found(v) => r matches Ok(o) && o@ == v@,
            GetOutcome::Missing => r matches Ok(o) && o@ == Seq::<u8>::empty(),
            GetOutcome::Failure(m) => r matches Err(e) && e@ == m@,
        },
{
    match outcome {
        GetOutcome::Found(value) => Ok(Octets::from_vec(value)),
        GetOutcome::Missing => Ok(Octets::empty()),
        GetOutcome::Failure(message) => Err(Error::engine_failure(message)),
    }
}

} // verus!
