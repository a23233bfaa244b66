//! A versioned directory store: one logical file whose contents many
//! independent processes can read and atomically update through an
//! optimistic compare-and-swap protocol built on POSIX hard links.

pub mod codec;
pub mod errors;
pub mod names;
mod posix;
pub mod store;

pub use crate::store::AtomicFile;
pub use crate::store::ReadOnlyFile;
pub use crate::store::ReadableFile;
pub use crate::store::TmpFile;

use vstd::prelude::*;

use crate::errors::{CasError, StoreError};

verus! {

/// Read-modify-write over raw bytes, retried without bound on contention.
///
/// Loads the latest snapshot, hands its content (or an empty byte sequence
/// when nothing is published) to `op`, writes the result into a fresh
/// temporary file, and tries to publish it as the next version. When
/// another publisher claimed that version first, the whole cycle restarts
/// from a fresh load; any other failure is returned at once.
///
/// `op` must be a pure function of its input: contention can make any
/// number of invocations of it per call, so it must not carry side effects
/// or assume it runs once. That is why it is required to be callable on
/// every byte sequence, not only on the one this call happens to read.
///
/// Retries are not counted in any way a caller could notice: the loop only
/// carries a retry budget so large that exhausting it is out of reach, and
/// a caller that needs bounded latency must still impose its own ceiling.
pub fn modify<F: Fn(Vec<u8>) -> Vec<u8>>(x: &AtomicFile, op: F) -> (r: Result<(), StoreError>)
    requires
        forall|b: Vec<u8>| #[trigger] call_requires(op, (b,)),
    ensures
        r matches Err(e) ==> (e matches StoreError::Io(_) || e == StoreError::VersionLimit || e
            == StoreError::WriteZero || e == StoreError::Contended),
{
    let mut budget: u64 = u64::MAX;
    loop
        invariant
            forall|b: Vec<u8>| #[trigger] call_requires(op, (b,)),
        decreases budget,
    {
        let latest = match x.load() {
            Ok(l) => l,
            Err(e) => {
                return Err(e);
            },
        };
        let content: Vec<u8> = match latest.open() {
            Ok(Some(f)) => match f.read_to_end() {
                Ok(c) => c,
                Err(e) => {
                    return Err(e);
                },
            },
            Ok(None) => Vec::new(),
            Err(e) => {
                return Err(e);
            },
        };
        if latest.version() == usize::MAX {
            return Err(StoreError::VersionLimit);
        }
        let data = op(content);
        let tmp = match x.make_temp() {
            Ok(t) => t,
            Err(e) => {
                return Err(e);
            },
        };
        match tmp.write_all(&data) {
            Ok(()) => {},
            Err(e) => {
                return Err(e);
            },
        }
        match tmp.flush() {
            Ok(()) => {},
            Err(e) => {
                return Err(e);
            },
        }
        match x.compare_and_swap(&latest, tmp) {
            Ok(()) => {
                return Ok(());
            },
            Err(CasError::Conflict) => {
                if budget == 0 {
                    return Err(StoreError::Contended);
                }
                budget = budget - 1;
            },
            Err(CasError::Failure(e)) => {
                return Err(e);
            },
        }
    }
}

/// Read-modify-write over a structured value, retried without bound on
/// contention.
///
/// The latest version's bytes are decoded into a JSON value first; a store
/// with nothing published maps to an absent value rather than a decode
/// attempt. `op` receives that optional value and returns the one to
/// publish, which is encoded back to bytes (an absent value encodes as
/// `null`). Publishing retries on contention exactly as `modify` does; a
/// decode failure means corrupt or incompatible stored content, so it is
/// fatal and never retried.
///
/// `op` must be a pure function of its input, for the same reason as in
/// `modify`: it can be invoked any number of times per call.
pub fn modify_json<F: Fn(Option<serde_json::Value>) -> Option<serde_json::Value>>(
    x: &AtomicFile,
    op: F,
) -> (r: Result<(), StoreError>)
    requires
        forall|v: Option<serde_json::Value>| #[trigger] call_requires(op, (v,)),
    ensures
        r matches Err(e) ==> (e matches StoreError::Io(_) || e == StoreError::Decode || e
            == StoreError::VersionLimit || e == StoreError::WriteZero || e
            == StoreError::Contended),
{
    let mut budget: u64 = u64::MAX;
    loop
        invariant
            forall|v: Option<serde_json::Value>| #[trigger] call_requires(op, (v,)),
        decreases budget,
    {
        let latest = match x.load() {
            Ok(l) => l,
            Err(e) => {
                return Err(e);
            },
        };
        let value: Option<serde_json::Value> = match latest.open() {
            Ok(Some(f)) => {
                let bytes = match f.read_to_end() {
                    Ok(c) => c,
                    Err(e) => {
                        return Err(e);
                    },
                };
                match codec::parse_json(&bytes) {
                    Ok(v) => Some(v),
                    Err(_) => {
                        return Err(StoreError::Decode);
                    },
                }
            },
            Ok(None) => None,
            Err(e) => {
                return Err(e);
            },
        };
        if latest.version() == usize::MAX {
            return Err(StoreError::VersionLimit);
        }
        let updated = op(value);
        let data = match codec::encode_json(&updated) {
            Ok(d) => d,
            Err(_) => {
                return Err(StoreError::Decode);
            },
        };
        let tmp = match x.make_temp() {
            Ok(t) => t,
            Err(e) => {
                return Err(e);
            },
        };
        match tmp.write_all(&data) {
            Ok(()) => {},
            Err(e) => {
                return Err(e);
            },
        }
        match tmp.flush() {
            Ok(()) => {},
            Err(e) => {
                return Err(e);
            },
        }
        match x.compare_and_swap(&latest, tmp) {
            Ok(()) => {
                return Ok(());
            },
            Err(CasError::Conflict) => {
                if budget == 0 {
                    return Err(StoreError::Contended);
                }
                budget = budget - 1;
            },
            Err(CasError::Failure(e)) => {
                return Err(e);
            },
        }
    }
}

} // verus!
