//! Authoritative, lock-free allocation of [`NetworkId`]s.
//!
//! The counter lives in an atomic that many threads may advance at once; what
//! it holds is not visible to the library's proofs. What is proved is the step
//! each allocation applies to it, and what an allocation returns for each
//! value the step can meet.

use std::sync::atomic::AtomicU64;
use std::sync::atomic::Ordering;

use vstd::prelude::*;
use vstd::string::StringExecFns;

use crate::types::{NetworkId, MIN_DYNAMIC_NETWORK_ID};

verus! {

/// Errors of the [`NetworkIdAllocator`].
#[derive(Debug, PartialEq, Eq, Structural)]
pub enum AllocatorError {
    /// The counter reached `u64::MAX`.
    Overflow,
    /// The counter handed out the null id 0.
    Exhausted,
}

impl AllocatorError {
    /// The message that describes the error.
    pub fn to_string(&self) -> (r: String)
        ensures
            match self {
                AllocatorError::Overflow => r@ == "NetworkId overflow (reached u64::MAX)"@,
                AllocatorError::Exhausted => r@ == "NetworkId allocator exhausted (reached limit)"@,
            },
    {
        match self {
            AllocatorError::Overflow => String::from_str("NetworkId overflow (reached u64::MAX)"),
            AllocatorError::Exhausted => String::from_str("NetworkId allocator exhausted (reached limit)"),
        }
    }
}

/// The value the counter moves to from `current`: one more, unless it is
/// already at `u64::MAX`, where it stays.
pub open spec fn counter_step(current: u64) -> Option<u64> {
    if current == u64::MAX {
        None
    } else {
        Some((current + 1) as u64)
    }
}

/// The step the allocator applies to its counter.
fn next_counter_value(current: u64) -> (r: Option<u64>)
    ensures
        r == counter_step(current),
{
    if current == u64::MAX {
        None
    } else {
        Some(current + 1)
    }
}

/// `AtomicU64::fetch_update` with relaxed ordering and the step
/// `next_counter_value`: applies the step to the counter atomically and
/// returns the value it held before, as `Ok` when the step moved it and as
/// `Err` when the step refused. Which value that was depends on the other
/// threads, so only this relation between the result and the step is stated.
#[verifier::external_body]
fn advance_counter(counter: &AtomicU64) -> (r: Result<u64, u64>)
    ensures
        match r {
            Ok(previous) => counter_step(previous) is Some,
            Err(previous) => counter_step(previous) is None,
        },
{
    counter.fetch_update(Ordering::Relaxed, Ordering::Relaxed, next_counter_value)
}

/// What an allocation returns, given what advancing the counter returned.
pub open spec fn allocation_of(previous: Result<u64, u64>) -> Result<NetworkId, AllocatorError> {
    match previous {
        Err(_) => Err(AllocatorError::Overflow),
        Ok(0) => Err(AllocatorError::Exhausted),
        Ok(value) => Ok(NetworkId(value)),
    }
}

/// Authoritative allocator for [`NetworkId`]s.
///
/// Used by the server to ensure IDs are unique and monotonically increasing.
/// Thread-safe and lock-free.
#[derive(Debug)]
pub struct NetworkIdAllocator {
    start_id: u64,
    next: AtomicU64,
}

impl NetworkIdAllocator {
    /// The first id the allocator hands out (and returns to on `reset`).
    pub closed spec fn start_id(&self) -> u64 {
        self.start_id
    }

    /// Creates a new allocator starting from a specific ID, raised to
    /// `MIN_DYNAMIC_NETWORK_ID` if it is below it.
    pub fn new(start_id: u64) -> (r: Self)
        ensures
            r.start_id() == (if start_id < MIN_DYNAMIC_NETWORK_ID {
                MIN_DYNAMIC_NETWORK_ID
            } else {
                start_id
            }),
    {
        let start_id = if start_id < MIN_DYNAMIC_NETWORK_ID {
            MIN_DYNAMIC_NETWORK_ID
        } else {
            start_id
        };
        NetworkIdAllocator { start_id, next: AtomicU64::new(start_id) }
    }

    /// What an allocation returns when advancing the counter returned
    /// `previous`: `Overflow` when the counter could not move, `Exhausted` for
    /// the null id 0, and the id otherwise.
    pub fn allocation_outcome(previous: Result<u64, u64>) -> (r: Result<NetworkId, AllocatorError>)
        ensures
            r == allocation_of(previous),
    {
        let value = match previous {
            Ok(value) => value,
            Err(_) => return Err(AllocatorError::Overflow),
        };
        if value == 0 {
            return Err(AllocatorError::Exhausted);
        }
        Ok(NetworkId(value))
    }

    /// Allocates a new unique [`NetworkId`].
    ///
    /// Returns [`AllocatorError::Overflow`] if the next ID would exceed `u64::MAX`.
    pub fn allocate(&self) -> (r: Result<NetworkId, AllocatorError>)
        ensures
            exists|previous: Result<u64, u64>|
                #![trigger allocation_of(previous)]
                {
                    &&& r == allocation_of(previous)
                    &&& match previous {
                        Ok(v) => counter_step(v) is Some,
                        Err(v) => counter_step(v) is None,
                    }
                },
            r matches Ok(id) ==> 0 < id.0 < u64::MAX,
    {
        let previous = advance_counter(&self.next);
        Self::allocation_outcome(previous)
    }

    /// Resets the allocator to its initial `start_id`.
    /// Use only in tests or clear-world scenarios.
    pub fn reset(&self) {
        self.next.store(self.start_id, Ordering::Relaxed);
    }
}

impl Default for NetworkIdAllocator {
    /// An allocator that starts at `MIN_DYNAMIC_NETWORK_ID`.
    fn default() -> (r: Self)
        ensures
            r.start_id() == MIN_DYNAMIC_NETWORK_ID,
    {
        Self::new(MIN_DYNAMIC_NETWORK_ID)
    }
}

/// Law: an allocation that moved the counter on from `v` hands out `v`
/// itself, unless `v` is the null id 0 (then the ids are exhausted); a
/// counter that could not move (at `u64::MAX`) is an overflow.
pub proof fn law_allocation_hands_out_the_counter_value(v: u64)
    ensures
        v != 0 ==> allocation_of(Ok(v)) == Ok::<NetworkId, AllocatorError>(NetworkId(v)),
        allocation_of(Ok(v)) is Err <==> v == 0,
        allocation_of(Ok(0)) == Err::<NetworkId, AllocatorError>(AllocatorError::Exhausted),
        allocation_of(Err(v)) == Err::<NetworkId, AllocatorError>(AllocatorError::Overflow),
{
}

} // verus!
