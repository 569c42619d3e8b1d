//! The counter service: one persisted unsigned 32-bit counter under the
//! single well-known key, mutated only by `increment`, which loads the value
//! (absent reads as zero), records a diagnostic entry, persists the
//! incremented value and refreshes the entry's time-to-live by a watermark
//! policy. A failed call leaves the persisted entry and its TTL exactly as
//! they were.

use vstd::prelude::*;

use crate::codec::decode_u32;
use crate::codec::encode_u32;
use crate::codec::le_bytes_of;
use crate::codec::le_value_of;
use crate::codec::lemma_le_bytes_of_value;
use crate::diag::DiagnosticLog;
use crate::store::Store;

verus! {

/// How long a call must keep the entry alive: the minimum remaining TTL
/// guaranteed after a successful `increment`.
pub const TTL_THRESHOLD: u32 = 50;

/// The horizon a lapsing entry is extended to when its remaining TTL is at or
/// below the threshold.
pub const TTL_EXTEND_TO: u32 = 100;

/// Why an `increment` call failed.
#[derive(Clone, Copy, Debug, PartialEq, Eq, Structural)]
pub enum CounterError {
    /// The storage layer could not be reached.
    StoreUnavailable,
    /// The stored entry does not decode as a counter value.
    SerializationError,
    /// The counter is at the maximum representable value.
    Overflow,
}

/// Whether the stored entry decodes as a counter value: it is absent, or it
/// is exactly four bytes.
pub open spec fn entry_decodable(c: Option<Seq<u8>>) -> bool {
    match c {
        Option::None => true,
        Option::Some(b) => b.len() == 4,
    }
}

/// The logical counter value of a stored entry: an absent entry reads as
/// zero.
pub open spec fn logical_value(c: Option<Seq<u8>>) -> u32 {
    match c {
        Option::None => 0,
        Option::Some(b) => le_value_of(b),
    }
}

/// The inputs on which `increment` is owed success: the entry is readable and
/// decodable, the counter is below the maximum, and neither write fails.
pub open spec fn increment_succeeds(s: Store) -> bool {
    &&& !s.get_fails()
    &&& entry_decodable(s.contents())
    &&& logical_value(s.contents()) < u32::MAX
    &&& !s.set_fails()
    &&& !s.extend_ttl_fails()
}

/// The remaining TTL a successful call leaves: a fresh entry starts with no
/// remaining TTL, and the watermark policy then guarantees at least the
/// threshold.
pub open spec fn ttl_after_success(pre: Store) -> u32 {
    let t = match pre.ttl() {
        Option::None => 0u32,
        Option::Some(x) => x,
    };
    if t <= TTL_THRESHOLD {
        TTL_EXTEND_TO
    } else {
        t
    }
}

/// One successful `increment`: the returned value is one more than the stored
/// value, the entry holds exactly its encoding, the TTL obeys the watermark
/// policy, and the failure-injection flags are untouched.
pub open spec fn increment_ok_transition(pre: Store, post: Store, ret: u32) -> bool {
    &&& increment_succeeds(pre)
    &&& ret == logical_value(pre.contents()) + 1
    &&& post.contents() == Some(le_bytes_of(ret))
    &&& post.ttl() == Some(ttl_after_success(pre))
    &&& Store::flags_unchanged(pre, post)
}

/// The counter service: owns the semantics of the one persisted counter.
pub struct IncrementContract;

impl IncrementContract {
    /// The counter value a call persists, given the current one: one more,
    /// failing only at the maximum, where one more is not representable.
    pub fn next_value(current: u32) -> (r: Result<u32, CounterError>)
        ensures
            current < u32::MAX ==> (r matches Ok(v) && v == current + 1),
            current == u32::MAX ==> (r matches Err(e) && e == CounterError::Overflow),
    {
        if current < u32::MAX {
            Ok(current + 1)
        } else {
            Err(CounterError::Overflow)
        }
    }

    /// Loads the counter (an absent entry reads as zero), records the
    /// pre-increment value, persists the incremented value and refreshes the
    /// entry's TTL, returning the new value. The call either fully applies or
    /// fails atomically: on any error the persisted entry and its TTL are
    /// exactly as they were before the call.
    pub fn increment(store: &mut Store, log: &mut DiagnosticLog) -> (r: Result<u32, CounterError>)
        ensures
            Store::flags_unchanged(*old(store), *final(store)),
            r is Ok <==> increment_succeeds(*old(store)),
            r matches Ok(v) ==> increment_ok_transition(*old(store), *final(store), v),
            r is Err ==> final(store).contents() == old(store).contents()
                && final(store).ttl() == old(store).ttl(),
            old(store).get_fails() ==> (r matches Err(e) && e == CounterError::StoreUnavailable),
            !old(store).get_fails() && !entry_decodable(old(store).contents()) ==> (
            r matches Err(e) && e == CounterError::SerializationError),
            !old(store).get_fails() && entry_decodable(old(store).contents()) && logical_value(
                old(store).contents(),
            ) == u32::MAX ==> (r matches Err(e) && e == CounterError::Overflow),
            !old(store).get_fails() && entry_decodable(old(store).contents()) && logical_value(
                old(store).contents(),
            ) < u32::MAX && (old(store).set_fails() || old(store).extend_ttl_fails()) ==> (
            r matches Err(e) && e == CounterError::StoreUnavailable),
            final(log)@ == (if !old(store).get_fails() && entry_decodable(old(store).contents()) {
                old(log)@.push(logical_value(old(store).contents()))
            } else {
                old(log)@
            }),
    {
        proof {
            Store::lemma_ttl_presence(*old(store));
        }
        let current: u32;
        let had_entry: bool;
        match store.get() {
            Err(_) => {
                return Err(CounterError::StoreUnavailable);
            },
            Ok(None) => {
                current = 0;
                had_entry = false;
            },
            Ok(Some(b)) => {
                match decode_u32(b) {
                    Some(v) => {
                        current = v;
                        had_entry = true;
                    },
                    None => {
                        return Err(CounterError::SerializationError);
                    },
                }
            },
        }
        log.record(current);
        let new_value: u32;
        match Self::next_value(current) {
            Ok(v) => {
                new_value = v;
            },
            Err(e) => {
                return Err(e);
            },
        }
        match store.set(encode_u32(new_value)) {
            Ok(_) => {},
            Err(_) => {
                return Err(CounterError::StoreUnavailable);
            },
        }
        match store.extend_ttl(TTL_THRESHOLD, TTL_EXTEND_TO) {
            Ok(_) => {},
            Err(_) => {
                // The store offers no transaction boundary of its own, so the
                // service restores the prior entry when the lifetime
                // extension fails: no new value without its TTL extension.
                if had_entry {
                    proof {
                        match old(store).contents() {
                            Option::Some(b0) => lemma_le_bytes_of_value(b0),
                            Option::None => (),
                        }
                    }
                    let _ = store.set(encode_u32(current));
                } else {
                    store.remove();
                }
                return Err(CounterError::StoreUnavailable);
            },
        }
        Ok(new_value)
    }
}

} // verus!
