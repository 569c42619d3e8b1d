//! The keyed persistent store the counter service runs against: one entry of
//! bytes under the single well-known key, with a remaining time-to-live that
//! the host counts down, and failure injection for each operation so that
//! callers can be exercised against an unavailable storage layer.

use vstd::prelude::*;

verus! {

/// Failure of the keyed persistent store: the storage layer could not be
/// reached.
#[derive(Clone, Copy, Debug, PartialEq, Eq, Structural)]
pub enum StoreError {
    Unavailable,
}

/// The bytes an optional borrowed entry holds.
pub open spec fn opt_bytes(v: Option<&Vec<u8>>) -> Option<Seq<u8>> {
    match v {
        Option::None => Option::None,
        Option::Some(b) => Option::Some(b@),
    }
}

/// The remaining TTL an entry holds after an extension request: raised to the
/// horizon `extend_to` when at or below `threshold`, untouched otherwise, and
/// absent when no entry exists.
pub open spec fn ttl_after_extend(t: Option<u32>, threshold: u32, extend_to: u32) -> Option<u32> {
    match t {
        Option::None => Option::None,
        Option::Some(x) => if x <= threshold {
            Option::Some(extend_to)
        } else {
            Option::Some(x)
        },
    }
}

/// The host's persistent key-value store, narrowed to the one entry this
/// service owns: an optional byte entry together with its remaining TTL,
/// evicted by the host once the TTL is exhausted.
pub struct Store {
    entry: Option<Vec<u8>>,
    remaining_ttl: u32,
    fail_get: bool,
    fail_set: bool,
    fail_extend_ttl: bool,
}

impl Store {
    /// The bytes stored under the key, absent if no entry exists.
    pub closed spec fn contents(self) -> Option<Seq<u8>> {
        match self.entry {
            Option::None => Option::None,
            Option::Some(b) => Option::Some(b@),
        }
    }

    /// The remaining TTL of the entry, absent if no entry exists.
    pub closed spec fn ttl(self) -> Option<u32> {
        match self.entry {
            Option::None => Option::None,
            Option::Some(_) => Option::Some(self.remaining_ttl),
        }
    }

    /// Whether `get` has been made to fail.
    pub closed spec fn get_fails(self) -> bool {
        self.fail_get
    }

    /// Whether `set` has been made to fail.
    pub closed spec fn set_fails(self) -> bool {
        self.fail_set
    }

    /// Whether `extend_ttl` has been made to fail.
    pub closed spec fn extend_ttl_fails(self) -> bool {
        self.fail_extend_ttl
    }

    /// All failure-injection flags keep their values from `pre` to `post`.
    pub open spec fn flags_unchanged(pre: Store, post: Store) -> bool {
        &&& post.get_fails() == pre.get_fails()
        &&& post.set_fails() == pre.set_fails()
        &&& post.extend_ttl_fails() == pre.extend_ttl_fails()
    }

    /// An entry's remaining TTL exists exactly when the entry does.
    pub proof fn lemma_ttl_presence(s: Store)
        ensures
            s.ttl() is Some <==> s.contents() is Some,
    {
    }

    /// A fresh store: no entry under the key, no injected failures.
    pub fn new() -> (s: Store)
        ensures
            s.contents() is None,
            s.ttl() is None,
            !s.get_fails(),
            !s.set_fails(),
            !s.extend_ttl_fails(),
    {
        Store {
            entry: None,
            remaining_ttl: 0,
            fail_get: false,
            fail_set: false,
            fail_extend_ttl: false,
        }
    }

    /// Reads the entry under the key: the stored bytes, or absent; never
    /// partially returns.
    pub fn get(&self) -> (r: Result<Option<&Vec<u8>>, StoreError>)
        ensures
            self.get_fails() ==> (r matches Err(e) && e == StoreError::Unavailable),
            !self.get_fails() ==> (r matches Ok(v) && opt_bytes(v) == self.contents()),
    {
        if self.fail_get {
            Err(StoreError::Unavailable)
        } else {
            match &self.entry {
                None => Ok(None),
                Some(b) => Ok(Some(b)),
            }
        }
    }

    /// Writes `bytes` under the key, overwriting atomically; on failure the
    /// entry is untouched. A fresh entry starts with no remaining TTL and must
    /// be extended to survive; an overwritten entry keeps its remaining TTL.
    pub fn set(&mut self, bytes: Vec<u8>) -> (r: Result<(), StoreError>)
        ensures
            Store::flags_unchanged(*old(self), *final(self)),
            old(self).set_fails() ==> (r matches Err(e) && e == StoreError::Unavailable
                && final(self).contents() == old(self).contents()
                && final(self).ttl() == old(self).ttl()),
            !old(self).set_fails() ==> r is Ok
                && final(self).contents() == Some(bytes@)
                && final(self).ttl() == (if old(self).contents() is Some {
                    old(self).ttl()
                } else {
                    Some(0u32)
                }),
    {
        if self.fail_set {
            Err(StoreError::Unavailable)
        } else {
            if self.entry.is_none() {
                self.remaining_ttl = 0;
            }
            self.entry = Some(bytes);
            Ok(())
        }
    }

    /// Ensures the entry survives at least `threshold` further time units:
    /// when the remaining TTL is at or below the threshold it is raised to
    /// `extend_to`; otherwise the request is a no-op, as it also is when no
    /// entry exists. On failure the entry and its TTL are untouched.
    pub fn extend_ttl(&mut self, threshold: u32, extend_to: u32) -> (r: Result<(), StoreError>)
        requires
            threshold <= extend_to,
        ensures
            Store::flags_unchanged(*old(self), *final(self)),
            final(self).contents() == old(self).contents(),
            old(self).extend_ttl_fails() ==> (r matches Err(e) && e == StoreError::Unavailable
                && final(self).ttl() == old(self).ttl()),
            !old(self).extend_ttl_fails() ==> r is Ok && final(self).ttl() == ttl_after_extend(
                old(self).ttl(),
                threshold,
                extend_to,
            ),
    {
        if self.fail_extend_ttl {
            Err(StoreError::Unavailable)
        } else {
            if self.entry.is_some() {
                if self.remaining_ttl <= threshold {
                    self.remaining_ttl = extend_to;
                }
            }
            Ok(())
        }
    }

    /// Deletes the entry under the key, if any.
    pub fn remove(&mut self)
        ensures
            Store::flags_unchanged(*old(self), *final(self)),
            final(self).contents() is None,
            final(self).ttl() is None,
    {
        self.entry = None;
        self.remaining_ttl = 0;
    }

    /// Passage of `units` time units: the entry's remaining TTL counts down,
    /// and the host evicts the entry once its TTL is exhausted.
    pub fn advance(&mut self, units: u32)
        ensures
            Store::flags_unchanged(*old(self), *final(self)),
            match old(self).ttl() {
                Option::None => final(self).contents() is None && final(self).ttl() is None,
                Option::Some(t) => if t > units {
                    final(self).contents() == old(self).contents() && final(self).ttl() == Some(
                        (t - units) as u32,
                    )
                } else {
                    final(self).contents() is None && final(self).ttl() is None
                },
            },
    {
        if self.entry.is_some() {
            if self.remaining_ttl > units {
                self.remaining_ttl = self.remaining_ttl - units;
            } else {
                self.entry = None;
                self.remaining_ttl = 0;
            }
        }
    }

    /// Makes subsequent `get` calls fail, or succeed again.
    pub fn inject_get_failure(&mut self, fail: bool)
        ensures
            final(self).get_fails() == fail,
            final(self).set_fails() == old(self).set_fails(),
            final(self).extend_ttl_fails() == old(self).extend_ttl_fails(),
            final(self).contents() == old(self).contents(),
            final(self).ttl() == old(self).ttl(),
    {
        self.fail_get = fail;
    }

    /// Makes subsequent `set` calls fail, or succeed again.
    pub fn inject_set_failure(&mut self, fail: bool)
        ensures
            final(self).set_fails() == fail,
            final(self).get_fails() == old(self).get_fails(),
            final(self).extend_ttl_fails() == old(self).extend_ttl_fails(),
            final(self).contents() == old(self).contents(),
            final(self).ttl() == old(self).ttl(),
    {
        self.fail_set = fail;
    }

    /// Makes subsequent `extend_ttl` calls fail, or succeed again.
    pub fn inject_extend_ttl_failure(&mut self, fail: bool)
        ensures
            final(self).extend_ttl_fails() == fail,
            final(self).get_fails() == old(self).get_fails(),
            final(self).set_fails() == old(self).set_fails(),
            final(self).contents() == old(self).contents(),
            final(self).ttl() == old(self).ttl(),
    {
        self.fail_extend_ttl = fail;
    }

    /// Reports the entry's remaining TTL, for observing the lifetime policy.
    pub fn remaining_ttl(&self) -> (r: Option<u32>)
        ensures
            r == self.ttl(),
    {
        if self.entry.is_some() {
            Some(self.remaining_ttl)
        } else {
            None
        }
    }
}

} // verus!
