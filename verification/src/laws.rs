//! Laws of the counter service, stated over the transition relation that
//! `increment`'s contract establishes and proved once for all stores.

use vstd::prelude::*;

use crate::codec::le_bytes_of;
use crate::codec::lemma_le_round_trip;
use crate::counter::TTL_EXTEND_TO;
use crate::counter::TTL_THRESHOLD;
use crate::counter::entry_decodable;
use crate::counter::increment_ok_transition;
use crate::counter::logical_value;
use crate::store::Store;

verus! {

/// After a chain of `k` successful calls from a store with no entry, the
/// persisted counter reads exactly `k`.
proof fn lemma_value_after_chain(stores: Seq<Store>, values: Seq<u32>, k: int)
    requires
        stores.len() == values.len() + 1,
        stores[0].contents() is None,
        forall|i: int|
            0 <= i < values.len() ==> increment_ok_transition(
                stores[i],
                stores[i + 1],
                #[trigger] values[i],
            ),
        0 <= k <= values.len(),
    ensures
        entry_decodable(stores[k].contents()),
        logical_value(stores[k].contents()) == k,
    decreases k,
{
    if k > 0 {
        lemma_value_after_chain(stores, values, k - 1);
        assert(increment_ok_transition(stores[k - 1], stores[k], values[k - 1]));
        lemma_le_round_trip(values[k - 1]);
    }
}

/// Monotonic increment: starting from a store with no entry, a chain of
/// successful `increment` calls returns exactly `1, 2, 3, ...`, in order.
pub proof fn lemma_monotonic_increment(stores: Seq<Store>, values: Seq<u32>)
    requires
        stores.len() == values.len() + 1,
        stores[0].contents() is None,
        forall|i: int|
            0 <= i < values.len() ==> increment_ok_transition(
                stores[i],
                stores[i + 1],
                #[trigger] values[i],
            ),
    ensures
        forall|i: int| 0 <= i < values.len() ==> #[trigger] values[i] == i + 1,
{
    assert forall|i: int| 0 <= i < values.len() implies #[trigger] values[i] == i + 1 by {
        lemma_value_after_chain(stores, values, i);
    }
}

/// A counter that was never written reads as absent, and the first call
/// treats the absent entry as zero: it returns one and persists one.
pub proof fn lemma_first_increment(pre: Store, post: Store, ret: u32)
    requires
        pre.contents() is None,
        increment_ok_transition(pre, post, ret),
    ensures
        ret == 1,
        post.contents() == Some(le_bytes_of(1u32)),
{
}

/// TTL watermark: a successful call leaves the entry's remaining TTL at least
/// at the threshold; a remaining TTL already above the threshold — so in
/// particular one above the extension horizon — is left untouched, and a
/// fresh or lapsing entry is extended exactly to the horizon.
pub proof fn lemma_ttl_watermark(pre: Store, post: Store, ret: u32)
    requires
        increment_ok_transition(pre, post, ret),
    ensures
        post.ttl() matches Some(t) && t >= TTL_THRESHOLD,
        match pre.ttl() {
            Option::Some(t) => if t > TTL_THRESHOLD {
                post.ttl() == Some(t)
            } else {
                post.ttl() == Some(TTL_EXTEND_TO)
            },
            Option::None => post.ttl() == Some(TTL_EXTEND_TO),
        },
{
}

} // verus!
