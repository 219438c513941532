//! The snapshot of what is known about one protocol on one network.

use crate::address::Address;
use crate::batch::{find_fatal, first_fatal};
use crate::errors::PoolSyncError;
use crate::pools::{admissible, distinct_addresses, find_address, holds_address, Pool, PoolType};
use vstd::prelude::*;

verus! {

/// What has been synchronized for one protocol: the pools found so far and
/// the last block up to which they were looked for.
#[derive(Clone, Debug, PartialEq, Eq)]
pub struct PoolCache {
    /// The protocol of the pools.
    pub pool_type: PoolType,
    /// The watermark: every block up to this one has been synchronized.
    pub last_synced_block: u64,
    /// Whether the protocol has never been synchronized.
    pub is_initial_sync: bool,
    /// The pools known so far.
    pub pools: Vec<Pool>,
}

/// What `pools` becomes when `incoming` is merged into it: each incoming
/// record, in order, is added unless it is inadmissible or a pool already
/// stands at its address.
pub open spec fn merged(pools: Seq<Pool>, incoming: Seq<Pool>, pool_type: PoolType) -> Seq<Pool>
    decreases incoming.len(),
{
    if incoming.len() == 0 {
        pools
    } else {
        let before = merged(pools, incoming.drop_last(), pool_type);
        let pool = incoming.last();
        if admissible(pool, pool_type) && !holds_address(before, pool.address()) {
            before.push(pool)
        } else {
            before
        }
    }
}

/// Whether every pool of `pools` may stand in the collection of `pool_type`
/// and no two of them share an address.
pub open spec fn valid_collection(pools: Seq<Pool>, pool_type: PoolType) -> bool {
    &&& forall|i: int| 0 <= i < pools.len() ==> admissible(#[trigger] pools[i], pool_type)
    &&& distinct_addresses(pools)
}

/// Whether `outcome` renews the pool at position `i`: it is a record of the
/// protocol, populated in full, for the address of that pool.
pub open spec fn renews(
    pools: Seq<Pool>,
    pool_type: PoolType,
    i: int,
    outcome: Result<Pool, PoolSyncError>,
) -> bool {
    &&& 0 <= i < pools.len()
    &&& outcome matches Ok(pool)
    &&& admissible(pool, pool_type)
    &&& pool.address() == pools[i].address()
}

/// What `pools` becomes when the outcomes of re-reading it are applied: the
/// pool at each position is replaced by the record that renews it, and kept
/// where the outcome is missing, failed or is no such record.
pub open spec fn refreshed(
    pools: Seq<Pool>,
    outcomes: Seq<Result<Pool, PoolSyncError>>,
    pool_type: PoolType,
) -> Seq<Pool> {
    Seq::new(
        pools.len(),
        |i: int|
            if i < outcomes.len() && renews(pools, pool_type, i, outcomes[i]) {
                outcomes[i]->Ok_0
            } else {
                pools[i]
            },
    )
}

/// The addresses of `pools`, in order.
pub open spec fn addresses_of(pools: Seq<Pool>) -> Seq<Address> {
    pools.map_values(|pool: Pool| pool.address())
}

/// Merging keeps what was there in its place, keeps a valid collection valid,
/// and yields only pools that were there or came in.
pub proof fn lemma_merged(pools: Seq<Pool>, incoming: Seq<Pool>, pool_type: PoolType)
    ensures
        pools.len() <= merged(pools, incoming, pool_type).len() <= pools.len() + incoming.len(),
        merged(pools, incoming, pool_type).take(pools.len() as int) == pools,
        valid_collection(pools, pool_type) ==> valid_collection(
            merged(pools, incoming, pool_type),
            pool_type,
        ),
        forall|k: int|
            pools.len() <= k < merged(pools, incoming, pool_type).len() ==> incoming.contains(
                #[trigger] merged(pools, incoming, pool_type)[k],
            ),
        forall|i: int|
            0 <= i < incoming.len() && admissible(#[trigger] incoming[i], pool_type)
                ==> holds_address(merged(pools, incoming, pool_type), incoming[i].address()),
    decreases incoming.len(),
{
    let result = merged(pools, incoming, pool_type);
    if incoming.len() == 0 {
        assert(result.take(pools.len() as int) == pools);
    } else {
        let shorter = incoming.drop_last();
        let before = merged(pools, shorter, pool_type);
        let pool = incoming.last();
        lemma_merged(pools, shorter, pool_type);
        assert(result.take(pools.len() as int) == before.take(pools.len() as int));
        assert forall|k: int| pools.len() <= k < result.len() implies incoming.contains(
            #[trigger] result[k],
        ) by {
            if k < before.len() {
                assert(shorter.contains(before[k]));
                let w = choose|w: int| 0 <= w < shorter.len() && shorter[w] == before[k];
                assert(incoming[w] == before[k]);
            } else {
                assert(incoming[incoming.len() - 1] == result[k]);
            }
        }
        assert forall|i: int|
            0 <= i < incoming.len() && admissible(
                #[trigger] incoming[i],
                pool_type,
            ) implies holds_address(result, incoming[i].address()) by {
            if i < shorter.len() {
                assert(shorter[i] == incoming[i]);
                assert(holds_address(before, incoming[i].address()));
                let w = choose|w: int|
                    0 <= w < before.len() && (#[trigger] before[w]).address()
                        == incoming[i].address();
                assert(result[w] == before[w]);
            } else if holds_address(before, pool.address()) {
                let w = choose|w: int|
                    0 <= w < before.len() && (#[trigger] before[w]).address() == pool.address();
                assert(result[w] == before[w]);
            } else {
                assert(result[before.len() as int] == pool);
            }
        }
    }
}

/// Tells whether every pool of `pools` may stand in the collection of
/// `pool_type` and no two of them share an address.
pub fn check_collection(pools: &Vec<Pool>, pool_type: PoolType) -> (r: bool)
    ensures
        r == valid_collection(pools@, pool_type),
{
    let mut i: usize = 0;
    while i < pools.len()
        invariant
            i <= pools.len(),
            valid_collection(pools@.take(i as int), pool_type),
        decreases pools.len() - i,
    {
        let ghost checked = pools@.take(i as int);
        let mut seen: bool = false;
        let mut j: usize = 0;
        while j < i
            invariant
                j <= i < pools.len(),
                seen == exists|k: int|
                    0 <= k < j && (#[trigger] pools@[k]).address() == pools@[i as int].address(),
            decreases i - j,
        {
            if pools[j].address() == pools[i].address() {
                seen = true;
            }
            j += 1;
        }
        if seen || pools[i].pool_type() != pool_type || !pools[i].is_complete() {
            proof {
                if seen {
                    let k = choose|k: int|
                        0 <= k < i && (#[trigger] pools@[k]).address()
                            == pools@[i as int].address();
                    assert(pools@[k].address() == pools@[i as int].address());
                }
            }
            return false;
        }
        proof {
            let upto = pools@.take(i + 1);
            assert forall|k: int| 0 <= k < upto.len() implies admissible(
                #[trigger] upto[k],
                pool_type,
            ) by {
                if k < i {
                    assert(checked[k] == upto[k]);
                }
            }
            assert forall|a: int, b: int| 0 <= a < b < upto.len() implies
                (#[trigger] upto[a]).address() != (#[trigger] upto[b]).address() by {
                if b < i {
                    assert(checked[a] == upto[a] && checked[b] == upto[b]);
                } else {
                    assert(pools@[a].address() != pools@[i as int].address());
                }
            }
        }
        i += 1;
    }
    proof {
        assert(pools@.take(pools.len() as int) == pools@);
    }
    true
}

impl PoolCache {
    /// The pools all belong to the protocol, are populated in full, and stand
    /// at distinct addresses.
    pub open spec fn wf(&self) -> bool {
        valid_collection(self.pools@, self.pool_type)
    }

    /// The snapshot of a protocol that has never been synchronized.
    pub fn new(pool_type: PoolType) -> (r: PoolCache)
        ensures
            r.wf(),
            r.pool_type == pool_type,
            r.last_synced_block == 0,
            r.is_initial_sync,
            r.pools@ == Seq::<Pool>::empty(),
    {
        PoolCache { pool_type, last_synced_block: 0, is_initial_sync: true, pools: Vec::new() }
    }

    /// Takes up a snapshot that was stored earlier. The snapshot is refused
    /// with `IoError` unless its pools all belong to the protocol, are
    /// populated in full and stand at distinct addresses.
    pub fn restore(
        pool_type: PoolType,
        last_synced_block: u64,
        is_initial_sync: bool,
        pools: Vec<Pool>,
    ) -> (r: Result<PoolCache, PoolSyncError>)
        ensures
            match r {
                Ok(cache) => {
                    &&& valid_collection(pools@, pool_type)
                    &&& cache.wf()
                    &&& cache.pool_type == pool_type
                    &&& cache.last_synced_block == last_synced_block
                    &&& cache.is_initial_sync == is_initial_sync
                    &&& cache.pools@ == pools@
                },
                Err(error) => error == PoolSyncError::IoError && !valid_collection(
                    pools@,
                    pool_type,
                ),
            },
    {
        if !check_collection(&pools, pool_type) {
            return Err(PoolSyncError::IoError);
        }
        Ok(PoolCache { pool_type, last_synced_block, is_initial_sync, pools })
    }

    /// Lists the addresses of the pools of the snapshot, in order.
    pub fn addresses(&self) -> (r: Vec<Address>)
        ensures
            r@ == addresses_of(self.pools@),
            self.wf() ==> r@.no_duplicates(),
    {
        let mut list: Vec<Address> = Vec::new();
        let mut i: usize = 0;
        while i < self.pools.len()
            invariant
                i <= self.pools.len(),
                list@ == addresses_of(self.pools@.take(i as int)),
            decreases self.pools.len() - i,
        {
            list.push(self.pools[i].address());
            proof {
                assert(self.pools@.take(i + 1) == self.pools@.take(i as int).push(
                    self.pools@[i as int],
                ));
            }
            i += 1;
        }
        proof {
            assert(self.pools@.take(self.pools.len() as int) == self.pools@);
        }
        list
    }

    /// Tells whether a pool of the snapshot stands at `address`.
    pub fn contains(&self, address: Address) -> (r: bool)
        ensures
            r == holds_address(self.pools@, address),
    {
        find_address(&self.pools, address)
    }

    /// Merges newly populated pools into the snapshot. A record is added at
    /// the end unless it is inadmissible or a pool of the snapshot, or an
    /// earlier record, already stands at its address.
    pub fn merge(&mut self, incoming: Vec<Pool>)
        requires
            old(self).wf(),
        ensures
            final(self).wf(),
            final(self).pools@ == merged(old(self).pools@, incoming@, old(self).pool_type),
            final(self).pools@.take(old(self).pools@.len() as int) == old(self).pools@,
            final(self).pools@.len() <= old(self).pools@.len() + incoming@.len(),
            forall|i: int|
                0 <= i < incoming@.len() && admissible(
                    #[trigger] incoming@[i],
                    old(self).pool_type,
                ) ==> holds_address(final(self).pools@, incoming@[i].address()),
            final(self).pool_type == old(self).pool_type,
            final(self).last_synced_block == old(self).last_synced_block,
            final(self).is_initial_sync == old(self).is_initial_sync,
    {
        let ghost before = self.pools@;
        let ghost all = incoming@;
        let ghost pool_type = self.pool_type;
        for pool in it: incoming
            invariant
                it.seq() == all,
                self.pools@ == merged(before, all.take(it.index() as int), pool_type),
                self.pool_type == pool_type,
                self.last_synced_block == old(self).last_synced_block,
                self.is_initial_sync == old(self).is_initial_sync,
        {
            proof {
                let upto = all.take(it.index() + 1);
                assert(upto.drop_last() == all.take(it.index() as int));
                assert(upto.last() == pool);
            }
            if pool.pool_type() == self.pool_type && pool.is_complete() && !find_address(
                &self.pools,
                pool.address(),
            ) {
                self.pools.push(pool);
            }
        }
        proof {
            assert(all.take(all.len() as int) == all);
            lemma_merged(before, all, pool_type);
        }
    }

    /// Applies the outcomes of re-reading the pools of the snapshot, one
    /// outcome per pool and in the order of the pools. A pool is replaced by
    /// the record that renews it and kept otherwise. A failure that is not
    /// local to one pool is returned, the earliest one first, and the
    /// snapshot is then left as it was.
    pub fn refresh(&mut self, outcomes: Vec<Result<Pool, PoolSyncError>>) -> (r: Result<
        (),
        PoolSyncError,
    >)
        requires
            old(self).wf(),
        ensures
            final(self).wf(),
            final(self).pool_type == old(self).pool_type,
            final(self).last_synced_block == old(self).last_synced_block,
            final(self).is_initial_sync == old(self).is_initial_sync,
            addresses_of(final(self).pools@) == addresses_of(old(self).pools@),
            match r {
                Ok(_) => first_fatal(outcomes@) is None && final(self).pools@ == refreshed(
                    old(self).pools@,
                    outcomes@,
                    old(self).pool_type,
                ),
                Err(error) => first_fatal(outcomes@) == Some(error) && final(self).pools@ == old(
                    self,
                ).pools@,
            },
    {
        if let Some(error) = find_fatal(&outcomes) {
            return Err(error);
        }
        let ghost before = self.pools@;
        let ghost all = outcomes@;
        let ghost pool_type = self.pool_type;
        let total: usize = outcomes.len();
        let mut i: usize = 0;
        for outcome in it: outcomes
            invariant
                it.seq() == all,
                all.len() == total,
                i == it.index(),
                self.pool_type == pool_type,
                self.last_synced_block == old(self).last_synced_block,
                self.is_initial_sync == old(self).is_initial_sync,
                self.pools@.len() == before.len(),
                forall|k: int|
                    0 <= k < before.len() ==> #[trigger] self.pools@[k] == (if k < i && renews(
                        before,
                        pool_type,
                        k,
                        all[k],
                    ) {
                        all[k]->Ok_0
                    } else {
                        before[k]
                    }),
        {
            if let Ok(pool) = outcome {
                if i < self.pools.len() && pool.pool_type() == self.pool_type && pool.is_complete()
                    && pool.address() == self.pools[i].address() {
                    self.pools.set(i, pool);
                }
            }
            i += 1;
        }
        proof {
            let after = self.pools@;
            assert(after =~= refreshed(before, all, pool_type));
            assert(addresses_of(after) =~= addresses_of(before));
            assert forall|a: int, b: int| 0 <= a < b < after.len() implies
                (#[trigger] after[a]).address() != (#[trigger] after[b]).address() by {
                assert(before[a].address() != before[b].address());
            }
        }
        Ok(())
    }

    /// Moves the watermark up to `head` and records that the protocol has
    /// been synchronized at least once.
    pub fn advance(&mut self, head: u64)
        requires
            old(self).last_synced_block <= head,
        ensures
            final(self).last_synced_block == head,
            !final(self).is_initial_sync,
            final(self).pool_type == old(self).pool_type,
            final(self).pools@ == old(self).pools@,
    {
        self.last_synced_block = head;
        self.is_initial_sync = false;
    }
}

/// Merging a record whose address is already taken adds nothing: the
/// collection is left exactly as it was.
pub proof fn law_merge_known_address(pools: Seq<Pool>, pool: Pool, pool_type: PoolType)
    requires
        holds_address(pools, pool.address()),
    ensures
        merged(pools, seq![pool], pool_type) == pools,
        merged(pools, seq![pool], pool_type).len() == pools.len(),
{
    let incoming = seq![pool];
    assert(incoming.drop_last() =~= Seq::<Pool>::empty());
    assert(merged(pools, incoming.drop_last(), pool_type) == pools);
    assert(incoming.last() == pool);
}

/// Merging records whose addresses are all taken already adds nothing.
pub proof fn law_merge_known_addresses(pools: Seq<Pool>, incoming: Seq<Pool>, pool_type: PoolType)
    requires
        forall|i: int|
            0 <= i < incoming.len() ==> holds_address(pools, (#[trigger] incoming[i]).address()),
    ensures
        merged(pools, incoming, pool_type) == pools,
    decreases incoming.len(),
{
    if incoming.len() > 0 {
        let shorter = incoming.drop_last();
        assert forall|i: int| 0 <= i < shorter.len() implies holds_address(
            pools,
            (#[trigger] shorter[i]).address(),
        ) by {
            assert(shorter[i] == incoming[i]);
        }
        law_merge_known_addresses(pools, shorter, pool_type);
        assert(incoming.last() == incoming[incoming.len() - 1]);
    }
}

/// After a merge no two pools of a valid collection share an address,
/// whatever came in.
pub proof fn law_merge_keeps_addresses_distinct(
    pools: Seq<Pool>,
    incoming: Seq<Pool>,
    pool_type: PoolType,
)
    requires
        valid_collection(pools, pool_type),
    ensures
        distinct_addresses(merged(pools, incoming, pool_type)),
{
    lemma_merged(pools, incoming, pool_type);
}

} // verus!
