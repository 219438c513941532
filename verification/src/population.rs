//! State population: from the outcomes of the reads made for a list of pool
//! addresses to the pool records, each populated in full or left out.

use crate::address::Address;
use crate::batch::{find_fatal, first_fatal};
use crate::errors::PoolSyncError;
use crate::pools::{admissible, distinct_addresses, Pool, PoolType};
use vstd::prelude::*;

verus! {

/// Whether `outcome` answers the request at position `i`: it is a record of
/// the protocol, populated in full, for the very address that was asked for.
pub open spec fn answers(
    pool_type: PoolType,
    requested: Seq<Address>,
    i: int,
    outcome: Result<Pool, PoolSyncError>,
) -> bool {
    &&& 0 <= i < requested.len()
    &&& outcome matches Ok(pool)
    &&& admissible(pool, pool_type)
    &&& pool.address() == requested[i]
}

/// The records that the outcomes yield: the record of every position that
/// was answered, in order.
pub open spec fn populated(
    pool_type: PoolType,
    requested: Seq<Address>,
    outcomes: Seq<Result<Pool, PoolSyncError>>,
) -> Seq<Pool>
    decreases outcomes.len(),
{
    if outcomes.len() == 0 {
        Seq::empty()
    } else {
        let before = populated(pool_type, requested, outcomes.drop_last());
        if answers(pool_type, requested, outcomes.len() - 1, outcomes.last()) {
            before.push(outcomes.last()->Ok_0)
        } else {
            before
        }
    }
}

/// How many of the requested addresses were answered.
pub open spec fn answered(
    pool_type: PoolType,
    requested: Seq<Address>,
    outcomes: Seq<Result<Pool, PoolSyncError>>,
) -> nat
    decreases outcomes.len(),
{
    if outcomes.len() == 0 {
        0
    } else {
        answered(pool_type, requested, outcomes.drop_last()) + (if answers(
            pool_type,
            requested,
            outcomes.len() - 1,
            outcomes.last(),
        ) {
            1nat
        } else {
            0nat
        })
    }
}

/// Whether `pools` is what state population yields for the outcomes.
pub open spec fn population(
    pool_type: PoolType,
    requested: Seq<Address>,
    outcomes: Seq<Result<Pool, PoolSyncError>>,
    pools: Result<Vec<Pool>, PoolSyncError>,
) -> bool {
    match pools {
        Ok(records) => first_fatal(outcomes) is None && records@ == populated(
            pool_type,
            requested,
            outcomes,
        ),
        Err(error) => first_fatal(outcomes) == Some(error),
    }
}

/// There are as many records as answered addresses and never more than were
/// asked for; each record is admissible and stands at a requested address;
/// and where no address was asked for twice, no two records share one.
pub proof fn lemma_populated(
    pool_type: PoolType,
    requested: Seq<Address>,
    outcomes: Seq<Result<Pool, PoolSyncError>>,
)
    ensures
        populated(pool_type, requested, outcomes).len() == answered(pool_type, requested, outcomes),
        answered(pool_type, requested, outcomes) <= outcomes.len(),
        answered(pool_type, requested, outcomes) <= requested.len(),
        forall|k: int|
            0 <= k < populated(pool_type, requested, outcomes).len() ==> {
                let pool = #[trigger] populated(pool_type, requested, outcomes)[k];
                &&& admissible(pool, pool_type)
                &&& exists|i: int|
                    0 <= i < requested.len() && i < outcomes.len() && #[trigger] requested[i]
                        == pool.address()
            },
        requested.no_duplicates() ==> distinct_addresses(
            populated(pool_type, requested, outcomes),
        ),
    decreases outcomes.len(),
{
    let result = populated(pool_type, requested, outcomes);
    if outcomes.len() > 0 {
        let shorter = outcomes.drop_last();
        let before = populated(pool_type, requested, shorter);
        let last = outcomes.len() - 1;
        lemma_populated(pool_type, requested, shorter);
        assert forall|k: int| 0 <= k < result.len() implies {
            let pool = #[trigger] result[k];
            &&& admissible(pool, pool_type)
            &&& exists|i: int|
                0 <= i < requested.len() && i < outcomes.len() && #[trigger] requested[i]
                    == pool.address()
        } by {
            if k < before.len() {
                assert(result[k] == before[k]);
                let i = choose|i: int|
                    0 <= i < requested.len() && i < shorter.len() && #[trigger] requested[i]
                        == before[k].address();
                assert(requested[i] == result[k].address());
            } else {
                assert(requested[last] == result[k].address());
            }
        }
        if requested.no_duplicates() {
            assert forall|a: int, b: int| 0 <= a < b < result.len() implies
                (#[trigger] result[a]).address() != (#[trigger] result[b]).address() by {
                if b < before.len() {
                    assert(result[a] == before[a] && result[b] == before[b]);
                } else {
                    assert(result[a] == before[a]);
                    let i = choose|i: int|
                        0 <= i < requested.len() && i < shorter.len() && #[trigger] requested[i]
                            == before[a].address();
                    assert(requested[last] == result[b].address());
                }
            }
        }
        lemma_answered_bound(pool_type, requested, outcomes);
    }
}

/// No more addresses are answered than were asked for or than outcomes came
/// back.
pub proof fn lemma_answered_bound(
    pool_type: PoolType,
    requested: Seq<Address>,
    outcomes: Seq<Result<Pool, PoolSyncError>>,
)
    ensures
        answered(pool_type, requested, outcomes) <= outcomes.len(),
        answered(pool_type, requested, outcomes) <= requested.len(),
    decreases outcomes.len(),
{
    if outcomes.len() > 0 {
        lemma_answered_bound(pool_type, requested, outcomes.drop_last());
    }
}

/// State population over the outcomes of the reads made for `requested`.
///
/// `outcomes` holds one outcome per requested address, in the same order. A
/// record enters the result only if it belongs to the protocol, is populated
/// in full and stands at the address that was asked for at its position; a
/// pool whose read failed or gave anything else is left out. A failure that
/// is not local to one pool stops the stage and is returned, the earliest
/// one first.
pub fn populate(
    pool_type: PoolType,
    requested: &Vec<Address>,
    outcomes: Vec<Result<Pool, PoolSyncError>>,
) -> (r: Result<Vec<Pool>, PoolSyncError>)
    ensures
        population(pool_type, requested@, outcomes@, r),
        r matches Ok(pools) ==> {
            &&& pools@.len() == answered(pool_type, requested@, outcomes@)
            &&& pools@.len() <= requested@.len()
            &&& forall|k: int| 0 <= k < pools@.len() ==> admissible(#[trigger] pools@[k], pool_type)
            &&& requested@.no_duplicates() ==> distinct_addresses(pools@)
        },
{
    if let Some(error) = find_fatal(&outcomes) {
        return Err(error);
    }
    let ghost all = outcomes@;
    let total: usize = outcomes.len();
    let mut pools: Vec<Pool> = Vec::new();
    let mut i: usize = 0;
    for outcome in it: outcomes
        invariant
            it.seq() == all,
            all.len() == total,
            i == it.index(),
            pools@ == populated(pool_type, requested@, all.take(i as int)),
    {
        proof {
            let upto = all.take(i + 1);
            assert(upto.drop_last() == all.take(i as int));
            assert(upto.last() == outcome);
        }
        if let Ok(pool) = outcome {
            if i < requested.len() && pool.pool_type() == pool_type && pool.is_complete()
                && pool.address() == requested[i] {
                pools.push(pool);
            }
        }
        i += 1;
    }
    proof {
        assert(all.take(all.len() as int) == all);
        lemma_populated(pool_type, requested@, all);
    }
    Ok(pools)
}

/// State population is all or nothing for each pool: the result holds one
/// record for each answered address and none for any other, so where some
/// reads failed it is shorter than the request by exactly their number.
pub proof fn law_population_counts_successes(
    pool_type: PoolType,
    requested: Seq<Address>,
    outcomes: Seq<Result<Pool, PoolSyncError>>,
    pools: Result<Vec<Pool>, PoolSyncError>,
)
    requires
        population(pool_type, requested, outcomes, pools),
        pools is Ok,
    ensures
        pools->Ok_0@.len() == answered(pool_type, requested, outcomes),
        pools->Ok_0@.len() <= requested.len(),
        forall|k: int|
            0 <= k < pools->Ok_0@.len() ==> (#[trigger] pools->Ok_0@[k]).complete(),
{
    lemma_populated(pool_type, requested, outcomes);
}

} // verus!
