//! Address discovery: from the decoded creation logs of a block range to the
//! pool addresses that are new.

use crate::address::Address;
use crate::batch::{count_failures, failures, find_fatal, first_fatal};
use crate::errors::PoolSyncError;
use crate::pools::{find_address, holds_address, Pool};
use vstd::prelude::*;

verus! {

/// The addresses that `decoded` brings to light: each decoded address, in
/// the order of its first occurrence, unless a pool of `known` stands there.
pub open spec fn fresh_addresses(
    decoded: Seq<Result<Address, PoolSyncError>>,
    known: Seq<Pool>,
) -> Seq<Address>
    decreases decoded.len(),
{
    if decoded.len() == 0 {
        Seq::empty()
    } else {
        let before = fresh_addresses(decoded.drop_last(), known);
        match decoded.last() {
            Ok(address) => if holds_address(known, address) || before.contains(address) {
                before
            } else {
                before.push(address)
            },
            Err(_) => before,
        }
    }
}

/// What address discovery found in one block range.
#[derive(Clone, Debug, PartialEq, Eq)]
pub struct Discovery {
    /// The new pool addresses, each once, in the order in which they appeared.
    pub addresses: Vec<Address>,
    /// How many logs could not be decoded and were dropped.
    pub dropped: usize,
}

/// Whether `found` is what address discovery yields for `decoded`, given the
/// pools in `known`.
pub open spec fn discovered(
    decoded: Seq<Result<Address, PoolSyncError>>,
    known: Seq<Pool>,
    found: Result<Discovery, PoolSyncError>,
) -> bool {
    match found {
        Ok(discovery) => {
            &&& first_fatal(decoded) is None
            &&& discovery.addresses@ == fresh_addresses(decoded, known)
            &&& discovery.dropped == failures(decoded)
        },
        Err(error) => first_fatal(decoded) == Some(error),
    }
}

/// The discovered addresses are pairwise distinct, none of them is known
/// already, each was decoded from some log, and every decoded address that
/// is not known is among them.
pub proof fn lemma_fresh_addresses(decoded: Seq<Result<Address, PoolSyncError>>, known: Seq<Pool>)
    ensures
        fresh_addresses(decoded, known).no_duplicates(),
        fresh_addresses(decoded, known).len() <= decoded.len(),
        forall|address: Address| #[trigger]
            fresh_addresses(decoded, known).contains(address) <==> (!holds_address(known, address)
                && decoded.contains(Ok(address))),
    decreases decoded.len(),
{
    let result = fresh_addresses(decoded, known);
    if decoded.len() > 0 {
        let shorter = decoded.drop_last();
        let before = fresh_addresses(shorter, known);
        lemma_fresh_addresses(shorter, known);
        assert forall|address: Address| #[trigger]
            result.contains(address) <==> (!holds_address(known, address) && decoded.contains(
                Ok(address),
            )) by {
            if decoded.contains(Ok(address)) {
                let i = choose|i: int| 0 <= i < decoded.len() && decoded[i] == Ok::<
                    Address,
                    PoolSyncError,
                >(address);
                if i < shorter.len() {
                    assert(shorter[i] == decoded[i]);
                    assert(shorter.contains(Ok(address)));
                }
            }
            if shorter.contains(Ok(address)) {
                let i = choose|i: int| 0 <= i < shorter.len() && shorter[i] == Ok::<
                    Address,
                    PoolSyncError,
                >(address);
                assert(decoded[i] == shorter[i]);
            }
            if before.contains(address) {
                let w = choose|w: int| 0 <= w < before.len() && before[w] == address;
                assert(result[w] == address);
            }
            if result.contains(address) && !before.contains(address) {
                let w = choose|w: int| 0 <= w < result.len() && result[w] == address;
                assert(w == before.len());
                assert(decoded[decoded.len() - 1] == Ok::<Address, PoolSyncError>(address));
            }
            if decoded.last() == Ok::<Address, PoolSyncError>(address) && !holds_address(
                known,
                address,
            ) && !before.contains(address) {
                assert(result[before.len() as int] == address);
            }
        }
    }
}

/// Tells whether `address` is among `addresses`.
pub fn listed(addresses: &Vec<Address>, address: Address) -> (r: bool)
    ensures
        r == addresses@.contains(address),
{
    let mut i: usize = 0;
    while i < addresses.len()
        invariant
            i <= addresses.len(),
            forall|j: int| 0 <= j < i ==> addresses@[j] != address,
        decreases addresses.len() - i,
    {
        if addresses[i] == address {
            return true;
        }
        i += 1;
    }
    false
}

/// Address discovery over the decoded creation logs of one block range.
///
/// `decoded` holds one outcome per log, in the order of the logs. A log that
/// could not be decoded is dropped and counted. Any other failure stops the
/// stage and is returned, the earliest one first. Otherwise the result lists
/// every decoded address at which no pool of `known` stands, once each, in
/// the order of first appearance.
pub fn discover(decoded: &Vec<Result<Address, PoolSyncError>>, known: &Vec<Pool>) -> (r: Result<
    Discovery,
    PoolSyncError,
>)
    ensures
        discovered(decoded@, known@, r),
        r matches Ok(discovery) ==> {
            &&& discovery.addresses@.no_duplicates()
            &&& forall|address: Address| #[trigger]
                discovery.addresses@.contains(address) <==> (!holds_address(known@, address)
                    && decoded@.contains(Ok(address)))
        },
{
    if let Some(error) = find_fatal(decoded) {
        return Err(error);
    }
    let dropped = count_failures(decoded);
    let mut addresses: Vec<Address> = Vec::new();
    let mut i: usize = 0;
    while i < decoded.len()
        invariant
            i <= decoded.len(),
            addresses@ == fresh_addresses(decoded@.take(i as int), known@),
        decreases decoded.len() - i,
    {
        proof {
            let upto = decoded@.take(i + 1);
            assert(upto.drop_last() == decoded@.take(i as int));
            assert(upto.last() == decoded@[i as int]);
        }
        if let Ok(address) = &decoded[i] {
            if !find_address(known, *address) && !listed(&addresses, *address) {
                addresses.push(*address);
            }
        }
        i += 1;
    }
    proof {
        assert(decoded@.take(decoded.len() as int) == decoded@);
        lemma_fresh_addresses(decoded@, known@);
    }
    Ok(Discovery { addresses, dropped })
}

/// Address discovery is idempotent: run twice over the same decoded logs
/// with the same known pools, it yields the same addresses and the same
/// count of dropped logs, or fails with the same error.
pub proof fn law_discovery_idempotent(
    decoded: Seq<Result<Address, PoolSyncError>>,
    known: Seq<Pool>,
    first: Result<Discovery, PoolSyncError>,
    second: Result<Discovery, PoolSyncError>,
)
    requires
        discovered(decoded, known, first),
        discovered(decoded, known, second),
    ensures
        first is Ok <==> second is Ok,
        first is Ok ==> first->Ok_0.addresses@ == second->Ok_0.addresses@
            && first->Ok_0.dropped == second->Ok_0.dropped,
        first is Err ==> first->Err_0 == second->Err_0,
{
}

/// The set of discovered addresses depends only on which addresses the logs
/// hold, not on their order or on how often one occurs.
pub proof fn law_discovery_ignores_order(
    first: Seq<Result<Address, PoolSyncError>>,
    second: Seq<Result<Address, PoolSyncError>>,
    known: Seq<Pool>,
)
    requires
        forall|address: Address|
            first.contains(Ok(address)) <==> second.contains(Ok(address)),
    ensures
        fresh_addresses(first, known).to_set() == fresh_addresses(second, known).to_set(),
{
    lemma_fresh_addresses(first, known);
    lemma_fresh_addresses(second, known);
    let one = fresh_addresses(first, known);
    let other = fresh_addresses(second, known);
    assert forall|address: Address| one.to_set().contains(address) <==> other.to_set().contains(
        address,
    ) by {
        assert(one.contains(address) <==> other.contains(address));
    }
    assert(one.to_set() =~= other.to_set());
}

/// Once the discovered addresses are known, the same logs bring nothing new
/// to light: whatever pools stand at them, discovery finds no address.
pub proof fn law_discovery_settles(
    decoded: Seq<Result<Address, PoolSyncError>>,
    known: Seq<Pool>,
    later: Seq<Pool>,
)
    requires
        forall|address: Address|
            holds_address(known, address) || fresh_addresses(decoded, known).contains(address)
                ==> holds_address(later, address),
    ensures
        fresh_addresses(decoded, later).len() == 0,
{
    lemma_fresh_addresses(decoded, known);
    lemma_fresh_addresses(decoded, later);
    let again = fresh_addresses(decoded, later);
    if again.len() > 0 {
        let address = again[0];
        assert(again.contains(address));
        assert(decoded.contains(Ok(address)));
        assert(holds_address(known, address) || fresh_addresses(decoded, known).contains(address));
    }
}

} // verus!
