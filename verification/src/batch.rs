//! Bounded batches of work and the outcomes that come back for them.
//!
//! Calls to a node are issued in groups. The caller issues the calls of one
//! group together and waits for all of them before it starts the next group,
//! so with groups of at most `ceiling` items no more than `ceiling` calls are
//! ever in flight. Every item gets an outcome of its own: a failure to decode
//! one item is local to it, and any other failure stops the stage.

use crate::errors::PoolSyncError;
use vstd::prelude::*;

verus! {

/// How many groups of at most `ceiling` items hold `count` items.
pub open spec fn group_count(count: nat, ceiling: nat) -> nat {
    if ceiling == 0 {
        0
    } else {
        ((count + ceiling - 1) / (ceiling as int)) as nat
    }
}

/// The items of all groups, in order.
pub open spec fn flattened<T>(groups: Seq<Vec<T>>) -> Seq<T> {
    groups.flat_map(|group: Vec<T>| group@)
}

/// Whether `groups` splits `items` into consecutive groups of `ceiling`
/// items each, but for the last group, which holds what is left.
pub open spec fn partitions<T>(groups: Seq<Vec<T>>, items: Seq<T>, ceiling: nat) -> bool {
    &&& flattened(groups) == items
    &&& groups.len() == group_count(items.len(), ceiling)
    &&& forall|k: int| 0 <= k < groups.len() ==> 1 <= (#[trigger] groups[k])@.len() <= ceiling
    &&& forall|k: int| 0 <= k < groups.len() - 1 ==> (#[trigger] groups[k])@.len() == ceiling
}

/// Splits `items` into consecutive groups of `ceiling` items; the last group
/// holds what is left. No item is lost, repeated or moved.
pub fn partition<T: Copy>(items: &Vec<T>, ceiling: usize) -> (groups: Vec<Vec<T>>)
    requires
        ceiling > 0,
    ensures
        partitions(groups@, items@, ceiling as nat),
{
    let mut groups: Vec<Vec<T>> = Vec::new();
    let mut start: usize = 0;
    let total: usize = items.len();
    let ghost unfold = |group: Vec<T>| group@;
    assert(flattened(groups@) == items@.take(0)) by {
        assert(groups@.flat_map(unfold) =~= Seq::<T>::empty());
    }
    assert(group_count(0, ceiling as nat) == 0) by (nonlinear_arith)
        requires
            ceiling > 0,
    ;
    assert(groups.len() * ceiling == 0) by (nonlinear_arith)
        requires
            groups.len() == 0,
    ;
    while start < total
        invariant
            total == items.len(),
            ceiling > 0,
            start <= total,
            unfold == |group: Vec<T>| group@,
            flattened(groups@) == items@.take(start as int),
            start < total ==> start == groups.len() * ceiling,
            start == total ==> groups.len() == group_count(total as nat, ceiling as nat),
            forall|k: int| 0 <= k < groups.len() ==> 1 <= (#[trigger] groups[k])@.len() <= ceiling,
            start < total ==> forall|k: int|
                0 <= k < groups.len() ==> (#[trigger] groups[k])@.len() == ceiling,
            start == total ==> forall|k: int|
                0 <= k < groups.len() - 1 ==> (#[trigger] groups[k])@.len() == ceiling,
        decreases total - start,
    {
        let end: usize = if total - start > ceiling {
            start + ceiling
        } else {
            total
        };
        let mut group: Vec<T> = Vec::new();
        let mut at: usize = start;
        while at < end
            invariant
                start <= at <= end <= total,
                total == items.len(),
                group@ == items@.subrange(start as int, at as int),
            decreases end - at,
        {
            group.push(items[at]);
            at += 1;
        }
        proof {
            let before = groups@;
            before.lemma_flat_map_push(unfold, group);
            assert(items@.take(start as int) + items@.subrange(start as int, end as int)
                == items@.take(end as int));
            let k = before.len() as int;
            let c = ceiling as int;
            let n = total as int;
            assert((k + 1) * c == k * c + c) by (nonlinear_arith);
            if end == total {
                assert((n + c - 1) / c == k + 1) by (nonlinear_arith)
                    requires
                        k * c < n,
                        n <= k * c + c,
                        c > 0,
                        k >= 0,
                ;
            }
        }
        groups.push(group);
        start = end;
    }
    proof {
        assert(items@.take(total as int) == items@);
    }
    groups
}

/// Whether an outcome is a failure that stops the stage it occurs in.
pub open spec fn is_fatal<T>(outcome: Result<T, PoolSyncError>) -> bool {
    outcome matches Err(e) && !e.is_local()
}

/// The earliest failure among `outcomes` that stops the stage, if there is one.
pub open spec fn first_fatal<T>(outcomes: Seq<Result<T, PoolSyncError>>) -> Option<PoolSyncError>
    decreases outcomes.len(),
{
    if outcomes.len() == 0 {
        None
    } else {
        let earlier = first_fatal(outcomes.drop_last());
        if earlier is Some {
            earlier
        } else if is_fatal(outcomes.last()) {
            Some(outcomes.last()->Err_0)
        } else {
            None
        }
    }
}

/// How many of `outcomes` are failures.
pub open spec fn failures<T>(outcomes: Seq<Result<T, PoolSyncError>>) -> nat
    decreases outcomes.len(),
{
    if outcomes.len() == 0 {
        0
    } else {
        failures(outcomes.drop_last()) + (if outcomes.last() is Err {
            1nat
        } else {
            0nat
        })
    }
}

/// The earliest fatal failure is one of the outcomes, nothing before it is
/// fatal, and there is none exactly when no outcome is fatal.
pub proof fn lemma_first_fatal<T>(outcomes: Seq<Result<T, PoolSyncError>>)
    ensures
        first_fatal(outcomes) is None <==> forall|i: int|
            0 <= i < outcomes.len() ==> !is_fatal(#[trigger] outcomes[i]),
        first_fatal(outcomes) matches Some(error) ==> exists|i: int|
            0 <= i < outcomes.len() && is_fatal(#[trigger] outcomes[i]) && outcomes[i]->Err_0
                == error && forall|j: int| 0 <= j < i ==> !is_fatal(#[trigger] outcomes[j]),
    decreases outcomes.len(),
{
    if outcomes.len() > 0 {
        let shorter = outcomes.drop_last();
        lemma_first_fatal(shorter);
        assert forall|i: int| 0 <= i < shorter.len() implies shorter[i] == outcomes[i] by {}
        if let Some(error) = first_fatal(shorter) {
            let i = choose|i: int|
                0 <= i < shorter.len() && is_fatal(#[trigger] shorter[i]) && shorter[i]->Err_0
                    == error && forall|j: int| 0 <= j < i ==> !is_fatal(#[trigger] shorter[j]);
            assert(is_fatal(outcomes[i]));
            assert forall|j: int| 0 <= j < i implies !is_fatal(#[trigger] outcomes[j]) by {
                assert(shorter[j] == outcomes[j]);
            }
        } else {
            assert forall|i: int| 0 <= i < shorter.len() implies !is_fatal(
                #[trigger] outcomes[i],
            ) by {
                assert(shorter[i] == outcomes[i]);
            }
            if is_fatal(outcomes.last()) {
                assert(is_fatal(outcomes[outcomes.len() - 1]));
            }
        }
    }
}

/// Finds the earliest failure among `outcomes` that stops the stage.
pub fn find_fatal<T>(outcomes: &Vec<Result<T, PoolSyncError>>) -> (r: Option<PoolSyncError>)
    ensures
        r == first_fatal(outcomes@),
        r is None <==> forall|i: int|
            0 <= i < outcomes@.len() ==> !is_fatal(#[trigger] outcomes@[i]),
        r matches Some(error) ==> exists|i: int|
            0 <= i < outcomes@.len() && is_fatal(#[trigger] outcomes@[i]) && outcomes@[i]->Err_0
                == error && forall|j: int| 0 <= j < i ==> !is_fatal(#[trigger] outcomes@[j]),
{
    let mut fatal: Option<PoolSyncError> = None;
    let mut i: usize = 0;
    while i < outcomes.len()
        invariant
            i <= outcomes.len(),
            fatal == first_fatal(outcomes@.take(i as int)),
        decreases outcomes.len() - i,
    {
        proof {
            let upto = outcomes@.take(i + 1);
            assert(upto.drop_last() == outcomes@.take(i as int));
            assert(upto.last() == outcomes@[i as int]);
        }
        if fatal.is_none() {
            if let Err(error) = &outcomes[i] {
                if !error.local() {
                    fatal = Some(*error);
                }
            }
        }
        i += 1;
    }
    proof {
        assert(outcomes@.take(outcomes.len() as int) == outcomes@);
        lemma_first_fatal(outcomes@);
    }
    fatal
}

/// Counts the failures among `outcomes`.
pub fn count_failures<T>(outcomes: &Vec<Result<T, PoolSyncError>>) -> (r: usize)
    ensures
        r == failures(outcomes@),
        r <= outcomes@.len(),
{
    let mut count: usize = 0;
    let mut i: usize = 0;
    while i < outcomes.len()
        invariant
            i <= outcomes.len(),
            count == failures(outcomes@.take(i as int)),
            count <= i,
        decreases outcomes.len() - i,
    {
        proof {
            let upto = outcomes@.take(i + 1);
            assert(upto.drop_last() == outcomes@.take(i as int));
            assert(upto.last() == outcomes@[i as int]);
        }
        if outcomes[i].is_err() {
            count += 1;
        }
        i += 1;
    }
    proof {
        assert(outcomes@.take(outcomes.len() as int) == outcomes@);
    }
    count
}

} // verus!
