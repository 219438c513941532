//! The run of a synchronization, as a state machine.
//!
//! A run never talks to a node or to the disk. It says what has to be done
//! next, the caller does it and reports what came of it, and the run decides
//! what follows. One iteration observes the chain head once, brings every
//! protocol that lags behind up to that head, and is followed by another
//! iteration. The run is complete when an iteration finds every watermark
//! equal to the head it has just observed; only then does it ask for the
//! snapshots to be stored.
//!
//! Whether a run ends depends on the chain: each iteration closes the gap to
//! the head it observed, but the head may move on meanwhile. The run ends
//! when a head is observed that every watermark equals. That the chain grows
//! slowly enough for this to happen is assumed, not proved.
//!
//! A failure that is not local to one log or one pool gives the run up.
//! What the run had gathered is then discarded, and since the snapshots are
//! asked to be stored only when the run is complete, nothing of a run that
//! was given up ever reaches the store.

use crate::address::Address;
use crate::batch::{failures, first_fatal, partition, partitions};
use crate::cache::{addresses_of, merged, refreshed, PoolCache};
use crate::chain::Chain;
use crate::discovery::{discover, fresh_addresses};
use crate::errors::PoolSyncError;
use crate::pools::{distinct_addresses, factory_of, signature_of, Pool, PoolType};
use crate::population::{populate, populated};
use vstd::prelude::*;

verus! {

/// What a run is waiting for.
#[derive(Clone, Copy, Debug, PartialEq, Eq, Structural)]
pub enum SyncPhase {
    /// The current chain head.
    AwaitingHead,
    /// The decoded creation logs of the protocol at the cursor.
    AwaitingLogs,
    /// The records of the newly discovered pools.
    AwaitingPools,
    /// The renewed records of the pools known before.
    AwaitingRefresh,
    /// The confirmation that every snapshot is stored.
    AwaitingPersist,
    /// Nothing: the run is complete.
    Done,
    /// Nothing: the run was given up.
    Aborted,
}

/// The blocks over which a protocol was brought up to date.
#[derive(Clone, Copy, Debug, PartialEq, Eq, Structural)]
pub struct SyncedRange {
    /// The protocol.
    pub pool_type: PoolType,
    /// The first block of the range.
    pub start: u64,
    /// The last block of the range.
    pub end: u64,
}

/// What the caller is asked to do next.
#[derive(Debug, PartialEq, Eq)]
pub enum SyncAction {
    /// Read the current chain head from the full node.
    ReadHead,
    /// Fetch from the archive node the logs that `factory` emitted with the
    /// event `signature` in the blocks `start` to `end`, both included, and
    /// decode each into a pool address.
    FetchLogs {
        pool_type: PoolType,
        factory: Address,
        signature: &'static str,
        start: u64,
        end: u64,
    },
    /// Read the state of the listed pools from the full node, one group of
    /// addresses after the other.
    Populate { pool_type: PoolType, batches: Vec<Vec<Address>> },
    /// Read again the state of the listed pools, which were known before, for
    /// the blocks `start` to `end`.
    Refresh {
        pool_type: PoolType,
        batches: Vec<Vec<Address>>,
        start: u64,
        end: u64,
        is_initial_sync: bool,
    },
    /// Store the snapshot of every protocol.
    Persist,
    /// Collect the result: there is nothing left to do.
    Finish,
    /// Give the run up and report the error, together with the last range
    /// that the run had completed; nothing may be stored.
    Abort { error: PoolSyncError, last_completed: Option<SyncedRange> },
}

/// What the caller reports back.
#[derive(Debug, PartialEq, Eq)]
pub enum SyncEvent {
    /// The chain head that was read.
    Head(u64),
    /// One outcome per fetched log, in the order of the logs.
    Logs(Vec<Result<Address, PoolSyncError>>),
    /// One outcome per requested pool, in the order of the request.
    Pools(Vec<Result<Pool, PoolSyncError>>),
    /// One outcome per pool known before, in the order of the request.
    Refreshed(Vec<Result<Pool, PoolSyncError>>),
    /// Every snapshot has been stored.
    Persisted,
    /// The action could not be carried out.
    Failed(PoolSyncError),
}

/// The state of a run over the protocols of one network.
#[derive(Debug)]
pub struct SyncRun {
    /// The network.
    pub chain: Chain,
    /// The most calls that may be in flight at once.
    pub ceiling: usize,
    /// The snapshot of each protocol.
    pub caches: Vec<PoolCache>,
    /// What the run is waiting for.
    pub phase: SyncPhase,
    /// The chain head observed in the current iteration.
    pub head: u64,
    /// The protocol that is being synchronized.
    pub cursor: usize,
    /// The addresses whose records have been asked for.
    pub requested: Vec<Address>,
    /// The records of new pools that are not yet merged.
    pub fresh: Vec<Pool>,
    /// How many logs were dropped because they could not be decoded.
    pub dropped: usize,
    /// The range that was completed last in this run, if any.
    pub last_completed: Option<SyncedRange>,
}

/// Whether a snapshot lags behind `head`.
pub open spec fn stale(cache: PoolCache, head: u64) -> bool {
    cache.last_synced_block < head
}

/// The first position from `from` on whose snapshot lags behind `head`, or
/// the number of snapshots when there is none.
pub open spec fn first_stale(caches: Seq<PoolCache>, from: int, head: u64) -> int
    decreases caches.len() - from,
{
    if from < 0 || from >= caches.len() {
        caches.len() as int
    } else if stale(caches[from], head) {
        from
    } else {
        first_stale(caches, from + 1, head)
    }
}

/// The pools of all snapshots, in the order of the snapshots.
pub open spec fn all_pools(caches: Seq<PoolCache>) -> Seq<Pool> {
    caches.flat_map(|cache: PoolCache| cache.pools@)
}

/// Whether every watermark equals `head`.
pub open spec fn all_synced(caches: Seq<PoolCache>, head: u64) -> bool {
    forall|i: int| 0 <= i < caches.len() ==> (#[trigger] caches[i]).last_synced_block == head
}

/// Whether `action` asks for the creation logs that `cache` lacks up to `head`.
pub open spec fn is_fetch(action: SyncAction, cache: PoolCache, chain: Chain, head: u64) -> bool {
    &&& action matches SyncAction::FetchLogs { pool_type, factory, signature, start, end }
    &&& pool_type == cache.pool_type
    &&& factory_of(cache.pool_type, chain) == Ok::<Address, PoolSyncError>(factory)
    &&& signature@ == signature_of(cache.pool_type)
    &&& start == cache.last_synced_block + 1
    &&& end == head
}

/// Whether `action` asks for the records of `addresses`, in groups of at
/// most `ceiling`.
pub open spec fn is_populate(
    action: SyncAction,
    pool_type: PoolType,
    addresses: Seq<Address>,
    ceiling: usize,
) -> bool {
    &&& action matches SyncAction::Populate { pool_type: asked, batches }
    &&& asked == pool_type
    &&& partitions(batches@, addresses, ceiling as nat)
}

/// Whether `action` asks to renew the pools of `cache` for the blocks that
/// it lacks up to `head`, in groups of at most `ceiling`.
pub open spec fn is_refresh(
    action: SyncAction,
    cache: PoolCache,
    head: u64,
    ceiling: usize,
) -> bool {
    &&& action matches SyncAction::Refresh { pool_type, batches, start, end, is_initial_sync }
    &&& pool_type == cache.pool_type
    &&& partitions(batches@, addresses_of(cache.pools@), ceiling as nat)
    &&& start == cache.last_synced_block + 1
    &&& end == head
    &&& is_initial_sync == cache.is_initial_sync
}

/// Whether `post` works under the settings of `pre`.
pub open spec fn keeps_settings(pre: SyncRun, post: SyncRun) -> bool {
    post.chain == pre.chain && post.ceiling == pre.ceiling
}

/// Whether nothing is asked for or awaits merging in `run`.
pub open spec fn nothing_pending(run: SyncRun) -> bool {
    run.requested@.len() == 0 && run.fresh@.len() == 0
}

/// The run was given up because of `error`: what it had gathered is
/// discarded and the caller is told to abort.
pub open spec fn aborted(
    pre: SyncRun,
    post: SyncRun,
    action: SyncAction,
    error: PoolSyncError,
) -> bool {
    &&& keeps_settings(pre, post)
    &&& post.phase == SyncPhase::Aborted
    &&& post.cursor == pre.cursor
    &&& post.caches@.len() == 0
    &&& nothing_pending(post)
    &&& post.head == pre.head
    &&& post.dropped == pre.dropped
    &&& post.last_completed == pre.last_completed
    &&& action == (SyncAction::Abort { error, last_completed: pre.last_completed })
}

/// The run turns to the first protocol from `from` on that lags behind the
/// head and asks for its logs, or, where none lags, leaves the cursor where
/// it was and asks for the head again.
pub open spec fn moved_on(pre: SyncRun, from: int, post: SyncRun, action: SyncAction) -> bool {
    let next = first_stale(post.caches@, from, post.head);
    if next < post.caches@.len() {
        &&& post.phase == SyncPhase::AwaitingLogs
        &&& post.cursor == next
        &&& is_fetch(action, post.caches@[next], post.chain, post.head)
    } else {
        &&& post.phase == SyncPhase::AwaitingHead
        &&& post.cursor == pre.cursor
        &&& action == SyncAction::ReadHead
    }
}

/// What observing `head` leads to: the run is ready to be stored when every
/// watermark equals `head`, and moves on otherwise.
pub open spec fn head_observed(pre: SyncRun, head: u64, post: SyncRun, action: SyncAction) -> bool {
    &&& keeps_settings(pre, post)
    &&& post.caches@ == pre.caches@
    &&& post.head == head
    &&& post.dropped == pre.dropped
    &&& post.last_completed == pre.last_completed
    &&& nothing_pending(post)
    &&& if all_synced(pre.caches@, head) {
        &&& post.phase == SyncPhase::AwaitingPersist
        &&& post.cursor == pre.cursor
        &&& action == SyncAction::Persist
    } else {
        moved_on(pre, 0, post, action)
    }
}

/// The protocol at the cursor is brought up to the head: its pools become
/// `renewed` with `fresh` merged in, its watermark the head, and it is no
/// longer at its first synchronization. No other snapshot changes, and the
/// run moves on.
pub open spec fn protocol_completed(
    pre: SyncRun,
    renewed: Seq<Pool>,
    fresh: Seq<Pool>,
    post: SyncRun,
    action: SyncAction,
) -> bool {
    let at = pre.cursor as int;
    &&& keeps_settings(pre, post)
    &&& post.head == pre.head
    &&& post.caches@.len() == pre.caches@.len()
    &&& forall|i: int|
        0 <= i < pre.caches@.len() && i != at ==> #[trigger] post.caches@[i] == pre.caches@[i]
    &&& post.caches@[at].pool_type == pre.caches@[at].pool_type
    &&& post.caches@[at].pools@ == merged(renewed, fresh, pre.caches@[at].pool_type)
    &&& post.caches@[at].last_synced_block == pre.head
    &&& !post.caches@[at].is_initial_sync
    &&& post.last_completed == Some(
        SyncedRange {
            pool_type: pre.caches@[at].pool_type,
            start: (pre.caches@[at].last_synced_block + 1) as u64,
            end: pre.head,
        },
    )
    &&& nothing_pending(post)
    &&& moved_on(pre, at + 1, post, action)
}

/// What follows once the new pools `fresh` are populated: the pools known
/// before are renewed first, if there are any; otherwise the protocol is
/// complete.
pub open spec fn population_done(
    pre: SyncRun,
    fresh: Seq<Pool>,
    post: SyncRun,
    action: SyncAction,
) -> bool {
    if pre.current().pools@.len() > 0 {
        &&& keeps_settings(pre, post)
        &&& post.caches@ == pre.caches@
        &&& post.head == pre.head
        &&& post.cursor == pre.cursor
        &&& post.phase == SyncPhase::AwaitingRefresh
        &&& post.last_completed == pre.last_completed
        &&& post.requested@.len() == 0
        &&& post.fresh@ == fresh
        &&& is_refresh(action, pre.current(), pre.head, pre.ceiling)
    } else {
        protocol_completed(pre, pre.current().pools@, fresh, post, action)
    }
}

/// What the decoded logs lead to. A failure that is not local gives the run
/// up. Otherwise the dropped logs are counted, and the new addresses are
/// asked for, if there are any.
pub open spec fn logs_handled(
    pre: SyncRun,
    decoded: Seq<Result<Address, PoolSyncError>>,
    post: SyncRun,
    action: SyncAction,
) -> bool {
    match first_fatal(decoded) {
        Some(error) => aborted(pre, post, action, error),
        None => {
            let found = fresh_addresses(decoded, pre.current().pools@);
            &&& post.dropped == (if pre.dropped + failures(decoded) > usize::MAX {
                usize::MAX as int
            } else {
                pre.dropped + failures(decoded)
            })
            &&& if found.len() > 0 {
                &&& keeps_settings(pre, post)
                &&& post.caches@ == pre.caches@
                &&& post.head == pre.head
                &&& post.cursor == pre.cursor
                &&& post.phase == SyncPhase::AwaitingPools
                &&& post.last_completed == pre.last_completed
                &&& post.requested@ == found
                &&& post.fresh@.len() == 0
                &&& is_populate(action, pre.current().pool_type, found, pre.ceiling)
            } else {
                population_done(pre, Seq::empty(), post, action)
            }
        },
    }
}

/// What the outcomes of state population lead to.
pub open spec fn pools_handled(
    pre: SyncRun,
    outcomes: Seq<Result<Pool, PoolSyncError>>,
    post: SyncRun,
    action: SyncAction,
) -> bool {
    match first_fatal(outcomes) {
        Some(error) => aborted(pre, post, action, error),
        None => {
            &&& post.dropped == pre.dropped
            &&& population_done(
                pre,
                populated(pre.current().pool_type, pre.requested@, outcomes),
                post,
                action,
            )
        },
    }
}

/// What the outcomes of renewing the known pools lead to.
pub open spec fn refresh_handled(
    pre: SyncRun,
    outcomes: Seq<Result<Pool, PoolSyncError>>,
    post: SyncRun,
    action: SyncAction,
) -> bool {
    match first_fatal(outcomes) {
        Some(error) => aborted(pre, post, action, error),
        None => {
            &&& post.dropped == pre.dropped
            &&& protocol_completed(
                pre,
                refreshed(pre.current().pools@, outcomes, pre.current().pool_type),
                pre.fresh@,
                post,
                action,
            )
        },
    }
}

/// The snapshots are stored: the run is complete and keeps what it holds.
pub open spec fn persist_confirmed(pre: SyncRun, post: SyncRun, action: SyncAction) -> bool {
    &&& keeps_settings(pre, post)
    &&& post.caches@ == pre.caches@
    &&& post.head == pre.head
    &&& post.dropped == pre.dropped
    &&& post.last_completed == pre.last_completed
    &&& nothing_pending(post)
    &&& post.phase == SyncPhase::Done
    &&& post.cursor == pre.cursor
    &&& action == SyncAction::Finish
}

/// What `event` leads to.
pub open spec fn stepped(
    pre: SyncRun,
    event: SyncEvent,
    post: SyncRun,
    action: SyncAction,
) -> bool {
    match event {
        SyncEvent::Head(head) => head_observed(pre, head, post, action),
        SyncEvent::Logs(decoded) => logs_handled(pre, decoded@, post, action),
        SyncEvent::Pools(outcomes) => pools_handled(pre, outcomes@, post, action),
        SyncEvent::Refreshed(outcomes) => refresh_handled(pre, outcomes@, post, action),
        SyncEvent::Persisted => persist_confirmed(pre, post, action),
        SyncEvent::Failed(error) => aborted(pre, post, action, error),
    }
}

impl SyncRun {
    /// The snapshots are valid, one per protocol, each of a protocol that has
    /// a factory on the network, and the ceiling is positive.
    pub open spec fn settled(&self) -> bool {
        &&& self.ceiling > 0
        &&& forall|i: int|
            0 <= i < self.caches@.len() ==> {
                &&& (#[trigger] self.caches@[i]).wf()
                &&& factory_of(self.caches@[i].pool_type, self.chain) is Ok
            }
        &&& forall|i: int, j: int|
            0 <= i < j < self.caches@.len() ==>
                (#[trigger] self.caches@[i]).pool_type != (#[trigger] self.caches@[j]).pool_type
    }

    /// The cursor stands on a snapshot that lags behind the head.
    pub open spec fn at_work(&self) -> bool {
        self.cursor < self.caches@.len() && stale(self.caches@[self.cursor as int], self.head)
    }

    /// The protocol at the cursor.
    pub open spec fn current(&self) -> PoolCache {
        self.caches@[self.cursor as int]
    }

    /// The state is one that a run can be in.
    pub open spec fn wf(&self) -> bool {
        &&& self.settled()
        &&& match self.phase {
            SyncPhase::AwaitingHead => self.requested@.len() == 0 && self.fresh@.len() == 0,
            SyncPhase::AwaitingLogs => self.at_work() && self.requested@.len() == 0
                && self.fresh@.len() == 0,
            SyncPhase::AwaitingPools => self.at_work() && self.requested@.len() > 0
                && self.requested@.no_duplicates() && self.fresh@.len() == 0,
            SyncPhase::AwaitingRefresh => self.at_work() && self.requested@.len() == 0
                && self.current().pools@.len() > 0,
            SyncPhase::AwaitingPersist => all_synced(self.caches@, self.head)
                && self.requested@.len() == 0 && self.fresh@.len() == 0,
            SyncPhase::Done => all_synced(self.caches@, self.head) && self.requested@.len() == 0
                && self.fresh@.len() == 0,
            SyncPhase::Aborted => self.caches@.len() == 0 && self.requested@.len() == 0
                && self.fresh@.len() == 0,
        }
    }

    /// Whether the run, in its phase, takes `event`.
    pub open spec fn accepts(&self, event: SyncEvent) -> bool {
        match event {
            SyncEvent::Head(_) => self.phase == SyncPhase::AwaitingHead,
            SyncEvent::Logs(_) => self.phase == SyncPhase::AwaitingLogs,
            SyncEvent::Pools(_) => self.phase == SyncPhase::AwaitingPools,
            SyncEvent::Refreshed(_) => self.phase == SyncPhase::AwaitingRefresh,
            SyncEvent::Persisted => self.phase == SyncPhase::AwaitingPersist,
            SyncEvent::Failed(_) => self.phase != SyncPhase::Done && self.phase
                != SyncPhase::Aborted,
        }
    }

    /// Tells whether the run, in its phase, takes `event`.
    pub fn takes(&self, event: &SyncEvent) -> (r: bool)
        ensures
            r == self.accepts(*event),
    {
        match event {
            SyncEvent::Head(_) => self.phase == SyncPhase::AwaitingHead,
            SyncEvent::Logs(_) => self.phase == SyncPhase::AwaitingLogs,
            SyncEvent::Pools(_) => self.phase == SyncPhase::AwaitingPools,
            SyncEvent::Refreshed(_) => self.phase == SyncPhase::AwaitingRefresh,
            SyncEvent::Persisted => self.phase == SyncPhase::AwaitingPersist,
            SyncEvent::Failed(_) => self.phase != SyncPhase::Done && self.phase
                != SyncPhase::Aborted,
        }
    }

    /// Finds the first snapshot from `from` on that lags behind the head.
    fn find_stale(&self, from: usize) -> (next: usize)
        requires
            from <= self.caches@.len(),
        ensures
            next == first_stale(self.caches@, from as int, self.head),
            from <= next <= self.caches@.len(),
            next < self.caches@.len() ==> stale(self.caches@[next as int], self.head),
    {
        let mut at: usize = from;
        while at < self.caches.len() && self.caches[at].last_synced_block >= self.head
            invariant
                from <= at <= self.caches@.len(),
                first_stale(self.caches@, at as int, self.head) == first_stale(
                    self.caches@,
                    from as int,
                    self.head,
                ),
            decreases self.caches@.len() - at,
        {
            at += 1;
        }
        at
    }

    /// Tells whether every watermark equals `head`.
    fn synced_at(&self, head: u64) -> (r: bool)
        ensures
            r == all_synced(self.caches@, head),
    {
        let mut at: usize = 0;
        while at < self.caches.len()
            invariant
                at <= self.caches@.len(),
                forall|i: int|
                    0 <= i < at ==> (#[trigger] self.caches@[i]).last_synced_block == head,
            decreases self.caches@.len() - at,
        {
            if self.caches[at].last_synced_block != head {
                return false;
            }
            at += 1;
        }
        true
    }

    /// Turns to the first protocol from `from` on that lags behind the head,
    /// or to the next iteration.
    fn move_on(&mut self, from: usize) -> (action: SyncAction)
        requires
            old(self).settled(),
            nothing_pending(*old(self)),
            from <= old(self).caches@.len(),
        ensures
            final(self).wf(),
            keeps_settings(*old(self), *final(self)),
            final(self).caches@ == old(self).caches@,
            final(self).head == old(self).head,
            final(self).dropped == old(self).dropped,
            final(self).last_completed == old(self).last_completed,
            nothing_pending(*final(self)),
            moved_on(*old(self), from as int, *final(self), action),
    {
        let next = self.find_stale(from);
        if next < self.caches.len() {
            self.cursor = next;
            self.phase = SyncPhase::AwaitingLogs;
            let cache = &self.caches[next];
            SyncAction::FetchLogs {
                pool_type: cache.pool_type,
                factory: cache.pool_type.factory_address(self.chain).unwrap(),
                signature: cache.pool_type.pair_created_signature(),
                start: cache.last_synced_block + 1,
                end: self.head,
            }
        } else {
            self.phase = SyncPhase::AwaitingHead;
            SyncAction::ReadHead
        }
    }

    /// Takes the chain head that was read for this iteration.
    pub fn observe_head(&mut self, head: u64) -> (action: SyncAction)
        requires
            old(self).wf(),
            old(self).phase == SyncPhase::AwaitingHead,
        ensures
            final(self).wf(),
            head_observed(*old(self), head, *final(self), action),
    {
        self.head = head;
        if self.synced_at(head) {
            self.phase = SyncPhase::AwaitingPersist;
            SyncAction::Persist
        } else {
            self.move_on(0)
        }
    }

    /// Gives the run up and discards what it had gathered.
    fn abort(&mut self, error: PoolSyncError) -> (action: SyncAction)
        requires
            old(self).ceiling > 0,
        ensures
            final(self).wf(),
            aborted(*old(self), *final(self), action, error),
    {
        self.phase = SyncPhase::Aborted;
        self.caches = Vec::new();
        self.requested = Vec::new();
        self.fresh = Vec::new();
        SyncAction::Abort { error, last_completed: self.last_completed }
    }

    /// Reports that the action could not be carried out: the run is given up.
    pub fn fail(&mut self, error: PoolSyncError) -> (action: SyncAction)
        requires
            old(self).wf(),
            old(self).phase != SyncPhase::Done,
            old(self).phase != SyncPhase::Aborted,
        ensures
            final(self).wf(),
            aborted(*old(self), *final(self), action, error),
    {
        self.abort(error)
    }

    /// Reports that every snapshot is stored: the run is complete.
    pub fn persisted(&mut self) -> (action: SyncAction)
        requires
            old(self).wf(),
            old(self).phase == SyncPhase::AwaitingPersist,
        ensures
            final(self).wf(),
            persist_confirmed(*old(self), *final(self), action),
    {
        self.phase = SyncPhase::Done;
        SyncAction::Finish
    }

    /// Merges the new pools into the protocol at the cursor, moves its
    /// watermark up to the head, and moves on.
    fn complete_protocol(&mut self) -> (action: SyncAction)
        requires
            old(self).settled(),
            old(self).at_work(),
            old(self).requested@.len() == 0,
        ensures
            final(self).wf(),
            final(self).dropped == old(self).dropped,
            protocol_completed(
                *old(self),
                old(self).current().pools@,
                old(self).fresh@,
                *final(self),
                action,
            ),
    {
        let mut fresh: Vec<Pool> = Vec::new();
        std::mem::swap(&mut self.fresh, &mut fresh);
        let head = self.head;
        let at = self.cursor;
        self.last_completed = Some(
            SyncedRange {
                pool_type: self.caches[at].pool_type,
                start: self.caches[at].last_synced_block + 1,
                end: head,
            },
        );
        self.caches[at].merge(fresh);
        self.caches[at].advance(head);
        // The protocol at the cursor no longer lags, so the search passes it.
        self.move_on(at)
    }

    /// Asks for the pools known before to be renewed, if there are any, and
    /// completes the protocol otherwise.
    fn after_population(&mut self) -> (action: SyncAction)
        requires
            old(self).settled(),
            old(self).at_work(),
            old(self).requested@.len() == 0,
        ensures
            final(self).wf(),
            final(self).dropped == old(self).dropped,
            population_done(*old(self), old(self).fresh@, *final(self), action),
    {
        if self.caches[self.cursor].pools.len() > 0 {
            self.phase = SyncPhase::AwaitingRefresh;
            let cache = &self.caches[self.cursor];
            let addresses = cache.addresses();
            SyncAction::Refresh {
                pool_type: cache.pool_type,
                batches: partition(&addresses, self.ceiling),
                start: cache.last_synced_block + 1,
                end: self.head,
                is_initial_sync: cache.is_initial_sync,
            }
        } else {
            self.complete_protocol()
        }
    }

    /// Takes the decoded creation logs of the protocol at the cursor.
    pub fn logs_fetched(&mut self, decoded: Vec<Result<Address, PoolSyncError>>) -> (action:
        SyncAction)
        requires
            old(self).wf(),
            old(self).phase == SyncPhase::AwaitingLogs,
        ensures
            final(self).wf(),
            logs_handled(*old(self), decoded@, *final(self), action),
    {
        match discover(&decoded, &self.caches[self.cursor].pools) {
            Err(error) => self.abort(error),
            Ok(found) => {
                self.dropped = self.dropped.saturating_add(found.dropped);
                if found.addresses.len() > 0 {
                    let action = SyncAction::Populate {
                        pool_type: self.caches[self.cursor].pool_type,
                        batches: partition(&found.addresses, self.ceiling),
                    };
                    self.requested = found.addresses;
                    self.phase = SyncPhase::AwaitingPools;
                    action
                } else {
                    assert(self.fresh@ =~= Seq::<Pool>::empty());
                    self.after_population()
                }
            },
        }
    }

    /// Takes the outcomes of reading the newly discovered pools.
    pub fn pools_populated(&mut self, outcomes: Vec<Result<Pool, PoolSyncError>>) -> (action:
        SyncAction)
        requires
            old(self).wf(),
            old(self).phase == SyncPhase::AwaitingPools,
        ensures
            final(self).wf(),
            pools_handled(*old(self), outcomes@, *final(self), action),
    {
        let mut requested: Vec<Address> = Vec::new();
        std::mem::swap(&mut self.requested, &mut requested);
        match populate(self.caches[self.cursor].pool_type, &requested, outcomes) {
            Err(error) => self.abort(error),
            Ok(pools) => {
                self.fresh = pools;
                self.after_population()
            },
        }
    }

    /// Takes the outcomes of reading again the pools known before.
    pub fn pools_refreshed(&mut self, outcomes: Vec<Result<Pool, PoolSyncError>>) -> (action:
        SyncAction)
        requires
            old(self).wf(),
            old(self).phase == SyncPhase::AwaitingRefresh,
        ensures
            final(self).wf(),
            refresh_handled(*old(self), outcomes@, *final(self), action),
    {
        let at = self.cursor;
        match self.caches[at].refresh(outcomes) {
            Err(error) => self.abort(error),
            Ok(_) => self.complete_protocol(),
        }
    }

    /// Takes what the caller reports and says what to do next.
    pub fn step(&mut self, event: SyncEvent) -> (action: SyncAction)
        requires
            old(self).wf(),
            old(self).accepts(event),
        ensures
            final(self).wf(),
            stepped(*old(self), event, *final(self), action),
    {
        match event {
            SyncEvent::Head(head) => self.observe_head(head),
            SyncEvent::Logs(decoded) => self.logs_fetched(decoded),
            SyncEvent::Pools(outcomes) => self.pools_populated(outcomes),
            SyncEvent::Refreshed(outcomes) => self.pools_refreshed(outcomes),
            SyncEvent::Persisted => self.persisted(),
            SyncEvent::Failed(error) => self.fail(error),
        }
    }

    /// Hands out what a complete run has gathered: the pools of every
    /// protocol, in the order of the protocols, and the block up to which
    /// all of them are synchronized.
    pub fn finish(self) -> (r: (Vec<Pool>, u64))
        requires
            self.wf(),
            self.phase == SyncPhase::Done,
        ensures
            r.0@ == all_pools(self.caches@),
            r.1 == self.head,
    {
        let ghost caches = self.caches@;
        let ghost unfold = |cache: PoolCache| cache.pools@;
        let head = self.head;
        let mut pools: Vec<Pool> = Vec::new();
        assert(all_pools(caches.take(0)) =~= Seq::<Pool>::empty());
        for cache in it: self.caches
            invariant
                it.seq() == caches,
                unfold == |cache: PoolCache| cache.pools@,
                pools@ == all_pools(caches.take(it.index() as int)),
        {
            proof {
                let before = caches.take(it.index() as int);
                before.lemma_flat_map_push(unfold, cache);
                assert(caches.take(it.index() + 1) == before.push(cache));
            }
            let mut held = cache.pools;
            pools.append(&mut held);
        }
        proof {
            assert(caches.take(caches.len() as int) == caches);
        }
        (pools, head)
    }
}

/// The snapshots are asked to be stored only in answer to a chain head that
/// every watermark equals, and then no two pools of a snapshot share an
/// address.
pub proof fn law_stored_only_when_synced(
    pre: SyncRun,
    event: SyncEvent,
    post: SyncRun,
    action: SyncAction,
)
    requires
        pre.wf(),
        pre.accepts(event),
        stepped(pre, event, post, action),
        action == SyncAction::Persist,
    ensures
        event matches SyncEvent::Head(head) && head == post.head,
        post.phase == SyncPhase::AwaitingPersist,
        post.caches@ == pre.caches@,
        forall|i: int|
            0 <= i < post.caches@.len() ==> (#[trigger] post.caches@[i]).last_synced_block
                == post.head && distinct_addresses(post.caches@[i].pools@),
{
}

/// While a run waits for its snapshots to be stored, and once it is
/// complete, every watermark equals the chain head observed last, and no two
/// pools of a snapshot share an address.
pub proof fn law_complete_run_is_synced(run: SyncRun)
    requires
        run.wf(),
        run.phase == SyncPhase::AwaitingPersist || run.phase == SyncPhase::Done,
    ensures
        forall|i: int|
            0 <= i < run.caches@.len() ==> (#[trigger] run.caches@[i]).last_synced_block
                == run.head && distinct_addresses(run.caches@[i].pools@),
{
}

/// A run that is given up holds nothing that could be stored, takes no
/// further event, and was not told to store anything on the way out.
pub proof fn law_aborted_run_stores_nothing(
    pre: SyncRun,
    event: SyncEvent,
    post: SyncRun,
    action: SyncAction,
    next: SyncEvent,
)
    requires
        pre.wf(),
        pre.accepts(event),
        stepped(pre, event, post, action),
        post.phase == SyncPhase::Aborted,
    ensures
        action is Abort,
        action->last_completed == pre.last_completed,
        post.caches@.len() == 0,
        !post.accepts(next),
{
}

/// No step lets a watermark fall, and a watermark that moves becomes the
/// chain head observed in the iteration. The snapshots keep their number,
/// order and protocols as long as the run is not given up.
pub proof fn law_watermarks_follow_head(
    pre: SyncRun,
    event: SyncEvent,
    post: SyncRun,
    action: SyncAction,
)
    requires
        pre.wf(),
        pre.accepts(event),
        stepped(pre, event, post, action),
        post.phase != SyncPhase::Aborted,
    ensures
        post.caches@.len() == pre.caches@.len(),
        forall|i: int|
            0 <= i < pre.caches@.len() ==> {
                &&& (#[trigger] post.caches@[i]).pool_type == pre.caches@[i].pool_type
                &&& post.caches@[i].last_synced_block >= pre.caches@[i].last_synced_block
                &&& post.caches@[i].last_synced_block != pre.caches@[i].last_synced_block
                    ==> post.caches@[i].last_synced_block == post.head
            },
{
}

} // verus!
