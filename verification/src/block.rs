//! One observed block as a source of tasks: the tasks that its events ask
//! for, and the backlogs of the chain as they stand at that block.

use vstd::prelude::*;
use std::collections::BTreeSet;
use std::ops::Range;
use std::sync::Arc;
use crate::blockchain::{share, Blockchain, MaybeSecretStoreEvent};
use crate::pager::{page_items, PagerView, PendingTasksIterator};
use crate::types::{
    Address, BlockchainServiceTask, KeyServerId, Requester, SecretStoreEvent, ServiceTask,
    TaskCategory,
};

verus! {

/// The task that an event asks for, if it asks for one. Only requests to
/// generate a server key do; every other event is passed over.
pub open spec fn spec_event_into_task(event: SecretStoreEvent) -> Option<BlockchainServiceTask> {
    match event {
        SecretStoreEvent::ServerKeyGenerationRequested(key_id, requester_address, threshold) => {
            Some(
                BlockchainServiceTask::Regular(
                    Address::spec_zero(),
                    ServiceTask::GenerateServerKey(
                        key_id,
                        Requester::Address(requester_address),
                        threshold as usize,
                    ),
                ),
            )
        },
        _ => None,
    }
}

/// The tasks of a block's events, in the order of the events. `None` stands
/// for an event that is not of the secret store module.
pub open spec fn tasks_of_events(events: Seq<Option<SecretStoreEvent>>) -> Seq<
    BlockchainServiceTask,
>
    decreases events.len(),
{
    if events.len() == 0 {
        Seq::empty()
    } else {
        let earlier = tasks_of_events(events.drop_last());
        match events.last() {
            Some(event) => match spec_event_into_task(event) {
                Some(task) => earlier.push(task),
                None => earlier,
            },
            None => earlier,
        }
    }
}

/// `decoded` is what the events turned out to be, one by one.
pub open spec fn decodes<E: MaybeSecretStoreEvent>(
    events: Seq<E>,
    decoded: Seq<Option<SecretStoreEvent>>,
) -> bool {
    &&& decoded.len() == events.len()
    &&& forall|i: int|
        0 <= i < events.len() ==> call_ensures(
            E::as_secret_store_event,
            (events[i],),
            #[trigger] decoded[i],
        )
}

/// Convert Secret Store event to blockchain service task.
///
/// The task is addressed to the default origin: one secret store module per
/// runtime is supported.
pub fn event_into_task(event: SecretStoreEvent) -> (task: Option<BlockchainServiceTask>)
    ensures
        task == spec_event_into_task(event),
{
    let origin = Address::default();
    match event {
        SecretStoreEvent::ServerKeyGenerationRequested(key_id, requester_address, threshold) => {
            Some(
                BlockchainServiceTask::Regular(
                    origin,
                    ServiceTask::GenerateServerKey(
                        key_id,
                        Requester::Address(requester_address),
                        threshold as usize,
                    ),
                ),
            )
        },
        _ => None,
    }
}

impl TaskCategory {
    /// The backlog that is scanned after this one, if any.
    pub open spec fn spec_following(self) -> Option<TaskCategory> {
        match self {
            TaskCategory::ServerKeyGeneration => Some(TaskCategory::ServerKeyRetrieval),
            TaskCategory::ServerKeyRetrieval => Some(TaskCategory::DocumentKeyStore),
            TaskCategory::DocumentKeyStore => Some(TaskCategory::DocumentKeyShadowRetrieval),
            TaskCategory::DocumentKeyShadowRetrieval => None,
        }
    }

    /// The backlog that is scanned after this one, if any.
    pub fn following(self) -> (category: Option<TaskCategory>)
        ensures
            category == self.spec_following(),
    {
        match self {
            TaskCategory::ServerKeyGeneration => Some(TaskCategory::ServerKeyRetrieval),
            TaskCategory::ServerKeyRetrieval => Some(TaskCategory::DocumentKeyStore),
            TaskCategory::DocumentKeyStore => Some(TaskCategory::DocumentKeyShadowRetrieval),
            TaskCategory::DocumentKeyShadowRetrieval => None,
        }
    }
}

/// Number of backlogs still to scan, the current one included.
pub open spec fn backlogs_left(category: Option<TaskCategory>) -> nat {
    match category {
        Some(TaskCategory::ServerKeyGeneration) => 4,
        Some(TaskCategory::ServerKeyRetrieval) => 3,
        Some(TaskCategory::DocumentKeyStore) => 2,
        Some(TaskCategory::DocumentKeyShadowRetrieval) => 1,
        None => 0,
    }
}

/// `page` is an answer of the chain to the query for `window` of the given
/// backlog at the given block.
pub open spec fn answers_query<B: Blockchain>(
    blockchain: &B,
    block_hash: B::BlockHash,
    category: TaskCategory,
    window: Range<usize>,
    page: Result<Vec<BlockchainServiceTask>, String>,
) -> bool {
    exists|hash: B::BlockHash| #[trigger]
        cloned(block_hash, hash) && match category {
            TaskCategory::ServerKeyGeneration => call_ensures(
                B::server_key_generation_tasks,
                (blockchain, hash, window),
                page,
            ),
            TaskCategory::ServerKeyRetrieval => call_ensures(
                B::server_key_retrieval_tasks,
                (blockchain, hash, window),
                page,
            ),
            TaskCategory::DocumentKeyStore => call_ensures(
                B::document_key_store_tasks,
                (blockchain, hash, window),
                page,
            ),
            TaskCategory::DocumentKeyShadowRetrieval => call_ensures(
                B::document_key_shadow_retrieval_tasks,
                (blockchain, hash, window),
                page,
            ),
        }
}

/// Asks the chain for one window of one backlog at the given block.
pub fn pending_tasks_page<B: Blockchain>(
    blockchain: &B,
    block_hash: &B::BlockHash,
    category: TaskCategory,
    window: Range<usize>,
) -> (page: Result<Vec<BlockchainServiceTask>, String>)
    ensures
        answers_query(blockchain, *block_hash, category, window, page),
{
    let hash = block_hash.clone();
    assert(cloned(*block_hash, hash));
    let page = match category {
        TaskCategory::ServerKeyGeneration => blockchain.server_key_generation_tasks(hash, window),
        TaskCategory::ServerKeyRetrieval => blockchain.server_key_retrieval_tasks(hash, window),
        TaskCategory::DocumentKeyStore => blockchain.document_key_store_tasks(hash, window),
        TaskCategory::DocumentKeyShadowRetrieval => blockchain.document_key_shadow_retrieval_tasks(
            hash,
            window,
        ),
    };
    page
}

/// Mathematical state of a scan of all backlogs: the backlog that is being
/// scanned, `None` once all are done, and the state of that scan.
pub struct PendingView {
    pub category: Option<TaskCategory>,
    pub pager: PagerView,
}

impl PendingView {
    /// The state in which every scan of all backlogs starts.
    pub open spec fn start() -> PendingView {
        PendingView {
            category: Some(TaskCategory::ServerKeyGeneration),
            pager: PagerView::fresh(),
        }
    }

    /// The state in which the scan of the backlog after `category` starts.
    pub open spec fn after(category: TaskCategory) -> PendingView {
        PendingView { category: category.spec_following(), pager: PagerView::fresh() }
    }

    pub open spec fn wf(self) -> bool {
        self.pager.wf()
    }

    /// One call of `next` in a run in which `asked` queries have been made of
    /// the current backlog and the query number `q` of a backlog is answered
    /// by `answers(backlog)(q)`. A backlog whose scan has ended is left for
    /// the one that follows, which is scanned from its beginning.
    pub open spec fn step(
        self,
        asked: nat,
        answers: spec_fn(TaskCategory) -> spec_fn(nat) -> Seq<BlockchainServiceTask>,
    ) -> (PendingView, nat, Option<BlockchainServiceTask>)
        decreases backlogs_left(self.category),
    {
        match self.category {
            None => (self, asked, None),
            Some(category) => {
                let scanned = self.pager.step(asked, answers(category));
                if scanned.2 is Some {
                    (PendingView { category: self.category, pager: scanned.0 }, scanned.1, scanned.2)
                } else {
                    PendingView::after(category).step(0, answers)
                }
            },
        }
    }

    /// State and number of queries made of the current backlog after `n`
    /// calls of `next`.
    pub open spec fn run(
        self,
        asked: nat,
        answers: spec_fn(TaskCategory) -> spec_fn(nat) -> Seq<BlockchainServiceTask>,
        n: nat,
    ) -> (PendingView, nat)
        decreases n,
    {
        if n == 0 {
            (self, asked)
        } else {
            let before = self.run(asked, answers, (n - 1) as nat);
            let after = before.0.step(before.1, answers);
            (after.0, after.1)
        }
    }

    /// What call number `n` of `next` hands out, counting from zero.
    pub open spec fn nth(
        self,
        asked: nat,
        answers: spec_fn(TaskCategory) -> spec_fn(nat) -> Seq<BlockchainServiceTask>,
        n: nat,
    ) -> Option<BlockchainServiceTask> {
        let before = self.run(asked, answers, n);
        before.0.step(before.1, answers).2
    }
}

/// A call of `next` in state `before` may hand out `task` and leave the
/// state `after`: the current backlog's scan is asked for its next task, with
/// what the chain answers if it is queried; when that scan has ended, the
/// same holds of the backlog that follows.
pub open spec fn yields<B: Blockchain>(
    blockchain: &B,
    block_hash: B::BlockHash,
    before: PendingView,
    task: Option<BlockchainServiceTask>,
    after: PendingView,
) -> bool
    decreases backlogs_left(before.category),
{
    match before.category {
        None => task is None && after == before,
        Some(category) => exists|page: Result<Vec<BlockchainServiceTask>, String>|
            {
                &&& before.pager.needs_page() ==> answers_query(
                    blockchain,
                    block_hash,
                    category,
                    before.pager.window(),
                    page,
                )
                &&& (#[trigger] before.pager.next(page_items(page))).1 is Some ==> {
                    &&& task == before.pager.next(page_items(page)).1
                    &&& after == PendingView {
                        category: before.category,
                        pager: before.pager.next(page_items(page)).0,
                    }
                }
                &&& before.pager.next(page_items(page)).1 is None ==> yields(
                    blockchain,
                    block_hash,
                    PendingView::after(category),
                    task,
                    after,
                )
            },
    }
}

/// Scan of the four backlogs of a block, one after the other: server key
/// generation, server key retrieval, document key store, document key shadow
/// retrieval.
pub struct PendingTasks<B: Blockchain> {
    blockchain: Arc<B>,
    block_hash: B::BlockHash,
    category: Option<TaskCategory>,
    pager: PendingTasksIterator,
}

impl<B: Blockchain> View for PendingTasks<B> {
    type V = PendingView;

    closed spec fn view(&self) -> PendingView {
        PendingView { category: self.category, pager: self.pager@ }
    }
}

impl<B: Blockchain> PendingTasks<B> {
    /// The chain that is asked.
    pub closed spec fn blockchain(&self) -> Arc<B> {
        self.blockchain
    }

    /// The block at which the backlogs are read.
    pub closed spec fn block_hash(&self) -> B::BlockHash {
        self.block_hash
    }

    /// A scan of the backlogs of the given block that has asked for nothing
    /// yet.
    pub fn new(blockchain: Arc<B>, block_hash: B::BlockHash) -> (tasks: Self)
        ensures
            tasks@ == PendingView::start(),
            tasks.blockchain() == blockchain,
            tasks.block_hash() == block_hash,
    {
        PendingTasks {
            blockchain,
            block_hash,
            category: Some(TaskCategory::ServerKeyGeneration),
            pager: PendingTasksIterator::new(),
        }
    }

    /// Hands out the next pending task, or `None` once all four backlogs
    /// have been scanned.
    pub fn next(&mut self) -> (task: Option<BlockchainServiceTask>)
        requires
            old(self)@.wf(),
        ensures
            final(self)@.wf(),
            final(self).blockchain() == old(self).blockchain(),
            final(self).block_hash() == old(self).block_hash(),
            yields(&*old(self).blockchain(), old(self).block_hash(), old(self)@, task, final(self)@),
            task is None ==> final(self)@.category is None,
        decreases backlogs_left(old(self)@.category),
    {
        match self.category {
            None => None,
            Some(category) => {
                let ghost before = self@;
                let blockchain = &self.blockchain;
                let block_hash = &self.block_hash;
                let get_pending_tasks = |window: Range<usize>| -> (page: Result<
                    Vec<BlockchainServiceTask>,
                    String,
                >)
                    ensures
                        answers_query(&**blockchain, *block_hash, category, window, page),
                    { pending_tasks_page(&**blockchain, block_hash, category, window) };
                let task = self.pager.next(&get_pending_tasks);
                proof {
                    let page = if before.pager.needs_page() {
                        choose|page: Result<Vec<BlockchainServiceTask>, String>|
                            {
                                &&& call_ensures(
                                    get_pending_tasks,
                                    (before.pager.window(),),
                                    page,
                                )
                                &&& (self.pager@, task) == before.pager.next(page_items(page))
                            }
                    } else {
                        arbitrary()
                    };
                    assert((self.pager@, task) == before.pager.next(page_items(page)));
                }
                if task.is_some() {
                    return task;
                }
                self.category = category.following();
                self.pager = PendingTasksIterator::new();
                self.next()
            },
        }
    }
}

/// Substrate block passed to the blockchain service.
pub struct SubstrateBlock<B: Blockchain> {
    /// Origin block.
    pub block_hash: B::BlockHash,
    /// Shared blockchain reference.
    pub blockchain: Arc<B>,
    /// This key server's address.
    pub key_server_address: Address,
}

impl<B: Blockchain> SubstrateBlock<B> {
    /// The tasks that the events of this block ask for, in the order of the
    /// events. Events of other modules, and events that ask for nothing that
    /// the key server does, leave no trace.
    pub fn new_tasks(&mut self) -> (tasks: Vec<BlockchainServiceTask>)
        ensures
            *final(self) == *old(self),
            exists|hash: B::BlockHash, events: Vec<B::Event>, decoded: Seq<Option<SecretStoreEvent>>|
                {
                    &&& #[trigger] cloned(old(self).block_hash, hash)
                    &&& call_ensures(B::block_events, (&*old(self).blockchain, hash), events)
                    &&& #[trigger] decodes(events@, decoded)
                    &&& tasks@ == tasks_of_events(decoded)
                },
    {
        let hash = self.block_hash.clone();
        assert(cloned(self.block_hash, hash));
        let events = self.blockchain.block_events(hash);
        let ghost fetched = events;
        let ghost all = events@;
        let ghost mut decoded: Seq<Option<SecretStoreEvent>> = Seq::empty();
        let mut tasks: Vec<BlockchainServiceTask> = Vec::new();
        for event in it: events
            invariant
                it.seq() == all,
                decoded.len() == it.index(),
                forall|i: int|
                    0 <= i < it.index() ==> call_ensures(
                        <B::Event as MaybeSecretStoreEvent>::as_secret_store_event,
                        (all[i],),
                        #[trigger] decoded[i],
                    ),
                tasks@ == tasks_of_events(decoded),
        {
            let maybe_event = event.as_secret_store_event();
            proof {
                assert(decoded.push(maybe_event).drop_last() == decoded);
                decoded = decoded.push(maybe_event);
            }
            if let Some(secret_store_event) = maybe_event {
                if let Some(task) = event_into_task(secret_store_event) {
                    tasks.push(task);
                }
            }
        }
        assert(call_ensures(B::block_events, (&*self.blockchain, hash), fetched));
        assert(decodes(fetched@, decoded));
        tasks
    }

    /// A scan of the four backlogs as they stand at this block, from their
    /// beginnings.
    pub fn pending_tasks(&mut self) -> (tasks: PendingTasks<B>)
        ensures
            *final(self) == *old(self),
            tasks@ == PendingView::start(),
            tasks.blockchain() == old(self).blockchain,
            cloned(old(self).block_hash, tasks.block_hash()),
    {
        PendingTasks::new(share(&self.blockchain), self.block_hash.clone())
    }

    /// The key servers set as the chain has it now.
    pub fn current_key_servers_set(&mut self) -> (set: BTreeSet<KeyServerId>)
        ensures
            *final(self) == *old(self),
            call_ensures(B::current_key_servers_set, (&*old(self).blockchain,), set),
    {
        self.blockchain.current_key_servers_set()
    }
}

} // verus!
