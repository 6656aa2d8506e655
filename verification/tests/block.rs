use secretstore_substrate_service::{
    event_into_task, Address, Blockchain, BlockchainServiceTask, KeyServerId,
    MaybeSecretStoreEvent, Public, Requester, SecretStoreEvent, ServerKeyId, ServiceTask,
    SubstrateBlock,
};
use std::collections::BTreeSet;
use std::ops::Range;
use std::sync::{Arc, Mutex};

#[derive(Clone)]
enum ChainEvent {
    Balances,
    SecretStore(SecretStoreEvent),
}

impl MaybeSecretStoreEvent for ChainEvent {
    fn as_secret_store_event(self) -> Option<SecretStoreEvent> {
        match self {
            ChainEvent::Balances => None,
            ChainEvent::SecretStore(event) => Some(event),
        }
    }
}

struct Chain {
    events: Vec<ChainEvent>,
    generation: Vec<BlockchainServiceTask>,
    retrieval: Vec<BlockchainServiceTask>,
    store: Vec<BlockchainServiceTask>,
    shadow: Vec<BlockchainServiceTask>,
    fail_retrieval: bool,
    log: Mutex<Vec<(String, u64, Range<usize>)>>,
}

impl Chain {
    fn new() -> Chain {
        Chain {
            events: Vec::new(),
            generation: Vec::new(),
            retrieval: Vec::new(),
            store: Vec::new(),
            shadow: Vec::new(),
            fail_retrieval: false,
            log: Mutex::new(Vec::new()),
        }
    }

    fn page(
        &self,
        name: &str,
        backlog: &Vec<BlockchainServiceTask>,
        block_hash: u64,
        range: Range<usize>,
    ) -> Result<Vec<BlockchainServiceTask>, String> {
        self.log.lock().unwrap().push((String::from(name), block_hash, range.clone()));
        let start: usize = range.start.min(backlog.len());
        let end: usize = range.end.min(backlog.len());
        Ok(backlog[start..end].to_vec())
    }
}

impl Blockchain for Chain {
    type BlockHash = u64;
    type Event = ChainEvent;

    fn block_events(&self, block_hash: u64) -> Vec<ChainEvent> {
        if block_hash == 7 {
            self.events.clone()
        } else {
            Vec::new()
        }
    }

    fn current_key_servers_set(&self) -> BTreeSet<KeyServerId> {
        let mut set: BTreeSet<KeyServerId> = BTreeSet::new();
        set.insert(Address([1u8; 20]));
        set.insert(Address([2u8; 20]));
        set
    }

    fn server_key_generation_tasks(
        &self,
        block_hash: u64,
        range: Range<usize>,
    ) -> Result<Vec<BlockchainServiceTask>, String> {
        self.page("generation", &self.generation, block_hash, range)
    }

    fn is_server_key_generation_response_required(
        &self,
        _key_id: ServerKeyId,
        _key_server_id: KeyServerId,
    ) -> Result<bool, String> {
        Ok(false)
    }

    fn server_key_retrieval_tasks(
        &self,
        block_hash: u64,
        range: Range<usize>,
    ) -> Result<Vec<BlockchainServiceTask>, String> {
        if self.fail_retrieval {
            self.log.lock().unwrap().push((String::from("retrieval"), block_hash, range));
            return Err(String::from("retrieval backlog is unreadable"));
        }
        self.page("retrieval", &self.retrieval, block_hash, range)
    }

    fn is_server_key_retrieval_response_required(
        &self,
        _key_id: ServerKeyId,
        _key_server_id: KeyServerId,
    ) -> Result<bool, String> {
        Ok(false)
    }

    fn document_key_store_tasks(
        &self,
        block_hash: u64,
        range: Range<usize>,
    ) -> Result<Vec<BlockchainServiceTask>, String> {
        self.page("store", &self.store, block_hash, range)
    }

    fn document_key_shadow_retrieval_tasks(
        &self,
        block_hash: u64,
        range: Range<usize>,
    ) -> Result<Vec<BlockchainServiceTask>, String> {
        self.page("shadow", &self.shadow, block_hash, range)
    }
}

fn key(n: u8) -> ServerKeyId {
    ServerKeyId([n; 32])
}

fn generation_task(n: u8) -> BlockchainServiceTask {
    BlockchainServiceTask::Regular(
        Address([0u8; 20]),
        ServiceTask::GenerateServerKey(key(n), Requester::Address(Address([n; 20])), 1),
    )
}

fn retrieval_task(n: u8) -> BlockchainServiceTask {
    BlockchainServiceTask::Regular(
        Address([0u8; 20]),
        ServiceTask::RetrieveServerKey(key(n), None),
    )
}

fn store_task(n: u8) -> BlockchainServiceTask {
    BlockchainServiceTask::Regular(
        Address([0u8; 20]),
        ServiceTask::StoreDocumentKey(
            key(n),
            Requester::Address(Address([n; 20])),
            Public([n; 64]),
            Public([3u8; 64]),
        ),
    )
}

fn shadow_task(n: u8) -> BlockchainServiceTask {
    BlockchainServiceTask::Regular(
        Address([0u8; 20]),
        ServiceTask::RetrieveShadowDocumentKey(key(n), Requester::Public(Public([n; 64]))),
    )
}

fn block(chain: Chain, block_hash: u64) -> (Arc<Chain>, SubstrateBlock<Chain>) {
    let chain = Arc::new(chain);
    let block = SubstrateBlock {
        block_hash,
        blockchain: chain.clone(),
        key_server_address: Address([9u8; 20]),
    };
    (chain, block)
}

fn drain(block: &mut SubstrateBlock<Chain>) -> Vec<BlockchainServiceTask> {
    let mut pending = block.pending_tasks();
    let mut out: Vec<BlockchainServiceTask> = Vec::new();
    while let Some(task) = pending.next() {
        out.push(task);
    }
    assert_eq!(pending.next(), None);
    out
}

#[test]
fn generation_request_becomes_a_generation_task() {
    let event = SecretStoreEvent::ServerKeyGenerationRequested(key(5), Address([7u8; 20]), 3);
    assert_eq!(
        event_into_task(event),
        Some(BlockchainServiceTask::Regular(
            Address([0u8; 20]),
            ServiceTask::GenerateServerKey(key(5), Requester::Address(Address([7u8; 20])), 3usize),
        ))
    );
}

#[test]
fn largest_threshold_is_carried_over() {
    let event = SecretStoreEvent::ServerKeyGenerationRequested(key(1), Address([2u8; 20]), 255);
    assert_eq!(
        event_into_task(event),
        Some(BlockchainServiceTask::Regular(
            Address::default(),
            ServiceTask::GenerateServerKey(key(1), Requester::Address(Address([2u8; 20])), 255usize),
        ))
    );
}

#[test]
fn default_address_is_zero() {
    assert_eq!(Address::default(), Address([0u8; 20]));
}

#[test]
fn other_events_ask_for_no_task() {
    let others = vec![
        SecretStoreEvent::ServerKeyGenerated(key(1), Public([1u8; 64])),
        SecretStoreEvent::ServerKeyGenerationError(key(1)),
        SecretStoreEvent::ServerKeyRetrievalRequested(key(1)),
        SecretStoreEvent::ServerKeyRetrieved(key(1), Public([1u8; 64])),
        SecretStoreEvent::ServerKeyRetrievalError(key(1)),
        SecretStoreEvent::DocumentKeyStoreRequested(
            key(1),
            Address([1u8; 20]),
            Public([1u8; 64]),
            Public([2u8; 64]),
        ),
        SecretStoreEvent::DocumentKeyShadowRetrievalRequested(key(1), Address([1u8; 20])),
    ];
    for event in others {
        assert_eq!(event_into_task(event), None);
    }
}

#[test]
fn new_tasks_keep_supported_events_in_order() {
    let mut chain = Chain::new();
    chain.events = vec![
        ChainEvent::SecretStore(SecretStoreEvent::ServerKeyGenerationRequested(
            key(1),
            Address([1u8; 20]),
            1,
        )),
        ChainEvent::Balances,
        ChainEvent::SecretStore(SecretStoreEvent::ServerKeyRetrievalRequested(key(2))),
        ChainEvent::SecretStore(SecretStoreEvent::ServerKeyGenerationRequested(
            key(3),
            Address([3u8; 20]),
            1,
        )),
        ChainEvent::SecretStore(SecretStoreEvent::ServerKeyGenerationError(key(4))),
    ];
    let (_chain, mut block) = block(chain, 7);
    assert_eq!(block.new_tasks(), vec![generation_task(1), generation_task(3)]);
}

#[test]
fn new_tasks_of_a_block_without_events_are_none() {
    let mut chain = Chain::new();
    chain.events = vec![ChainEvent::SecretStore(SecretStoreEvent::ServerKeyGenerationRequested(
        key(1),
        Address([1u8; 20]),
        1,
    ))];
    let (_chain, mut block) = block(chain, 8);
    assert_eq!(block.new_tasks(), Vec::new());
}

#[test]
fn pending_tasks_come_category_by_category() {
    let mut chain = Chain::new();
    chain.generation = (1u8..=18u8).map(generation_task).collect();
    chain.retrieval = (1u8..=2u8).map(retrieval_task).collect();
    chain.store = (1u8..=16u8).map(store_task).collect();
    chain.shadow = (1u8..=3u8).map(shadow_task).collect();
    let (chain, mut block) = block(chain, 11);

    let mut expected: Vec<BlockchainServiceTask> = Vec::new();
    expected.extend((1u8..=18u8).map(generation_task));
    expected.extend((1u8..=2u8).map(retrieval_task));
    expected.extend((1u8..=16u8).map(store_task));
    expected.extend((1u8..=3u8).map(shadow_task));
    assert_eq!(drain(&mut block), expected);

    let log = chain.log.lock().unwrap();
    let asked: Vec<(&str, u64, Range<usize>)> =
        log.iter().map(|entry| (entry.0.as_str(), entry.1, entry.2.clone())).collect();
    assert_eq!(
        asked,
        vec![
            ("generation", 11u64, 0usize..16usize),
            ("generation", 11u64, 16usize..32usize),
            ("retrieval", 11u64, 0usize..16usize),
            ("store", 11u64, 0usize..16usize),
            ("store", 11u64, 16usize..32usize),
            ("shadow", 11u64, 0usize..16usize),
        ]
    );
}

#[test]
fn empty_backlogs_give_no_pending_tasks() {
    let (chain, mut block) = block(Chain::new(), 1);
    assert_eq!(drain(&mut block), Vec::new());
    assert_eq!(chain.log.lock().unwrap().len(), 4);
}

#[test]
fn failed_backlog_is_passed_over() {
    let mut chain = Chain::new();
    chain.generation = vec![generation_task(1)];
    chain.retrieval = vec![retrieval_task(1)];
    chain.fail_retrieval = true;
    chain.shadow = vec![shadow_task(1)];
    let (_chain, mut block) = block(chain, 1);
    assert_eq!(drain(&mut block), vec![generation_task(1), shadow_task(1)]);
}

#[test]
fn each_scan_starts_from_the_beginning() {
    let mut chain = Chain::new();
    chain.generation = vec![generation_task(1), generation_task(2)];
    let (chain, mut block) = block(chain, 1);
    let mut first = block.pending_tasks();
    assert_eq!(first.next(), Some(generation_task(1)));
    assert_eq!(drain(&mut block), vec![generation_task(1), generation_task(2)]);
    assert_eq!(first.next(), Some(generation_task(2)));
    assert_eq!(chain.log.lock().unwrap()[0], (String::from("generation"), 1u64, 0usize..16usize));
}

#[test]
fn key_servers_set_is_the_chain_s() {
    let (_chain, mut block) = block(Chain::new(), 1);
    let set = block.current_key_servers_set();
    assert_eq!(set.len(), 2);
    assert!(set.contains(&Address([1u8; 20])));
    assert!(set.contains(&Address([2u8; 20])));
}
