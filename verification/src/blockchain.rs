//! What the bridge needs from its surroundings: a view of the chain and a
//! transaction pool. Both are implemented by whoever runs the bridge, against
//! a real node. Nothing is promised of their answers: the bridge is verified
//! for every answer that they may give.

use vstd::prelude::*;
use std::collections::BTreeSet;
use std::ops::Range;
use std::sync::Arc;
use crate::types::{
    BlockchainServiceTask, KeyServerId, SecretStoreCall, SecretStoreEvent, ServerKeyId,
};

verus! {

/// Block event that is maybe an event of the secret store runtime module.
pub trait MaybeSecretStoreEvent {
    /// Gives the secret store event, if it is one.
    fn as_secret_store_event(self) -> Option<SecretStoreEvent>;
}

/// Substrate blockchain.
pub trait Blockchain: 'static + Send + Sync {
    /// Block hash type.
    type BlockHash: Clone + Send + Sync;

    /// Blockchain event type.
    type Event: MaybeSecretStoreEvent;

    /// The events of the given block, in the order in which they occurred.
    fn block_events(&self, block_hash: Self::BlockHash) -> Vec<Self::Event>;

    /// The key servers set at the best known block.
    fn current_key_servers_set(&self) -> BTreeSet<KeyServerId>;

    /// Pending server key generation tasks in the given range, at the given
    /// block.
    fn server_key_generation_tasks(
        &self,
        block_hash: Self::BlockHash,
        range: Range<usize>,
    ) -> Result<Vec<BlockchainServiceTask>, String>;

    /// Does the chain still wait for this key server's response to the
    /// server key generation request?
    fn is_server_key_generation_response_required(
        &self,
        key_id: ServerKeyId,
        key_server_id: KeyServerId,
    ) -> Result<bool, String>;

    /// Pending server key retrieval tasks in the given range, at the given
    /// block.
    fn server_key_retrieval_tasks(
        &self,
        block_hash: Self::BlockHash,
        range: Range<usize>,
    ) -> Result<Vec<BlockchainServiceTask>, String>;

    /// Does the chain still wait for this key server's response to the
    /// server key retrieval request?
    fn is_server_key_retrieval_response_required(
        &self,
        key_id: ServerKeyId,
        key_server_id: KeyServerId,
    ) -> Result<bool, String>;

    /// Pending document key store tasks in the given range, at the given
    /// block.
    fn document_key_store_tasks(
        &self,
        block_hash: Self::BlockHash,
        range: Range<usize>,
    ) -> Result<Vec<BlockchainServiceTask>, String>;

    /// Pending document key shadow retrieval tasks in the given range, at the
    /// given block.
    fn document_key_shadow_retrieval_tasks(
        &self,
        block_hash: Self::BlockHash,
        range: Range<usize>,
    ) -> Result<Vec<BlockchainServiceTask>, String>;
}

/// Transaction pool API.
pub trait TransactionPool: Send + Sync + 'static {
    /// Transaction hash.
    type TransactionHash: std::fmt::Display;

    /// Submit transaction to the pool.
    fn submit_transaction(&self, call: SecretStoreCall) -> Result<Self::TransactionHash, String>;
}

/// Another handle to the value that `handle` shares.
///
/// Calls `Arc::clone`, which makes a new pointer to the same allocation: the
/// value behind the result is the value behind `handle`.
#[verifier::external_body]
pub(crate) fn share<T>(handle: &Arc<T>) -> (shared: Arc<T>)
    ensures
        shared == *handle,
{
    Arc::clone(handle)
}

} // verus!
