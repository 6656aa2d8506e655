//! Bridge between a Substrate chain that carries the secret store runtime
//! module and a key server: block events become service tasks, backlogs are
//! scanned page by page, and the key server's results go back on chain as
//! transactions, each only while the chain still asks for it.

pub mod block;
pub mod block_laws;
pub mod blockchain;
pub mod pager;
pub mod pager_laws;
pub mod transaction_pool;
pub mod types;

pub use types::{
    Address, BlockId, BlockchainServiceTask, KeyServerId, Public, Requester, SecretStoreCall,
    SecretStoreEvent, ServerKeyGenerationArtifacts, ServerKeyId, ServerKeyRetrievalArtifacts,
    ServiceTask, TaskCategory,
};
pub use pager::{PagerView, PendingTasksIterator, PENDING_RANGE_LENGTH};
pub use block::{event_into_task, PendingTasks, PendingView, SubstrateBlock};
pub use blockchain::{Blockchain, MaybeSecretStoreEvent, TransactionPool};
pub use transaction_pool::{ResponseOutcome, SubstrateTransactionPool};
