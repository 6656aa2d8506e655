//! Plain-value data that travels between the chain, the key server and the
//! transaction pool: identifiers, runtime events, service tasks and the calls
//! that answer them.

use vstd::prelude::*;

verus! {

/// Identifier of a server key: 256 bits.
#[derive(Clone, Copy, Debug, PartialEq, Eq, PartialOrd, Ord, Hash)]
pub struct ServerKeyId(pub [u8; 32]);

/// Account address: 160 bits.
#[derive(Clone, Copy, Debug, PartialEq, Eq, PartialOrd, Ord, Hash)]
pub struct Address(pub [u8; 20]);

/// Public key: 512 bits.
#[derive(Clone, Copy, Debug, PartialEq, Eq, PartialOrd, Ord, Hash)]
pub struct Public(pub [u8; 64]);

/// A key server is known on chain by its address.
pub type KeyServerId = Address;

impl Address {
    /// The address whose bytes are all zero.
    pub open spec fn spec_zero() -> Address {
        Address(vstd::array::spec_array_fill_for_copy_type::<u8, 20>(0u8))
    }
}

impl Default for Address {
    /// The all-zero address, which stands for "no particular origin".
    fn default() -> (address: Address)
        ensures
            address == Address::spec_zero(),
    {
        Address([0u8; 20])
    }
}

/// Who asked for an operation on a key.
#[derive(Clone, Copy, Debug, PartialEq, Eq)]
pub enum Requester {
    /// Known by a signature over the server key id.
    Signature([u8; 65]),
    /// Known by public key.
    Public(Public),
    /// Known by an address that the chain has verified.
    Address(Address),
}

/// One unit of work for the key server.
#[derive(Clone, Copy, Debug, PartialEq, Eq)]
pub enum ServiceTask {
    /// Generate a server key with the given id and threshold.
    GenerateServerKey(ServerKeyId, Requester, usize),
    /// Retrieve the public portion of a server key.
    RetrieveServerKey(ServerKeyId, Option<Requester>),
    /// Store a document key: common point and encrypted point.
    StoreDocumentKey(ServerKeyId, Requester, Public, Public),
    /// Retrieve the shadow of a document key.
    RetrieveShadowDocumentKey(ServerKeyId, Requester),
}

/// A task together with the address of the module it came from.
#[derive(Clone, Copy, Debug, PartialEq, Eq)]
pub enum BlockchainServiceTask {
    /// A regular task: origin, then the work to do.
    Regular(Address, ServiceTask),
}

/// Events that the secret store runtime module deposits in a block.
#[derive(Clone, Copy, Debug, PartialEq, Eq)]
pub enum SecretStoreEvent {
    /// Generation of a server key was requested: key id, requester, threshold.
    ServerKeyGenerationRequested(ServerKeyId, Address, u8),
    /// A server key was generated.
    ServerKeyGenerated(ServerKeyId, Public),
    /// Generation of a server key failed.
    ServerKeyGenerationError(ServerKeyId),
    /// Retrieval of a server key was requested.
    ServerKeyRetrievalRequested(ServerKeyId),
    /// A server key was retrieved.
    ServerKeyRetrieved(ServerKeyId, Public),
    /// Retrieval of a server key failed.
    ServerKeyRetrievalError(ServerKeyId),
    /// Storing of a document key was requested: key id, author, common point,
    /// encrypted point.
    DocumentKeyStoreRequested(ServerKeyId, Address, Public, Public),
    /// Retrieval of a document key shadow was requested: key id, requester.
    DocumentKeyShadowRetrievalRequested(ServerKeyId, Address),
}

/// Calls into the secret store runtime module, each of which answers a task.
#[derive(Clone, Copy, Debug, PartialEq, Eq)]
pub enum SecretStoreCall {
    /// The server key has been generated.
    ServerKeyGenerated(ServerKeyId, Public),
    /// The server key could not be generated.
    ServerKeyGenerationError(ServerKeyId),
    /// The server key has been retrieved.
    ServerKeyRetrieved(ServerKeyId, Public),
    /// The server key could not be retrieved.
    ServerKeyRetrievalError(ServerKeyId),
}

/// What a successful server key generation leaves behind.
#[derive(Clone, Copy, Debug, PartialEq, Eq)]
pub struct ServerKeyGenerationArtifacts {
    /// Public portion of the generated key.
    pub key: Public,
}

/// What a successful server key retrieval leaves behind.
#[derive(Clone, Copy, Debug, PartialEq, Eq)]
pub struct ServerKeyRetrievalArtifacts {
    /// Public portion of the retrieved key.
    pub key: Public,
    /// Threshold that the key was generated with.
    pub threshold: usize,
}

/// Reference to a block of the chain.
pub enum BlockId<Hash> {
    /// The block with the given hash.
    Hash(Hash),
    /// The best known block.
    Best,
}

/// The four independent backlogs of a block, in the order in which they are
/// scanned.
#[derive(Clone, Copy, Debug, PartialEq, Eq)]
pub enum TaskCategory {
    /// Pending server key generations.
    ServerKeyGeneration,
    /// Pending server key retrievals.
    ServerKeyRetrieval,
    /// Pending document key stores.
    DocumentKeyStore,
    /// Pending document key shadow retrievals.
    DocumentKeyShadowRetrieval,
}

} // verus!
