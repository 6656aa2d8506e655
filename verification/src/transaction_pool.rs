//! Sends the key server's results back on chain. A response goes to the
//! transaction pool only while the chain still waits for it from this key
//! server, and at most once per call.

use vstd::prelude::*;
use std::sync::Arc;
use crate::blockchain::{Blockchain, TransactionPool};
use crate::types::{
    Address, SecretStoreCall, ServerKeyGenerationArtifacts, ServerKeyId,
    ServerKeyRetrievalArtifacts,
};

verus! {

/// What became of one response.
#[derive(Debug, PartialEq, Eq)]
pub enum ResponseOutcome<H> {
    /// The chain does not wait for this response: nothing was submitted.
    NotRequired,
    /// The chain could not be asked whether it waits for the response:
    /// nothing was submitted.
    CheckFailed(String),
    /// The response transaction could not be prepared: nothing was submitted.
    PrepareFailed(String),
    /// The response transaction is in the pool under the given hash.
    Submitted(H),
    /// The pool was handed the response transaction and refused it.
    SubmitFailed(String),
}

impl<H> ResponseOutcome<H> {
    /// Number of transactions that were handed to the pool.
    pub open spec fn submissions(self) -> nat {
        match self {
            ResponseOutcome::Submitted(_) | ResponseOutcome::SubmitFailed(_) => 1,
            _ => 0,
        }
    }
}

/// The outcome of a response, given what the chain said of whether it is
/// required, what preparing the transaction gave, and what the pool said of
/// the transaction. The later answers count only where the earlier ones let
/// the response go on.
pub open spec fn response_outcome<H>(
    required: Result<bool, String>,
    prepared: Result<SecretStoreCall, String>,
    submitted: Result<H, String>,
) -> ResponseOutcome<H> {
    match required {
        Err(error) => ResponseOutcome::CheckFailed(error),
        Ok(false) => ResponseOutcome::NotRequired,
        Ok(true) => match prepared {
            Err(error) => ResponseOutcome::PrepareFailed(error),
            Ok(_) => match submitted {
                Ok(hash) => ResponseOutcome::Submitted(hash),
                Err(error) => ResponseOutcome::SubmitFailed(error),
            },
        },
    }
}

/// A transaction is handed to the pool exactly when the chain says that the
/// response is required and the transaction could be prepared.
pub proof fn lemma_submits_exactly_when_required<H>(
    required: Result<bool, String>,
    prepared: Result<SecretStoreCall, String>,
    submitted: Result<H, String>,
)
    ensures
        response_outcome(required, prepared, submitted).submissions() == (if required == Ok::<
            bool,
            String,
        >(true) && prepared is Ok {
            1nat
        } else {
            0nat
        }),
{
}

/// A result that is published twice is submitted once: when the first call
/// finds the response required and hands its transaction to the pool, and the
/// second call finds it no longer required, one transaction in all has been
/// handed to the pool.
pub proof fn lemma_answered_response_is_not_submitted_again<H>(
    call: SecretStoreCall,
    first_submitted: Result<H, String>,
    second_prepared: Result<SecretStoreCall, String>,
    second_submitted: Result<H, String>,
)
    ensures
        response_outcome(Ok(true), Ok(call), first_submitted).submissions() + response_outcome(
            Ok(false),
            second_prepared,
            second_submitted,
        ).submissions() == 1,
        response_outcome(Ok(false), second_prepared, second_submitted)
            == ResponseOutcome::<H>::NotRequired,
{
}

/// Substrate transaction pool.
pub struct SubstrateTransactionPool<B, P> {
    /// Shared blockchain reference.
    blockchain: Arc<B>,
    /// Shared reference to actual transaction pool.
    transaction_pool: Arc<P>,
    /// This key server address.
    key_server_address: Address,
}

impl<B, P> SubstrateTransactionPool<B, P> where B: Blockchain, P: TransactionPool {
    /// The chain that is asked whether a response is required.
    pub closed spec fn blockchain(&self) -> Arc<B> {
        self.blockchain
    }

    /// The pool that response transactions are handed to.
    pub closed spec fn transaction_pool(&self) -> Arc<P> {
        self.transaction_pool
    }

    /// The address under which this key server answers.
    pub closed spec fn key_server_address(&self) -> Address {
        self.key_server_address
    }

    /// `outcome` is what a response comes to, given what the chain said of
    /// whether it is required and what preparing its transaction gave: the
    /// prepared call is handed to the pool where the response goes that far,
    /// and the pool's answer decides the rest.
    pub open spec fn submits(
        &self,
        required: Result<bool, String>,
        prepared: Result<SecretStoreCall, String>,
        outcome: ResponseOutcome<P::TransactionHash>,
    ) -> bool {
        exists|submitted: Result<P::TransactionHash, String>|
            {
                &&& (required == Ok::<bool, String>(true) && prepared is Ok) ==> call_ensures(
                    P::submit_transaction,
                    (&*self.transaction_pool(), prepared->Ok_0),
                    submitted,
                )
                &&& outcome == #[trigger] response_outcome(required, prepared, submitted)
            }
    }

    /// Create new transaction pool.
    pub fn new(blockchain: Arc<B>, transaction_pool: Arc<P>, key_server_address: Address) -> (pool:
        Self)
        ensures
            pool.blockchain() == blockchain,
            pool.transaction_pool() == transaction_pool,
            pool.key_server_address() == key_server_address,
    {
        SubstrateTransactionPool { blockchain, transaction_pool, key_server_address }
    }

    /// Send response transaction if required.
    ///
    /// Asks first whether the response is required. Only if it is, the
    /// transaction is prepared and then handed to the pool, once. Nothing is
    /// tried again.
    pub fn submit_response_transaction<R, T>(
        &self,
        is_response_required: R,
        prepare_response: T,
    ) -> (outcome: ResponseOutcome<P::TransactionHash>) where
        R: FnOnce() -> Result<bool, String>,
        T: FnOnce() -> Result<SecretStoreCall, String>,

        requires
            call_requires(is_response_required, ()),
            call_requires(prepare_response, ()),
        ensures
            exists|required: Result<bool, String>, prepared: Result<SecretStoreCall, String>|
                {
                    &&& call_ensures(is_response_required, (), required)
                    &&& required == Ok::<bool, String>(true) ==> call_ensures(
                        prepare_response,
                        (),
                        prepared,
                    )
                    &&& #[trigger] self.submits(required, prepared, outcome)
                },
    {
        let required = is_response_required();
        match required {
            Ok(true) => {},
            Ok(false) => {
                let ghost prepared: Result<SecretStoreCall, String> = arbitrary();
                let ghost submitted: Result<P::TransactionHash, String> = arbitrary();
                assert(ResponseOutcome::<P::TransactionHash>::NotRequired == response_outcome(
                    required,
                    prepared,
                    submitted,
                ));
                assert(self.submits(required, prepared, ResponseOutcome::NotRequired));
                return ResponseOutcome::NotRequired;
            },
            Err(error) => {
                let ghost prepared: Result<SecretStoreCall, String> = arbitrary();
                let ghost submitted: Result<P::TransactionHash, String> = arbitrary();
                assert(ResponseOutcome::<P::TransactionHash>::CheckFailed(error)
                    == response_outcome(required, prepared, submitted));
                assert(self.submits(required, prepared, ResponseOutcome::CheckFailed(error)));
                return ResponseOutcome::CheckFailed(error);
            },
        }
        let prepared = prepare_response();
        match prepared {
            Err(error) => {
                let ghost submitted: Result<P::TransactionHash, String> = arbitrary();
                assert(ResponseOutcome::<P::TransactionHash>::PrepareFailed(error)
                    == response_outcome(required, prepared, submitted));
                assert(self.submits(required, prepared, ResponseOutcome::PrepareFailed(error)));
                ResponseOutcome::PrepareFailed(error)
            },
            Ok(transaction) => {
                let submitted = self.transaction_pool.submit_transaction(transaction);
                let outcome = match submitted {
                    Ok(transaction_hash) => ResponseOutcome::Submitted(transaction_hash),
                    Err(error) => ResponseOutcome::SubmitFailed(error),
                };
                assert(outcome == response_outcome(required, prepared, submitted));
                assert(self.submits(required, prepared, outcome));
                outcome
            },
        }
    }

    /// `outcome` is what publishing `call` comes to, when `required` is what
    /// the chain said of whether the response is required.
    pub open spec fn publishes(
        &self,
        required: Result<bool, String>,
        call: SecretStoreCall,
        outcome: ResponseOutcome<P::TransactionHash>,
    ) -> bool {
        self.submits(required, Ok(call), outcome)
    }

    /// Publishes the generated server key, if the chain still waits for this
    /// key server to do so.
    pub fn publish_generated_server_key(
        &self,
        _origin: Address,
        key_id: ServerKeyId,
        artifacts: ServerKeyGenerationArtifacts,
    ) -> (outcome: ResponseOutcome<P::TransactionHash>)
        ensures
            exists|required: Result<bool, String>|
                {
                    &&& call_ensures(
                        B::is_server_key_generation_response_required,
                        (&*self.blockchain(), key_id, self.key_server_address()),
                        required,
                    )
                    &&& #[trigger] self.publishes(
                        required,
                        SecretStoreCall::ServerKeyGenerated(key_id, artifacts.key),
                        outcome,
                    )
                },
    {
        let blockchain = &self.blockchain;
        let key_server_address = self.key_server_address;
        let ghost call = SecretStoreCall::ServerKeyGenerated(key_id, artifacts.key);
        let is_response_required = || -> (required: Result<bool, String>)
            ensures
                call_ensures(
                    B::is_server_key_generation_response_required,
                    (&**blockchain, key_id, key_server_address),
                    required,
                ),
            { blockchain.is_server_key_generation_response_required(key_id, key_server_address) };
        let prepare_response = || -> (prepared: Result<SecretStoreCall, String>)
            ensures
                prepared == Ok::<SecretStoreCall, String>(call),
            { Ok(SecretStoreCall::ServerKeyGenerated(key_id, artifacts.key)) };
        let outcome = self.submit_response_transaction(is_response_required, prepare_response);
        proof {
            self.lemma_publishes(is_response_required, prepare_response, call, outcome);
        }
        outcome
    }

    /// Publishes that the server key could not be generated, if the chain
    /// still waits for this key server's response.
    pub fn publish_server_key_generation_error(&self, _origin: Address, key_id: ServerKeyId) -> (outcome:
        ResponseOutcome<P::TransactionHash>)
        ensures
            exists|required: Result<bool, String>|
                {
                    &&& call_ensures(
                        B::is_server_key_generation_response_required,
                        (&*self.blockchain(), key_id, self.key_server_address()),
                        required,
                    )
                    &&& #[trigger] self.publishes(
                        required,
                        SecretStoreCall::ServerKeyGenerationError(key_id),
                        outcome,
                    )
                },
    {
        let blockchain = &self.blockchain;
        let key_server_address = self.key_server_address;
        let ghost call = SecretStoreCall::ServerKeyGenerationError(key_id);
        let is_response_required = || -> (required: Result<bool, String>)
            ensures
                call_ensures(
                    B::is_server_key_generation_response_required,
                    (&**blockchain, key_id, key_server_address),
                    required,
                ),
            { blockchain.is_server_key_generation_response_required(key_id, key_server_address) };
        let prepare_response = || -> (prepared: Result<SecretStoreCall, String>)
            ensures
                prepared == Ok::<SecretStoreCall, String>(call),
            { Ok(SecretStoreCall::ServerKeyGenerationError(key_id)) };
        let outcome = self.submit_response_transaction(is_response_required, prepare_response);
        proof {
            self.lemma_publishes(is_response_required, prepare_response, call, outcome);
        }
        outcome
    }

    /// Publishes the retrieved server key, if the chain still waits for this
    /// key server to do so.
    pub fn publish_retrieved_server_key(
        &self,
        _origin: Address,
        key_id: ServerKeyId,
        artifacts: ServerKeyRetrievalArtifacts,
    ) -> (outcome: ResponseOutcome<P::TransactionHash>)
        ensures
            exists|required: Result<bool, String>|
                {
                    &&& call_ensures(
                        B::is_server_key_retrieval_response_required,
                        (&*self.blockchain(), key_id, self.key_server_address()),
                        required,
                    )
                    &&& #[trigger] self.publishes(
                        required,
                        SecretStoreCall::ServerKeyRetrieved(key_id, artifacts.key),
                        outcome,
                    )
                },
    {
        let blockchain = &self.blockchain;
        let key_server_address = self.key_server_address;
        let ghost call = SecretStoreCall::ServerKeyRetrieved(key_id, artifacts.key);
        let is_response_required = || -> (required: Result<bool, String>)
            ensures
                call_ensures(
                    B::is_server_key_retrieval_response_required,
                    (&**blockchain, key_id, key_server_address),
                    required,
                ),
            { blockchain.is_server_key_retrieval_response_required(key_id, key_server_address) };
        let prepare_response = || -> (prepared: Result<SecretStoreCall, String>)
            ensures
                prepared == Ok::<SecretStoreCall, String>(call),
            { Ok(SecretStoreCall::ServerKeyRetrieved(key_id, artifacts.key)) };
        let outcome = self.submit_response_transaction(is_response_required, prepare_response);
        proof {
            self.lemma_publishes(is_response_required, prepare_response, call, outcome);
        }
        outcome
    }

    /// Publishes that the server key could not be retrieved, if the chain
    /// still waits for this key server's response.
    pub fn publish_server_key_retrieval_error(&self, _origin: Address, key_id: ServerKeyId) -> (outcome:
        ResponseOutcome<P::TransactionHash>)
        ensures
            exists|required: Result<bool, String>|
                {
                    &&& call_ensures(
                        B::is_server_key_retrieval_response_required,
                        (&*self.blockchain(), key_id, self.key_server_address()),
                        required,
                    )
                    &&& #[trigger] self.publishes(
                        required,
                        SecretStoreCall::ServerKeyRetrievalError(key_id),
                        outcome,
                    )
                },
    {
        let blockchain = &self.blockchain;
        let key_server_address = self.key_server_address;
        let ghost call = SecretStoreCall::ServerKeyRetrievalError(key_id);
        let is_response_required = || -> (required: Result<bool, String>)
            ensures
                call_ensures(
                    B::is_server_key_retrieval_response_required,
                    (&**blockchain, key_id, key_server_address),
                    required,
                ),
            { blockchain.is_server_key_retrieval_response_required(key_id, key_server_address) };
        let prepare_response = || -> (prepared: Result<SecretStoreCall, String>)
            ensures
                prepared == Ok::<SecretStoreCall, String>(call),
            { Ok(SecretStoreCall::ServerKeyRetrievalError(key_id)) };
        let outcome = self.submit_response_transaction(is_response_required, prepare_response);
        proof {
            self.lemma_publishes(is_response_required, prepare_response, call, outcome);
        }
        outcome
    }

    /// Where preparing a response always gives `call`, the response comes to
    /// what publishing `call` comes to.
    proof fn lemma_publishes<R, T>(
        &self,
        is_response_required: R,
        prepare_response: T,
        call: SecretStoreCall,
        outcome: ResponseOutcome<P::TransactionHash>,
    ) where R: FnOnce() -> Result<bool, String>, T: FnOnce() -> Result<SecretStoreCall, String>
        requires
            forall|prepared: Result<SecretStoreCall, String>|
                call_ensures(prepare_response, (), prepared) ==> prepared == Ok::<
                    SecretStoreCall,
                    String,
                >(call),
            exists|required: Result<bool, String>, prepared: Result<SecretStoreCall, String>|
                {
                    &&& call_ensures(is_response_required, (), required)
                    &&& required == Ok::<bool, String>(true) ==> call_ensures(
                        prepare_response,
                        (),
                        prepared,
                    )
                    &&& #[trigger] self.submits(required, prepared, outcome)
                },
        ensures
            exists|required: Result<bool, String>|
                {
                    &&& call_ensures(is_response_required, (), required)
                    &&& #[trigger] self.publishes(required, call, outcome)
                },
    {
        let (required, prepared) = choose|
            required: Result<bool, String>,
            prepared: Result<SecretStoreCall, String>,
        |
            {
                &&& call_ensures(is_response_required, (), required)
                &&& required == Ok::<bool, String>(true) ==> call_ensures(
                    prepare_response,
                    (),
                    prepared,
                )
                &&& #[trigger] self.submits(required, prepared, outcome)
            };
        let submitted = choose|submitted: Result<P::TransactionHash, String>|
            {
                &&& (required == Ok::<bool, String>(true) && prepared is Ok) ==> call_ensures(
                    P::submit_transaction,
                    (&*self.transaction_pool(), prepared->Ok_0),
                    submitted,
                )
                &&& outcome == #[trigger] response_outcome(required, prepared, submitted)
            };
        assert(outcome == response_outcome(required, Ok(call), submitted));
        assert(self.submits(required, Ok(call), outcome));
        assert(self.publishes(required, call, outcome));
    }
}

} // verus!
