//! What the creation of a transaction leaves behind, and a builder for it.

use std::sync::Arc;
use vstd::prelude::*;

use crate::network::Network;

verus! {

/// What the creation of a transaction leaves behind: the transaction, a `T`, and the details from
/// which it was made, a `D`.
#[derive(Debug)]
pub struct TxCreationArtifacts<D, T> {
    pub network: Network,
    pub transaction: Arc<T>,
    pub details: Arc<D>,
}

/// Why artifacts could not be built.
#[derive(Clone, Copy, Debug, PartialEq, Eq, Structural)]
pub enum CreateTxError {
    /// Something that is required was not given.
    MissingRequirement,
}

/// A builder for [`TxCreationArtifacts`].
#[derive(Debug)]
pub struct TxCreationArtifactsBuilder<D, T> {
    transaction_details: Option<Arc<D>>,
    transaction: Option<Arc<T>>,
    network: Option<Network>,
}

impl<D, T> TxCreationArtifactsBuilder<D, T> {
    /// The transaction details, if they were given.
    pub closed spec fn spec_transaction_details(self) -> Option<Arc<D>> {
        self.transaction_details
    }

    /// The transaction, if it was given.
    pub closed spec fn spec_transaction(self) -> Option<Arc<T>> {
        self.transaction
    }

    /// The network, if it was given.
    pub closed spec fn spec_network(self) -> Option<Network> {
        self.network
    }

    /// The builder with these transaction details and otherwise as it is.
    pub closed spec fn with_transaction_details(self, details: Arc<D>) -> Self {
        TxCreationArtifactsBuilder { transaction_details: Some(details), ..self }
    }

    /// The builder with this transaction and otherwise as it is.
    pub closed spec fn with_transaction(self, transaction: Arc<T>) -> Self {
        TxCreationArtifactsBuilder { transaction: Some(transaction), ..self }
    }

    /// The builder with this network and otherwise as it is.
    pub closed spec fn with_network(self, network: Network) -> Self {
        TxCreationArtifactsBuilder { network: Some(network), ..self }
    }

    /// A builder to which nothing was given yet.
    pub fn new() -> (b: TxCreationArtifactsBuilder<D, T>)
        ensures
            b.spec_transaction_details() is None,
            b.spec_transaction() is None,
            b.spec_network() is None,
    {
        TxCreationArtifactsBuilder { transaction_details: None, transaction: None, network: None }
    }

    /// Adds the transaction details (required).
    pub fn transaction_details(self, transaction_details: impl Into<Arc<D>>) -> (b:
        TxCreationArtifactsBuilder<D, T>)
        ensures
            b.spec_transaction_details() is Some,
            call_ensures(
                Into::<Arc<D>>::into,
                (transaction_details,),
                b.spec_transaction_details()->0,
            ),
            b == self.with_transaction_details(b.spec_transaction_details()->0),
            b.spec_transaction() == self.spec_transaction(),
            b.spec_network() == self.spec_network(),
    {
        let details: Arc<D> = transaction_details.into();
        TxCreationArtifactsBuilder {
            transaction_details: Some(details),
            transaction: self.transaction,
            network: self.network,
        }
    }

    /// Adds the transaction (required).
    pub fn transaction(self, transaction: impl Into<Arc<T>>) -> (b: TxCreationArtifactsBuilder<
        D,
        T,
    >)
        ensures
            b.spec_transaction() is Some,
            call_ensures(Into::<Arc<T>>::into, (transaction,), b.spec_transaction()->0),
            b == self.with_transaction(b.spec_transaction()->0),
            b.spec_transaction_details() == self.spec_transaction_details(),
            b.spec_network() == self.spec_network(),
    {
        let transaction: Arc<T> = transaction.into();
        TxCreationArtifactsBuilder {
            transaction_details: self.transaction_details,
            transaction: Some(transaction),
            network: self.network,
        }
    }

    /// Adds the network (required).
    pub fn network(self, network: Network) -> (b: TxCreationArtifactsBuilder<D, T>)
        ensures
            b == self.with_network(network),
            b.spec_network() == Some(network),
            b.spec_transaction_details() == self.spec_transaction_details(),
            b.spec_transaction() == self.spec_transaction(),
    {
        TxCreationArtifactsBuilder {
            transaction_details: self.transaction_details,
            transaction: self.transaction,
            network: Some(network),
        }
    }

    /// Builds the artifacts, which are not validated. It takes all three parts.
    pub fn build(self) -> (r: Result<TxCreationArtifacts<D, T>, CreateTxError>)
        ensures
            match (self.spec_transaction(), self.spec_transaction_details(), self.spec_network()) {
                (Some(transaction), Some(details), Some(network)) => r == Ok::<
                    TxCreationArtifacts<D, T>,
                    CreateTxError,
                >(TxCreationArtifacts { network, transaction, details }),
                _ => r == Err::<TxCreationArtifacts<D, T>, CreateTxError>(
                    CreateTxError::MissingRequirement,
                ),
            },
    {
        match (self.transaction, self.transaction_details, self.network) {
            (Some(transaction), Some(details), Some(network)) => Ok(
                TxCreationArtifacts { network, transaction, details },
            ),
            _ => Err(CreateTxError::MissingRequirement),
        }
    }
}

/// Of several calls of the same setter, the last one wins.
pub proof fn lemma_last_setter_wins<D, T>(
    b: TxCreationArtifactsBuilder<D, T>,
    n1: Network,
    n2: Network,
    t1: Arc<T>,
    t2: Arc<T>,
    d1: Arc<D>,
    d2: Arc<D>,
)
    ensures
        b.with_network(n1).with_network(n2) == b.with_network(n2),
        b.with_transaction(t1).with_transaction(t2) == b.with_transaction(t2),
        b.with_transaction_details(d1).with_transaction_details(d2) == b.with_transaction_details(
            d2,
        ),
{
}

/// What is set is there afterwards, and what else was there still is.
pub proof fn lemma_setters_set<D, T>(
    b: TxCreationArtifactsBuilder<D, T>,
    n: Network,
    t: Arc<T>,
    d: Arc<D>,
)
    ensures
        b.with_network(n).spec_network() == Some(n),
        b.with_network(n).spec_transaction() == b.spec_transaction(),
        b.with_network(n).spec_transaction_details() == b.spec_transaction_details(),
        b.with_transaction(t).spec_transaction() == Some(t),
        b.with_transaction(t).spec_network() == b.spec_network(),
        b.with_transaction(t).spec_transaction_details() == b.spec_transaction_details(),
        b.with_transaction_details(d).spec_transaction_details() == Some(d),
        b.with_transaction_details(d).spec_network() == b.spec_network(),
        b.with_transaction_details(d).spec_transaction() == b.spec_transaction(),
{
}

/// The order in which different setters are called does not matter.
pub proof fn lemma_setters_commute<D, T>(
    b: TxCreationArtifactsBuilder<D, T>,
    n: Network,
    t: Arc<T>,
    d: Arc<D>,
)
    ensures
        b.with_network(n).with_transaction(t) == b.with_transaction(t).with_network(n),
        b.with_network(n).with_transaction_details(d) == b.with_transaction_details(d).with_network(
            n,
        ),
        b.with_transaction(t).with_transaction_details(d) == b.with_transaction_details(
            d,
        ).with_transaction(t),
        b.with_transaction(t).with_transaction_details(d).with_network(n) == b.with_network(
            n,
        ).with_transaction_details(d).with_transaction(t),
{
}

impl<D, T> Default for TxCreationArtifactsBuilder<D, T> {
    /// A builder to which nothing was given yet.
    fn default() -> (b: TxCreationArtifactsBuilder<D, T>)
        ensures
            b.spec_transaction_details() is None,
            b.spec_transaction() is None,
            b.spec_network() is None,
    {
        TxCreationArtifactsBuilder::new()
    }
}

} // verus!
