//! The parts of a node's configuration that locate its genesis transaction.

use vstd::prelude::*;

verus! {

/// The execution section of a node's configuration.
#[derive(Clone, Debug, PartialEq, Eq)]
pub struct ExecutionConfig<T> {
    /// The genesis transaction, when the node is given one.
    pub genesis: Option<T>,
}

/// A node's configuration, over the type of its transactions.
#[derive(Clone, Debug, PartialEq, Eq)]
pub struct NodeConfig<T> {
    pub execution: ExecutionConfig<T>,
}

/// The genesis transaction stored in the execution section of `config`, if
/// one is set.
pub fn get_genesis_txn<T>(config: &NodeConfig<T>) -> (r: Option<&T>)
    ensures
        match r {
            Some(t) => config.execution.genesis == Some(*t),
            None => config.execution.genesis is None,
        },
{
    config.execution.genesis.as_ref()
}

} // verus!
