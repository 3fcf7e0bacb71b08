//! The normalized event model: the messages that flow from the producers
//! over the bus to every consumer.

use vstd::prelude::*;

use crate::uint256::Uint256;

verus! {

/// `ethers_core::types::Transaction`: the full transaction payload as
/// received from the chain. This core carries it through without reading
/// it, so it stays opaque here.
#[verifier::external_type_specification]
#[verifier::external_body]
pub struct ExTransaction(ethers_core::types::Transaction);

/// Relies on the derived `Clone` of `ethers_core::types::Transaction`,
/// which copies the payload field for field, so the clone equals the
/// original as a value.
#[verifier::external_body]
fn clone_transaction(tx: &ethers_core::types::Transaction) -> (r: ethers_core::types::Transaction)
    ensures
        r == *tx,
{
    tx.clone()
}

/// Relies on the derived `Default` of `ethers_core::types::Transaction`
/// for an empty placeholder payload.
#[verifier::external_body]
fn default_transaction() -> (r: ethers_core::types::Transaction) {
    ethers_core::types::Transaction::default()
}

/// An immutable snapshot of one block, as far as fee forecasting needs it.
/// `next_base_fee` is computed once, at ingestion, and never recomputed.
#[derive(Clone, Copy, Debug)]
pub struct NewBlock {
    pub block_number: u64,
    pub base_fee: Uint256,
    pub next_base_fee: Uint256,
}

impl Default for NewBlock {
    fn default() -> (r: Self)
        ensures
            r.block_number == 0,
            r.base_fee.value() == 0,
            r.next_base_fee.value() == 0,
    {
        NewBlock {
            block_number: 0,
            base_fee: Uint256::from_u64(0),
            next_base_fee: Uint256::from_u64(0),
        }
    }
}

/// A pending transaction as observed on the propagation network.
/// `added_block` is unset at creation and never written by this core; an
/// external collaborator may later record the block of inclusion there.
#[derive(Debug)]
pub struct NewPendingTx {
    pub added_block: Option<u64>,
    pub tx: ethers_core::types::Transaction,
}

impl Clone for NewPendingTx {
    fn clone(&self) -> (r: Self)
        ensures
            r == *self,
    {
        NewPendingTx { added_block: self.added_block, tx: clone_transaction(&self.tx) }
    }
}

impl Default for NewPendingTx {
    fn default() -> (r: Self)
        ensures
            r.added_block is None,
    {
        NewPendingTx { added_block: None, tx: default_transaction() }
    }
}

/// The tagged union every consumer receives: one variant per producer.
#[derive(Debug)]
pub enum Event {
    Block(NewBlock),
    PendingTx(NewPendingTx),
}

impl Clone for Event {
    fn clone(&self) -> (r: Self)
        ensures
            r == *self,
    {
        match self {
            Event::Block(block) => Event::Block(*block),
            Event::PendingTx(pending) => Event::PendingTx(pending.clone()),
        }
    }
}

/// Whether an event originated from the block producer.
pub open spec fn is_block_event(e: Event) -> bool {
    e matches Event::Block(_)
}

/// The block number a block event carries.
pub open spec fn event_block_number(e: Event) -> u64 {
    e->Block_0.block_number
}

} // verus!
