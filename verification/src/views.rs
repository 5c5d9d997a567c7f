//! The block messages of the stream as plain values: what the pipeline reads
//! of a block, its chunks, transactions, receipts, outcomes and state changes.

use crate::hashes::CryptoHash;
use vstd::prelude::*;

verus! {

/// How the execution of a transaction or receipt ended.
#[derive(Clone, Copy, Debug, PartialEq, Eq, Structural)]
pub enum ExecutionStatusView {
    Unknown,
    Failure,
    SuccessValue,
    SuccessReceiptId,
}

/// What an access key may sign.
#[derive(Clone, Copy, Debug, PartialEq, Eq, Structural)]
pub enum AccessKeyPermissionView {
    FunctionCall,
    FullAccess,
}

/// Why a piece of state changed. The first two variants describe state that
/// never reaches a live stream.
#[derive(Clone, Copy, Debug, PartialEq, Eq)]
pub enum StateChangeCauseView {
    NotWritableToDisk,
    InitialState,
    TransactionProcessing { tx_hash: CryptoHash },
    ActionReceiptProcessingStarted { receipt_hash: CryptoHash },
    ActionReceiptGasReward { receipt_hash: CryptoHash },
    ReceiptProcessing { receipt_hash: CryptoHash },
    PostponedReceipt { receipt_hash: CryptoHash },
    UpdatedDelayedReceipts,
    ValidatorAccountsUpdate,
    Migration,
    Resharding,
}

/// One change of an account's state with its cause.
#[derive(Clone, Debug, PartialEq, Eq)]
pub struct StateChangeWithCauseView {
    pub cause: StateChangeCauseView,
    pub account_id: String,
}

/// One action of an action receipt, as far as the index tells them apart.
#[derive(Clone, Debug, PartialEq, Eq)]
pub enum ActionView {
    CreateAccount,
    DeployContract,
    FunctionCall,
    Transfer,
    Stake,
    AddKey { public_key: String, permission: AccessKeyPermissionView },
    DeleteKey { public_key: String },
    DeleteAccount,
}

/// An action together with its arguments as JSON text.
#[derive(Clone, Debug, PartialEq, Eq)]
pub struct ActionWithArgs {
    pub action: ActionView,
    pub args: String,
}

/// Where the output of an action receipt goes.
#[derive(Clone, Debug, PartialEq, Eq)]
pub struct DataReceiverView {
    pub data_id: CryptoHash,
    pub receiver_id: String,
}

/// The two kinds of receipt.
#[derive(Clone, Debug, PartialEq, Eq)]
pub enum ReceiptEnumView {
    Action {
        signer_id: String,
        signer_public_key: String,
        gas_price: u128,
        output_data_receivers: Vec<DataReceiverView>,
        input_data_ids: Vec<CryptoHash>,
        actions: Vec<ActionWithArgs>,
    },
    Data { data_id: CryptoHash, data: Option<Vec<u8>> },
}

/// A receipt as it stands in a chunk.
#[derive(Clone, Debug, PartialEq, Eq)]
pub struct ReceiptView {
    pub predecessor_id: String,
    pub receiver_id: String,
    pub receipt_id: CryptoHash,
    pub receipt: ReceiptEnumView,
}

/// The outcome of executing a transaction or a receipt.
#[derive(Clone, Debug, PartialEq, Eq)]
pub struct ExecutionOutcomeWithIdView {
    pub id: CryptoHash,
    pub block_hash: CryptoHash,
    pub receipt_ids: Vec<CryptoHash>,
    pub gas_burnt: u64,
    pub tokens_burnt: u128,
    pub executor_id: String,
    pub status: ExecutionStatusView,
}

/// A signed transaction.
#[derive(Clone, Debug, PartialEq, Eq)]
pub struct SignedTransactionView {
    pub hash: CryptoHash,
    pub signer_id: String,
    pub public_key: String,
    pub nonce: u64,
    pub receiver_id: String,
    pub signature: String,
}

/// A transaction with the outcome of turning it into a receipt.
#[derive(Clone, Debug, PartialEq, Eq)]
pub struct IndexerTransactionWithOutcome {
    pub transaction: SignedTransactionView,
    pub outcome: ExecutionOutcomeWithIdView,
}

/// The outcome of a receipt with the receipt itself.
#[derive(Clone, Debug, PartialEq, Eq)]
pub struct IndexerExecutionOutcomeWithReceipt {
    pub execution_outcome: ExecutionOutcomeWithIdView,
    pub receipt: ReceiptView,
}

/// The header of a chunk.
#[derive(Clone, Debug, PartialEq, Eq)]
pub struct ChunkHeaderView {
    pub chunk_hash: CryptoHash,
    pub shard_id: u64,
    pub signature: String,
    pub gas_limit: u64,
    pub gas_used: u64,
}

/// A chunk with what it carries.
#[derive(Clone, Debug, PartialEq, Eq)]
pub struct IndexerChunkView {
    pub author: String,
    pub header: ChunkHeaderView,
    pub transactions: Vec<IndexerTransactionWithOutcome>,
    pub receipts: Vec<ReceiptView>,
}

/// What one shard contributes to a block.
#[derive(Clone, Debug, PartialEq, Eq)]
pub struct IndexerShard {
    pub shard_id: u64,
    pub chunk: Option<IndexerChunkView>,
    pub receipt_execution_outcomes: Vec<IndexerExecutionOutcomeWithReceipt>,
    pub state_changes: Vec<StateChangeWithCauseView>,
}

/// A block.
#[derive(Clone, Debug, PartialEq, Eq)]
pub struct BlockView {
    pub height: u64,
    pub hash: CryptoHash,
    pub prev_hash: CryptoHash,
    pub timestamp: u64,
    pub total_supply: u128,
    pub gas_price: u128,
    pub author: String,
}

/// One message of the stream: a block and its shards.
#[derive(Clone, Debug, PartialEq, Eq)]
pub struct StreamerMessage {
    pub block: BlockView,
    pub shards: Vec<IndexerShard>,
}

impl ReceiptView {
    /// Whether this is an action receipt.
    pub open spec fn is_action(&self) -> bool {
        self.receipt is Action
    }

    /// The key under which the lineage of the receipt is looked up: its own
    /// id for an action receipt, the id of its data for a data receipt.
    pub open spec fn lineage_key(&self) -> crate::hashes::LineageKey {
        match self.receipt {
            ReceiptEnumView::Action { .. } => (false, self.receipt_id@),
            ReceiptEnumView::Data { data_id, .. } => (true, data_id@),
        }
    }

    /// The id under which the lineage of the receipt is looked up.
    pub fn lineage_id(&self) -> (id: crate::hashes::ReceiptOrDataId)
        ensures
            id@ == self.lineage_key(),
    {
        match &self.receipt {
            ReceiptEnumView::Action { .. } => crate::hashes::ReceiptOrDataId::ReceiptId(
                self.receipt_id,
            ),
            ReceiptEnumView::Data { data_id, .. } => crate::hashes::ReceiptOrDataId::DataId(
                *data_id,
            ),
        }
    }
}

impl ExecutionStatusView {
    /// Whether the execution succeeded.
    pub open spec fn succeeded(&self) -> bool {
        self is SuccessValue || self is SuccessReceiptId
    }

    /// Whether the execution succeeded.
    pub fn is_success(&self) -> (r: bool)
        ensures
            r == self.succeeded(),
    {
        match self {
            ExecutionStatusView::SuccessValue => true,
            ExecutionStatusView::SuccessReceiptId => true,
            _ => false,
        }
    }
}

} // verus!
