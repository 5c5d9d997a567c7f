//! The closed sets of labels that stand in enum-typed columns.

use crate::errors::IndexerError;
use crate::views::{AccessKeyPermissionView, ActionView, ExecutionStatusView, StateChangeCauseView};
use vstd::prelude::*;

verus! {

/// The labels of an execution status.
pub open spec fn is_execution_status_label(label: Seq<char>) -> bool {
    label == "UNKNOWN"@ || label == "FAILURE"@ || label == "SUCCESS_VALUE"@ || label
        == "SUCCESS_RECEIPT_ID"@
}

/// The labels of an access key permission.
pub open spec fn is_permission_label(label: Seq<char>) -> bool {
    label == "FUNCTION_CALL"@ || label == "FULL_ACCESS"@
}

/// The labels of an action kind.
pub open spec fn is_action_kind_label(label: Seq<char>) -> bool {
    label == "CREATE_ACCOUNT"@ || label == "DEPLOY_CONTRACT"@ || label == "FUNCTION_CALL"@
        || label == "TRANSFER"@ || label == "STAKE"@ || label == "ADD_KEY"@ || label
        == "DELETE_KEY"@ || label == "DELETE_ACCOUNT"@
}

/// The labels of a state change cause.
pub open spec fn is_state_change_label(label: Seq<char>) -> bool {
    label == "TRANSACTION_PROCESSING"@ || label == "ACTION_RECEIPT_PROCESSING_STARTED"@ || label
        == "ACTION_RECEIPT_GAS_REWARD"@ || label == "RECEIPT_PROCESSING"@ || label
        == "POSTPONED_RECEIPT"@ || label == "UPDATED_DELAYED_RECEIPTS"@ || label
        == "VALIDATOR_ACCOUNTS_UPDATE"@ || label == "MIGRATION"@ || label == "RESHARDING"@
}

/// Every label that stands for a value of one of the four enums belongs to
/// the label set of its column.
pub proof fn lemma_labels_are_closed(
    status: ExecutionStatusView,
    permission: AccessKeyPermissionView,
    kind: ActionKind,
    reason: StateChangeReasonKind,
)
    ensures
        is_execution_status_label(status.label()),
        is_permission_label(permission.label()),
        is_action_kind_label(kind.label()),
        is_state_change_label(reason.label()),
{
}

impl ExecutionStatusView {
    /// The label stored for the status.
    pub open spec fn label(&self) -> Seq<char> {
        match self {
            ExecutionStatusView::Unknown => "UNKNOWN"@,
            ExecutionStatusView::Failure => "FAILURE"@,
            ExecutionStatusView::SuccessValue => "SUCCESS_VALUE"@,
            ExecutionStatusView::SuccessReceiptId => "SUCCESS_RECEIPT_ID"@,
        }
    }

    /// The label stored for the status.
    pub fn print(&self) -> (label: &'static str)
        ensures
            label@ == self.label(),
            is_execution_status_label(label@),
    {
        match self {
            ExecutionStatusView::Unknown => "UNKNOWN",
            ExecutionStatusView::Failure => "FAILURE",
            ExecutionStatusView::SuccessValue => "SUCCESS_VALUE",
            ExecutionStatusView::SuccessReceiptId => "SUCCESS_RECEIPT_ID",
        }
    }
}

impl AccessKeyPermissionView {
    /// The label stored for the permission.
    pub open spec fn label(&self) -> Seq<char> {
        match self {
            AccessKeyPermissionView::FunctionCall => "FUNCTION_CALL"@,
            AccessKeyPermissionView::FullAccess => "FULL_ACCESS"@,
        }
    }

    /// The label stored for the permission.
    pub fn print(&self) -> (label: &'static str)
        ensures
            label@ == self.label(),
            is_permission_label(label@),
    {
        match self {
            AccessKeyPermissionView::FunctionCall => "FUNCTION_CALL",
            AccessKeyPermissionView::FullAccess => "FULL_ACCESS",
        }
    }
}

/// The kind of an action, as stored beside its arguments.
#[derive(Clone, Copy, Debug, PartialEq, Eq, Structural)]
pub enum ActionKind {
    CreateAccount,
    DeployContract,
    FunctionCall,
    Transfer,
    Stake,
    AddKey,
    DeleteKey,
    DeleteAccount,
}

impl ActionKind {
    /// The kind of an action.
    pub open spec fn of(action: ActionView) -> ActionKind {
        match action {
            ActionView::CreateAccount => ActionKind::CreateAccount,
            ActionView::DeployContract => ActionKind::DeployContract,
            ActionView::FunctionCall => ActionKind::FunctionCall,
            ActionView::Transfer => ActionKind::Transfer,
            ActionView::Stake => ActionKind::Stake,
            ActionView::AddKey { .. } => ActionKind::AddKey,
            ActionView::DeleteKey { .. } => ActionKind::DeleteKey,
            ActionView::DeleteAccount => ActionKind::DeleteAccount,
        }
    }

    /// The kind of an action.
    pub fn from_action_view(action: &ActionView) -> (kind: ActionKind)
        ensures
            kind == ActionKind::of(*action),
    {
        match action {
            ActionView::CreateAccount => ActionKind::CreateAccount,
            ActionView::DeployContract => ActionKind::DeployContract,
            ActionView::FunctionCall => ActionKind::FunctionCall,
            ActionView::Transfer => ActionKind::Transfer,
            ActionView::Stake => ActionKind::Stake,
            ActionView::AddKey { .. } => ActionKind::AddKey,
            ActionView::DeleteKey { .. } => ActionKind::DeleteKey,
            ActionView::DeleteAccount => ActionKind::DeleteAccount,
        }
    }

    /// The label stored for the kind.
    pub open spec fn label(&self) -> Seq<char> {
        match self {
            ActionKind::CreateAccount => "CREATE_ACCOUNT"@,
            ActionKind::DeployContract => "DEPLOY_CONTRACT"@,
            ActionKind::FunctionCall => "FUNCTION_CALL"@,
            ActionKind::Transfer => "TRANSFER"@,
            ActionKind::Stake => "STAKE"@,
            ActionKind::AddKey => "ADD_KEY"@,
            ActionKind::DeleteKey => "DELETE_KEY"@,
            ActionKind::DeleteAccount => "DELETE_ACCOUNT"@,
        }
    }

    /// The label stored for the kind.
    pub fn print(&self) -> (label: &'static str)
        ensures
            label@ == self.label(),
            is_action_kind_label(label@),
    {
        match self {
            ActionKind::CreateAccount => "CREATE_ACCOUNT",
            ActionKind::DeployContract => "DEPLOY_CONTRACT",
            ActionKind::FunctionCall => "FUNCTION_CALL",
            ActionKind::Transfer => "TRANSFER",
            ActionKind::Stake => "STAKE",
            ActionKind::AddKey => "ADD_KEY",
            ActionKind::DeleteKey => "DELETE_KEY",
            ActionKind::DeleteAccount => "DELETE_ACCOUNT",
        }
    }
}

/// Why an account changed, as stored with the change.
#[derive(Clone, Copy, Debug, PartialEq, Eq, Structural)]
pub enum StateChangeReasonKind {
    TransactionProcessing,
    ActionReceiptProcessingStarted,
    ActionReceiptGasReward,
    ReceiptProcessing,
    PostponedReceipt,
    UpdatedDelayedReceipts,
    ValidatorAccountsUpdate,
    Migration,
    Resharding,
}

impl StateChangeCauseView {
    /// Whether the cause may occur in a live stream.
    pub open spec fn is_live(&self) -> bool {
        !(self is NotWritableToDisk) && !(self is InitialState)
    }

    /// The reason that stands for a cause of a live stream.
    pub open spec fn reason(&self) -> StateChangeReasonKind
        recommends
            self.is_live(),
    {
        match self {
            StateChangeCauseView::TransactionProcessing { .. } => {
                StateChangeReasonKind::TransactionProcessing
            },
            StateChangeCauseView::ActionReceiptProcessingStarted { .. } => {
                StateChangeReasonKind::ActionReceiptProcessingStarted
            },
            StateChangeCauseView::ActionReceiptGasReward { .. } => {
                StateChangeReasonKind::ActionReceiptGasReward
            },
            StateChangeCauseView::ReceiptProcessing { .. } => {
                StateChangeReasonKind::ReceiptProcessing
            },
            StateChangeCauseView::PostponedReceipt { .. } => {
                StateChangeReasonKind::PostponedReceipt
            },
            StateChangeCauseView::UpdatedDelayedReceipts => {
                StateChangeReasonKind::UpdatedDelayedReceipts
            },
            StateChangeCauseView::ValidatorAccountsUpdate => {
                StateChangeReasonKind::ValidatorAccountsUpdate
            },
            StateChangeCauseView::Migration => StateChangeReasonKind::Migration,
            _ => StateChangeReasonKind::Resharding,
        }
    }

    /// The hash that the cause names, if it names one.
    pub open spec fn payload(&self) -> Option<Seq<u8>> {
        match self {
            StateChangeCauseView::TransactionProcessing { tx_hash } => Some(tx_hash@),
            StateChangeCauseView::ActionReceiptProcessingStarted { receipt_hash } => Some(
                receipt_hash@,
            ),
            StateChangeCauseView::ActionReceiptGasReward { receipt_hash } => Some(receipt_hash@),
            StateChangeCauseView::ReceiptProcessing { receipt_hash } => Some(receipt_hash@),
            StateChangeCauseView::PostponedReceipt { receipt_hash } => Some(receipt_hash@),
            _ => None,
        }
    }

    /// The label stored for the cause. The causes that never reach a live
    /// stream have none: they are a schema violation.
    pub fn print(&self) -> (label: Result<&'static str, IndexerError>)
        ensures
            label is Ok <==> self.is_live(),
            label matches Err(e) ==> e == IndexerError::SchemaViolation,
            label matches Ok(text) ==> text@ == self.reason().label() && is_state_change_label(
                text@,
            ),
    {
        match StateChangeReasonKind::from_cause_view(self) {
            Ok(reason) => Ok(reason.print()),
            Err(e) => Err(e),
        }
    }
}

impl StateChangeReasonKind {
    /// The reason that stands for a cause. The causes that never reach a live
    /// stream have none: they are a schema violation.
    pub fn from_cause_view(
        cause: &StateChangeCauseView,
    ) -> (reason: Result<StateChangeReasonKind, IndexerError>)
        ensures
            reason is Ok <==> cause.is_live(),
            reason matches Err(e) ==> e == IndexerError::SchemaViolation,
            reason matches Ok(kind) ==> kind == cause.reason(),
    {
        match cause {
            StateChangeCauseView::NotWritableToDisk => Err(IndexerError::SchemaViolation),
            StateChangeCauseView::InitialState => Err(IndexerError::SchemaViolation),
            StateChangeCauseView::TransactionProcessing { .. } => Ok(
                StateChangeReasonKind::TransactionProcessing,
            ),
            StateChangeCauseView::ActionReceiptProcessingStarted { .. } => Ok(
                StateChangeReasonKind::ActionReceiptProcessingStarted,
            ),
            StateChangeCauseView::ActionReceiptGasReward { .. } => Ok(
                StateChangeReasonKind::ActionReceiptGasReward,
            ),
            StateChangeCauseView::ReceiptProcessing { .. } => Ok(
                StateChangeReasonKind::ReceiptProcessing,
            ),
            StateChangeCauseView::PostponedReceipt { .. } => Ok(
                StateChangeReasonKind::PostponedReceipt,
            ),
            StateChangeCauseView::UpdatedDelayedReceipts => Ok(
                StateChangeReasonKind::UpdatedDelayedReceipts,
            ),
            StateChangeCauseView::ValidatorAccountsUpdate => Ok(
                StateChangeReasonKind::ValidatorAccountsUpdate,
            ),
            StateChangeCauseView::Migration => Ok(StateChangeReasonKind::Migration),
            StateChangeCauseView::Resharding => Ok(StateChangeReasonKind::Resharding),
        }
    }

    /// The label stored for the reason.
    pub open spec fn label(&self) -> Seq<char> {
        match self {
            StateChangeReasonKind::TransactionProcessing => "TRANSACTION_PROCESSING"@,
            StateChangeReasonKind::ActionReceiptProcessingStarted => {
                "ACTION_RECEIPT_PROCESSING_STARTED"@
            },
            StateChangeReasonKind::ActionReceiptGasReward => "ACTION_RECEIPT_GAS_REWARD"@,
            StateChangeReasonKind::ReceiptProcessing => "RECEIPT_PROCESSING"@,
            StateChangeReasonKind::PostponedReceipt => "POSTPONED_RECEIPT"@,
            StateChangeReasonKind::UpdatedDelayedReceipts => "UPDATED_DELAYED_RECEIPTS"@,
            StateChangeReasonKind::ValidatorAccountsUpdate => "VALIDATOR_ACCOUNTS_UPDATE"@,
            StateChangeReasonKind::Migration => "MIGRATION"@,
            StateChangeReasonKind::Resharding => "RESHARDING"@,
        }
    }

    /// The label stored for the reason.
    pub fn print(&self) -> (label: &'static str)
        ensures
            label@ == self.label(),
            is_state_change_label(label@),
    {
        match self {
            StateChangeReasonKind::TransactionProcessing => "TRANSACTION_PROCESSING",
            StateChangeReasonKind::ActionReceiptProcessingStarted => {
                "ACTION_RECEIPT_PROCESSING_STARTED"
            },
            StateChangeReasonKind::ActionReceiptGasReward => "ACTION_RECEIPT_GAS_REWARD",
            StateChangeReasonKind::ReceiptProcessing => "RECEIPT_PROCESSING",
            StateChangeReasonKind::PostponedReceipt => "POSTPONED_RECEIPT",
            StateChangeReasonKind::UpdatedDelayedReceipts => "UPDATED_DELAYED_RECEIPTS",
            StateChangeReasonKind::ValidatorAccountsUpdate => "VALIDATOR_ACCOUNTS_UPDATE",
            StateChangeReasonKind::Migration => "MIGRATION",
            StateChangeReasonKind::Resharding => "RESHARDING",
        }
    }
}

} // verus!
