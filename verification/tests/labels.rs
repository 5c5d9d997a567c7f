use lake_indexer::enums::{ActionKind, StateChangeReasonKind};
use lake_indexer::errors::IndexerError;
use lake_indexer::hashes::CryptoHash;
use lake_indexer::views::{
    AccessKeyPermissionView, ActionView, ExecutionStatusView, StateChangeCauseView,
};

fn hash(n: u8) -> CryptoHash {
    CryptoHash { bytes: [n; 32] }
}

#[test]
fn the_labels_of_execution_statuses() {
    assert_eq!(ExecutionStatusView::Unknown.print(), "UNKNOWN");
    assert_eq!(ExecutionStatusView::Failure.print(), "FAILURE");
    assert_eq!(ExecutionStatusView::SuccessValue.print(), "SUCCESS_VALUE");
    assert_eq!(ExecutionStatusView::SuccessReceiptId.print(), "SUCCESS_RECEIPT_ID");
}

#[test]
fn only_the_two_success_statuses_succeed() {
    assert!(!ExecutionStatusView::Unknown.is_success());
    assert!(!ExecutionStatusView::Failure.is_success());
    assert!(ExecutionStatusView::SuccessValue.is_success());
    assert!(ExecutionStatusView::SuccessReceiptId.is_success());
}

#[test]
fn the_labels_of_permissions() {
    assert_eq!(AccessKeyPermissionView::FunctionCall.print(), "FUNCTION_CALL");
    assert_eq!(AccessKeyPermissionView::FullAccess.print(), "FULL_ACCESS");
}

#[test]
fn the_labels_of_action_kinds() {
    let actions = vec![
        (ActionView::CreateAccount, "CREATE_ACCOUNT"),
        (ActionView::DeployContract, "DEPLOY_CONTRACT"),
        (ActionView::FunctionCall, "FUNCTION_CALL"),
        (ActionView::Transfer, "TRANSFER"),
        (ActionView::Stake, "STAKE"),
        (
            ActionView::AddKey {
                public_key: "ed25519:key".to_string(),
                permission: AccessKeyPermissionView::FullAccess,
            },
            "ADD_KEY",
        ),
        (ActionView::DeleteKey { public_key: "ed25519:key".to_string() }, "DELETE_KEY"),
        (ActionView::DeleteAccount, "DELETE_ACCOUNT"),
    ];
    for (action, label) in actions {
        assert_eq!(ActionKind::from_action_view(&action).print(), label);
    }
}

#[test]
fn the_labels_of_state_change_causes() {
    let causes = vec![
        (StateChangeCauseView::TransactionProcessing { tx_hash: hash(1) }, "TRANSACTION_PROCESSING"),
        (
            StateChangeCauseView::ActionReceiptProcessingStarted { receipt_hash: hash(1) },
            "ACTION_RECEIPT_PROCESSING_STARTED",
        ),
        (
            StateChangeCauseView::ActionReceiptGasReward { receipt_hash: hash(1) },
            "ACTION_RECEIPT_GAS_REWARD",
        ),
        (StateChangeCauseView::ReceiptProcessing { receipt_hash: hash(1) }, "RECEIPT_PROCESSING"),
        (StateChangeCauseView::PostponedReceipt { receipt_hash: hash(1) }, "POSTPONED_RECEIPT"),
        (StateChangeCauseView::UpdatedDelayedReceipts, "UPDATED_DELAYED_RECEIPTS"),
        (StateChangeCauseView::ValidatorAccountsUpdate, "VALIDATOR_ACCOUNTS_UPDATE"),
        (StateChangeCauseView::Migration, "MIGRATION"),
        (StateChangeCauseView::Resharding, "RESHARDING"),
    ];
    for (cause, label) in causes {
        assert_eq!(cause.print(), Ok(label));
        assert_eq!(StateChangeReasonKind::from_cause_view(&cause).unwrap().print(), label);
    }
}

#[test]
fn the_reasons_follow_the_causes() {
    assert_eq!(
        StateChangeReasonKind::from_cause_view(&StateChangeCauseView::Migration),
        Ok(StateChangeReasonKind::Migration)
    );
    assert_eq!(
        StateChangeReasonKind::from_cause_view(&StateChangeCauseView::TransactionProcessing {
            tx_hash: hash(9)
        }),
        Ok(StateChangeReasonKind::TransactionProcessing)
    );
    assert_eq!(
        StateChangeReasonKind::from_cause_view(&StateChangeCauseView::Resharding),
        Ok(StateChangeReasonKind::Resharding)
    );
}

#[test]
fn causes_of_no_live_stream_are_a_schema_violation() {
    assert_eq!(StateChangeCauseView::NotWritableToDisk.print(), Err(IndexerError::SchemaViolation));
    assert_eq!(StateChangeCauseView::InitialState.print(), Err(IndexerError::SchemaViolation));
    assert_eq!(
        StateChangeReasonKind::from_cause_view(&StateChangeCauseView::InitialState),
        Err(IndexerError::SchemaViolation)
    );
    assert_eq!(
        StateChangeReasonKind::from_cause_view(&StateChangeCauseView::NotWritableToDisk),
        Err(IndexerError::SchemaViolation)
    );
}
