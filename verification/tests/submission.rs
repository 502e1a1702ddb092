use stylus_check::addr::Address;
use stylus_check::submit::{
    begin_submission, submit_step, Outcome, Stage, Step, SubmissionError, SubmitAction,
    SubmitEvent, TransactionRequest,
};

fn fresh_request() -> TransactionRequest {
    TransactionRequest {
        recipient: Address::zero(),
        payload: vec![0xab, 0xcd],
        max_fee_per_unit: None,
        max_priority_fee_per_unit: None,
    }
}

#[test]
fn submission_starts_with_fee_discovery() {
    let (stage, action) = begin_submission();
    assert!(matches!(stage, Stage::DiscoverFee));
    assert!(matches!(action, SubmitAction::FetchLatestBlock));
}

#[test]
fn dry_run_returns_estimate_and_never_broadcasts() {
    let mut req = fresh_request();

    let step = submit_step(
        Stage::DiscoverFee,
        SubmitEvent::BlockFetched {
            base_fee: Some(999),
        },
        true,
        &mut req,
    );
    // Fee assignment is skipped on a dry run.
    assert_eq!(req.max_fee_per_unit, None);
    assert_eq!(req.max_priority_fee_per_unit, None);
    match step {
        Step::Continue { stage, action } => {
            assert!(matches!(stage, Stage::Estimate));
            assert!(matches!(action, SubmitAction::EstimateGas));

            let step = submit_step(stage, SubmitEvent::GasEstimated { gas: 21000 }, true, &mut req);
            match step {
                Step::Done { result } => match result {
                    Ok(Outcome::EstimatedOnly { gas_estimate }) => assert_eq!(gas_estimate, 21000),
                    _ => panic!("a dry run must end with the untouched estimate"),
                },
                Step::Continue { action, .. } => {
                    assert!(!matches!(action, SubmitAction::BroadcastSigned));
                    panic!("a dry run must stop after estimation");
                }
            }
        }
        _ => panic!("fee discovery with a base fee must continue to estimation"),
    }
    assert_eq!(req.max_fee_per_unit, None);
    assert_eq!(req.max_priority_fee_per_unit, None);
}

#[test]
fn full_run_assigns_both_fees_from_base_fee() {
    let mut req = fresh_request();
    let step = submit_step(
        Stage::DiscoverFee,
        SubmitEvent::BlockFetched {
            base_fee: Some(1_000_000_000),
        },
        false,
        &mut req,
    );
    assert_eq!(req.max_fee_per_unit, Some(1_000_000_000));
    assert_eq!(req.max_priority_fee_per_unit, Some(1_000_000_000));
    assert_eq!(req.payload, vec![0xab, 0xcd]);
    assert!(matches!(
        step,
        Step::Continue {
            stage: Stage::Estimate,
            action: SubmitAction::EstimateGas
        }
    ));
}

#[test]
fn full_run_confirms_with_receipt_hash_and_gas() {
    let mut req = fresh_request();

    let step = submit_step(
        Stage::DiscoverFee,
        SubmitEvent::BlockFetched {
            base_fee: Some(1_000_000_000),
        },
        false,
        &mut req,
    );
    let stage = match step {
        Step::Continue { stage, .. } => stage,
        _ => panic!("fee discovery must continue"),
    };

    let step = submit_step(stage, SubmitEvent::GasEstimated { gas: 21000 }, false, &mut req);
    let stage = match step {
        Step::Continue { stage, action } => {
            assert!(matches!(action, SubmitAction::BroadcastSigned));
            stage
        }
        _ => panic!("a real run continues to broadcast after estimation"),
    };

    let step = submit_step(
        stage,
        SubmitEvent::Broadcasted {
            tx_hash: vec![0x11; 32],
        },
        false,
        &mut req,
    );
    let stage = match step {
        Step::Continue { stage, action } => {
            assert!(matches!(action, SubmitAction::AwaitReceipt));
            stage
        }
        _ => panic!("a broadcast continues to confirmation"),
    };

    let step = submit_step(
        stage,
        SubmitEvent::ReceiptObtained {
            tx_hash: vec![0x11; 32],
            status_present: true,
            gas_used: 54000,
        },
        false,
        &mut req,
    );
    match step {
        Step::Done {
            result: Ok(Outcome::Confirmed { tx_hash, gas_used }),
        } => {
            assert_eq!(tx_hash, vec![0x11; 32]);
            assert_eq!(gas_used, 54000);
        }
        _ => panic!("a receipt with a status marker must confirm"),
    }
    // The request still carries the fees assigned at discovery.
    assert_eq!(req.max_fee_per_unit, Some(1_000_000_000));
    assert_eq!(req.max_priority_fee_per_unit, Some(1_000_000_000));
}

#[test]
fn receipt_without_status_is_reverted() {
    let mut req = fresh_request();
    let step = submit_step(
        Stage::Confirm {
            tx_hash: vec![0x22; 32],
        },
        SubmitEvent::ReceiptObtained {
            tx_hash: vec![0x22; 32],
            status_present: false,
            gas_used: 54000,
        },
        false,
        &mut req,
    );
    match step {
        Step::Done {
            result: Err(SubmissionError::Reverted { tx_hash }),
        } => assert_eq!(tx_hash, vec![0x22; 32]),
        _ => panic!("a receipt without a status marker must be reverted, never success"),
    }
}

#[test]
fn each_failure_event_maps_to_its_error() {
    let mut req = fresh_request();

    match submit_step(
        Stage::DiscoverFee,
        SubmitEvent::BlockUnavailable {
            cause: "no route".to_string(),
        },
        false,
        &mut req,
    ) {
        Step::Done {
            result: Err(SubmissionError::Transport { cause }),
        } => assert_eq!(cause, "no route"),
        _ => panic!("an unavailable block is a transport failure"),
    }

    match submit_step(
        Stage::DiscoverFee,
        SubmitEvent::BlockFetched { base_fee: None },
        false,
        &mut req,
    ) {
        Step::Done {
            result: Err(SubmissionError::NoBaseFee),
        } => {}
        _ => panic!("a block without a base fee fails fee discovery"),
    }

    match submit_step(
        Stage::Estimate,
        SubmitEvent::EstimationFailed {
            cause: "execution reverted".to_string(),
        },
        false,
        &mut req,
    ) {
        Step::Done {
            result: Err(SubmissionError::EstimationFailed { cause }),
        } => assert_eq!(cause, "execution reverted"),
        _ => panic!("estimation failure surfaces immediately"),
    }

    match submit_step(
        Stage::Broadcast,
        SubmitEvent::BroadcastFailed {
            cause: "nonce too low".to_string(),
        },
        false,
        &mut req,
    ) {
        Step::Done {
            result: Err(SubmissionError::SendFailed { cause }),
        } => assert_eq!(cause, "nonce too low"),
        _ => panic!("broadcast failure is a send failure"),
    }

    match submit_step(
        Stage::Confirm {
            tx_hash: vec![0x33; 32],
        },
        SubmitEvent::ReceiptUnavailable,
        false,
        &mut req,
    ) {
        Step::Done {
            result: Err(SubmissionError::NoReceipt),
        } => {}
        _ => panic!("a missing receipt is its own failure"),
    }

    // None of the failure paths touched the request.
    assert_eq!(req.max_fee_per_unit, None);
    assert_eq!(req.max_priority_fee_per_unit, None);
}
