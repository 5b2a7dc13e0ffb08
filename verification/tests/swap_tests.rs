use swap::alice;
use swap::alice::{AliceAction, AliceEvent, AliceState, ExpiredTimelocks, SwapError, TransferProof};
use swap::alice::CommandError;
use swap::{verify_amounts, Cmd, Rsp, SwapAmounts};
use swap::bob;
use swap::bob::{BobEvent, BobState};
use swap::crypto::{decrypt, enc_sign, enc_verify, point_of, recover, Point, Scalar};
use swap::database::{Database, Swap as DbSwap};
use swap::transactions::{
    extract_monero_private_key, signed_redeem_transaction, tx_cancel, tx_digest, tx_lock,
    tx_punish, tx_redeem, tx_refund, ExtractError, State3, Transaction, TxKind, TX_FEE,
};

const BTC: u64 = 1_000_000;
const XMR: u64 = 1_000_000_000_000;
const LOCK_ID: u64 = 777;

const A: u64 = 11; // Alice's bitcoin secret
const B: u64 = 22; // Bob's bitcoin secret
const S_A: u64 = 33; // Alice's monero share (as a bitcoin scalar)
const S_B: u64 = 44; // Bob's monero share (as a bitcoin scalar)

fn alice_state3() -> State3 {
    let refund_digest = tx_digest(TxKind::Refund, LOCK_ID, BTC - 2 * TX_FEE);
    State3 {
        btc: BTC,
        xmr: XMR,
        cancel_timelock: 1,
        punish_timelock: 2,
        tx_lock_id: LOCK_ID,
        a: Scalar { v: A },
        bob_public: Point { v: B },
        s_a: Scalar { v: S_A },
        bob_share_public: Point { v: S_B },
        tx_refund_encsig: enc_sign(Scalar { v: A }, Point { v: S_B }, refund_digest),
    }
}

fn bob_state3() -> bob::State3 {
    let refund_digest = tx_digest(TxKind::Refund, LOCK_ID, BTC - 2 * TX_FEE);
    bob::State3 {
        btc: BTC,
        xmr: XMR,
        cancel_timelock: 1,
        punish_timelock: 2,
        tx_lock_id: LOCK_ID,
        b: Scalar { v: B },
        alice_public: Point { v: A },
        s_b: Scalar { v: S_B },
        alice_share_public: Point { v: S_A },
        tx_refund_encsig: enc_sign(Scalar { v: A }, Point { v: S_B }, refund_digest),
    }
}

fn proof_of(amount: u64) -> TransferProof {
    TransferProof { tx_hash: 5555, amount }
}

fn is_xmr_lock_transaction_sent(state: &AliceState) -> bool {
    matches!(state, AliceState::XmrLockTransactionSent { .. })
}

fn is_btc_locked(state: &BobState) -> bool {
    matches!(state, BobState::BtcLocked { .. })
}

/// The signed refund transaction as Bob publishes it: Alice's refund
/// encrypted signature completed with Bob's monero key share.
fn published_refund_tx() -> Transaction {
    let unsigned = tx_refund(&alice_state3());
    Transaction {
        witness: Some(decrypt(alice_state3().tx_refund_encsig, Scalar { v: S_B })),
        ..unsigned
    }
}

#[test]
fn happy_path_alice_redeems() {
    let state3 = alice_state3();
    let encsig = bob::redeem_encsig(&bob_state3());
    let events = vec![
        AliceEvent::TxLockFinalized,
        AliceEvent::XmrTransferStarted { restore_height: 100, proof: proof_of(XMR) },
        AliceEvent::XmrTransferConfirmed,
        AliceEvent::TransferProofDelivered,
        AliceEvent::EncSigReceived { encsig },
        AliceEvent::RedeemTxSeenInMempool,
        AliceEvent::RedeemTxFinalized,
    ];
    let mut db = Database::new();
    let swap = alice::Swap { swap_id: 1, state: AliceState::Started { state3 } };
    let result = alice::run(swap, &events, &mut db).unwrap();
    assert!(matches!(result, AliceState::BtcRedeemed));
    // Alice's BTC delta: the redeem output pays the locked amount less fee.
    let redeem = signed_redeem_transaction(&state3, encsig).unwrap();
    assert_eq!(redeem.amount, BTC - TX_FEE);
}

#[test]
fn happy_path_bob_redeems_xmr_and_learns_share() {
    let state3 = bob_state3();
    let encsig = bob::redeem_encsig(&state3);
    // Alice broadcasts the completed redeem transaction; Bob sees it.
    let redeem_tx = signed_redeem_transaction(&alice_state3(), encsig).unwrap();
    let seen = bob::next_state(
        &BobState::EncSigSent { state3 },
        &BobEvent::RedeemTxSeen { tx: redeem_tx },
    )
    .unwrap();
    // The witness reveals Alice's monero key share to Bob.
    match seen {
        BobState::BtcRedeemSeen { spend_key, .. } => assert_eq!(spend_key, Scalar { v: S_A }),
        other => panic!("Bob in unexpected state {:?}", other),
    }
    let events = vec![
        BobEvent::BtcLockPublished,
        BobEvent::TransferProofReceived { proof: proof_of(XMR) },
        BobEvent::XmrConfirmed,
        BobEvent::EncSigDelivered,
        BobEvent::RedeemTxSeen { tx: redeem_tx },
        BobEvent::XmrSwept,
    ];
    let mut db = Database::new();
    let swap = bob::Swap { id: 2, state: BobState::Started { state3 } };
    let result = bob::run(swap, &events, &mut db).unwrap();
    assert!(matches!(result, BobState::XmrRedeemed { tx_lock_id: LOCK_ID }));
}

#[test]
fn given_alice_and_bob_manually_refund_after_funds_locked_both_refund() {
    let alice_id: u128 = 10;
    let bob_id: u128 = 20;
    let mut db = Database::new();

    // Bob runs until BTC is locked.
    let bob_events = vec![BobEvent::BtcLockPublished];
    let bob_swap = bob::Swap { id: bob_id, state: BobState::Started { state3: bob_state3() } };
    let bob_state = bob::run_until(bob_swap, is_btc_locked, &bob_events, &mut db).unwrap();
    assert!(matches!(bob_state, BobState::BtcLocked { .. }));

    // Alice runs until the XMR lock transaction is sent.
    let alice_events = vec![
        AliceEvent::TxLockFinalized,
        AliceEvent::XmrTransferStarted { restore_height: 100, proof: proof_of(XMR) },
    ];
    let alice_swap =
        alice::Swap { swap_id: alice_id, state: AliceState::Started { state3: alice_state3() } };
    let alice_state =
        alice::run_until(alice_swap, is_xmr_lock_transaction_sent, &alice_events, &mut db).unwrap();
    assert!(matches!(alice_state, AliceState::XmrLockTransactionSent { .. }));

    // The cancel timelock expires; Bob manually cancels.
    let state = bob::cancel(bob_id, &mut db, ExpiredTimelocks::Cancel, false).unwrap();
    assert!(matches!(state, BobState::BtcCancelled { .. }));

    // Resuming from the store sees the cancelled state.
    assert!(matches!(
        db.get_state(bob_id),
        Some(DbSwap::Bob(BobState::BtcCancelled { .. }))
    ));

    // Bob manually refunds.
    let bob_state = bob::refund(bob_id, &mut db).unwrap();
    assert!(matches!(bob_state, BobState::BtcRefunded { .. }));

    // Alice notices the cancel and records it.
    assert!(matches!(
        db.get_state(alice_id),
        Some(DbSwap::Alice(AliceState::XmrLockTransactionSent { .. }))
    ));
    alice::cancel(alice_id, &mut db, ExpiredTimelocks::Cancel, false).unwrap();
    assert!(matches!(
        db.get_state(alice_id),
        Some(DbSwap::Alice(AliceState::BtcCancelled { .. }))
    ));

    // Alice refunds: Bob's published refund transaction reveals his share,
    // and the shared monero output is swept back.
    let alice_state = alice::refund(alice_id, &mut db, &published_refund_tx()).unwrap();
    assert!(matches!(alice_state, AliceState::XmrRefunded));
}

#[test]
fn punish_path_both_roles_end_punished() {
    // Bob stalls after locking; both timelocks expire; Alice punishes.
    let alice_events = vec![
        AliceEvent::TxLockFinalized,
        AliceEvent::XmrTransferStarted { restore_height: 100, proof: proof_of(XMR) },
        AliceEvent::XmrTransferConfirmed,
        AliceEvent::TransferProofDelivered,
        AliceEvent::CancelTimelockReached,
        AliceEvent::CancelEnsuredOnChain,
        AliceEvent::PunishTimelockReached,
        AliceEvent::PunishTxPublished,
    ];
    let mut db = Database::new();
    let swap =
        alice::Swap { swap_id: 3, state: AliceState::Started { state3: alice_state3() } };
    let result = alice::run(swap, &alice_events, &mut db).unwrap();
    assert!(matches!(result, AliceState::BtcPunished));

    let bob_events = vec![
        BobEvent::BtcLockPublished,
        BobEvent::CancelTimelockReached,
        BobEvent::CancelEnsuredOnChain,
        BobEvent::PunishTimelockReached,
    ];
    let swap = bob::Swap { id: 4, state: BobState::Started { state3: bob_state3() } };
    let result = bob::run(swap, &bob_events, &mut db).unwrap();
    assert!(matches!(result, BobState::BtcPunished { tx_lock_id: LOCK_ID }));

    // Alice's BTC delta: the punish output pays the locked amount less the
    // two fees of TxCancel and TxPunish.
    let punish = tx_punish(&alice_state3());
    assert_eq!(punish.amount, BTC - 2 * TX_FEE);
}

#[test]
fn alice_aborts_when_lock_never_confirms() {
    let events = vec![AliceEvent::TxLockWaitTimedOut];
    let mut db = Database::new();
    let swap =
        alice::Swap { swap_id: 5, state: AliceState::Started { state3: alice_state3() } };
    let result = alice::run(swap, &events, &mut db).unwrap();
    assert!(matches!(result, AliceState::SafelyAborted));
    // No XMR was locked: the only persisted state is the terminal abort.
    assert!(matches!(
        db.get_state(5),
        Some(DbSwap::Alice(AliceState::SafelyAborted))
    ));
}

#[test]
fn crash_resume_reaches_the_same_terminal_state() {
    let encsig = bob::redeem_encsig(&bob_state3());
    let events = vec![
        AliceEvent::TxLockFinalized,
        AliceEvent::XmrTransferStarted { restore_height: 100, proof: proof_of(XMR) },
        AliceEvent::XmrTransferConfirmed,
        AliceEvent::TransferProofDelivered,
        AliceEvent::EncSigReceived { encsig },
        AliceEvent::RedeemTxSeenInMempool,
        AliceEvent::RedeemTxFinalized,
    ];
    let initial = AliceState::Started { state3: alice_state3() };

    let mut db = Database::new();
    let uninterrupted =
        alice::run(alice::Swap { swap_id: 6, state: initial }, &events, &mut db).unwrap();

    // Kill the driver between any two transitions and resume from the
    // persisted state: the terminal outcome is identical.
    for split in 0..events.len() {
        let mut db = Database::new();
        let first: Vec<AliceEvent> = events[..split].to_vec();
        let rest: Vec<AliceEvent> = events[split..].to_vec();
        let stopped = alice::run(alice::Swap { swap_id: 7, state: initial }, &first, &mut db);
        let resumed_from = match (split, db.get_state(7)) {
            (0, None) => initial,
            (_, Some(DbSwap::Alice(state))) => state,
            (_, other) => panic!("unexpected persisted record {:?}", other),
        };
        if let Ok(state) = stopped {
            // The run completed before the crash point.
            assert_eq!(state, uninterrupted);
            continue;
        }
        let resumed = alice::run(
            alice::Swap { swap_id: 7, state: resumed_from },
            &rest,
            &mut db,
        )
        .unwrap();
        assert_eq!(resumed, uninterrupted);
    }
}

#[test]
fn bad_transfer_proof_is_refused_and_bob_refunds() {
    let state3 = bob_state3();
    let bad = BobState::XmrLockProofReceived {
        state3,
        lock_transfer_proof: proof_of(XMR - 1),
    };
    // Bob refuses to progress on a transfer proof over the wrong amount.
    assert_eq!(
        bob::next_state(&bad, &BobEvent::XmrConfirmed),
        Err(SwapError::ProtocolViolation)
    );
    // At the cancel timelock he cancels and refunds.
    let events = vec![
        BobEvent::CancelTimelockReached,
        BobEvent::CancelEnsuredOnChain,
        BobEvent::RefundTxPublished,
    ];
    let mut db = Database::new();
    let result = bob::run(bob::Swap { id: 8, state: bad }, &events, &mut db).unwrap();
    assert!(matches!(result, BobState::BtcRefunded { .. }));
}

#[test]
fn terminal_states_absorb_every_event() {
    for terminal in [
        AliceState::BtcRedeemed,
        AliceState::XmrRefunded,
        AliceState::BtcPunished,
        AliceState::SafelyAborted,
    ] {
        assert!(alice::is_complete(&terminal));
        assert_eq!(
            alice::next_state(&terminal, &AliceEvent::Fault),
            Ok(terminal)
        );
        assert_eq!(
            alice::next_state(&terminal, &AliceEvent::TxLockFinalized),
            Ok(terminal)
        );
    }
    assert!(!alice::is_complete(&AliceState::Started { state3: alice_state3() }));
}

#[test]
fn expired_timelock_forces_the_recovery_path() {
    let state3 = alice_state3();
    let encsig = bob::redeem_encsig(&bob_state3());
    let learned = AliceState::EncSigLearned {
        monero_wallet_restore_blockheight: 100,
        transfer_proof: proof_of(XMR),
        encrypted_signature: encsig,
        state3,
    };
    // Even holding a valid encrypted signature, an observed expiry leads to
    // the cancel path, never to a redeem.
    let next = alice::next_state(
        &learned,
        &AliceEvent::TimelockExpired { status: ExpiredTimelocks::Cancel },
    )
    .unwrap();
    assert!(matches!(next, AliceState::CancelTimelockExpired { .. }));
    // Before XMR is locked, an expiry aborts outright.
    let next = alice::next_state(
        &AliceState::BtcLocked { state3 },
        &AliceEvent::TimelockExpired { status: ExpiredTimelocks::Punish },
    )
    .unwrap();
    assert!(matches!(next, AliceState::SafelyAborted));
}

#[test]
fn punish_is_attempted_only_from_the_punishable_state() {
    let state3 = alice_state3();
    let punishable = AliceState::BtcPunishable {
        monero_wallet_restore_blockheight: 100,
        transfer_proof: proof_of(XMR),
        state3,
    };
    assert_eq!(alice::pending_action(&punishable), AliceAction::PublishPunish);
    for state in [
        AliceState::Started { state3 },
        AliceState::BtcLocked { state3 },
        AliceState::BtcRedeemed,
        AliceState::SafelyAborted,
    ] {
        assert_ne!(alice::pending_action(&state), AliceAction::PublishPunish);
    }
    // BtcPunishable is reached only through BtcCancelled with T2 expired.
    let cancelled = AliceState::BtcCancelled {
        monero_wallet_restore_blockheight: 100,
        transfer_proof: proof_of(XMR),
        state3,
    };
    let next = alice::next_state(&cancelled, &AliceEvent::PunishTimelockReached).unwrap();
    assert_eq!(next, punishable);
}

#[test]
fn punish_failure_falls_back_to_the_refund_path() {
    let state3 = alice_state3();
    let punishable = AliceState::BtcPunishable {
        monero_wallet_restore_blockheight: 100,
        transfer_proof: proof_of(XMR),
        state3,
    };
    let next = alice::next_state(
        &punishable,
        &AliceEvent::PunishFailedRefundTxFound { tx: published_refund_tx() },
    )
    .unwrap();
    match next {
        AliceState::BtcRefunded { spend_key, .. } => assert_eq!(spend_key, Scalar { v: S_B }),
        other => panic!("Alice in unexpected state {:?}", other),
    }
}

#[test]
fn faults_surface_as_transient_and_stray_events_are_refused() {
    let state3 = alice_state3();
    let started = AliceState::Started { state3 };
    assert_eq!(
        alice::next_state(&started, &AliceEvent::Fault),
        Err(SwapError::Transient)
    );
    assert_eq!(
        alice::next_state(&started, &AliceEvent::XmrSwept),
        Err(SwapError::UnexpectedEvent)
    );
    // A run whose events run out surfaces the stall.
    let mut db = Database::new();
    let r = alice::run(
        alice::Swap { swap_id: 9, state: started },
        &vec![AliceEvent::TxLockFinalized],
        &mut db,
    );
    assert_eq!(r, Err(alice::DriverError::EventsExhausted));
}

#[test]
fn redeem_ambiguities_are_fatal_errors() {
    let state3 = alice_state3();
    let encsig = bob::redeem_encsig(&bob_state3());
    let learned = AliceState::EncSigLearned {
        monero_wallet_restore_blockheight: 100,
        transfer_proof: proof_of(XMR),
        encrypted_signature: encsig,
        state3,
    };
    // TxRedeem broadcast but mempool acceptance unknown: no transition.
    assert_eq!(
        alice::next_state(&learned, &AliceEvent::RedeemMempoolWaitFailed),
        Err(SwapError::RedeemMempoolAmbiguity)
    );
    // TxRedeem seen but finality unknown: no transition.
    assert_eq!(
        alice::next_state(
            &AliceState::BtcRedeemTransactionPublished { state3 },
            &AliceEvent::RedeemFinalityWaitFailed,
        ),
        Err(SwapError::RedeemFinalityAmbiguity)
    );
    // A failed redeem construction falls back to the cancel wait.
    assert!(matches!(
        alice::next_state(&learned, &AliceEvent::RedeemAbortedCancelReached),
        Ok(AliceState::CancelTimelockExpired { .. })
    ));
}

#[test]
fn cancel_and_refund_commands_refuse_bad_requests() {
    let state3 = alice_state3();
    let mut db = Database::new();

    // Unknown swap id.
    assert_eq!(
        alice::cancel(99, &mut db, ExpiredTimelocks::Cancel, false),
        Err(CommandError::SwapNotFound)
    );

    // A swap owned by the other role.
    db.insert_latest_state(50, DbSwap::Bob(BobState::Started { state3: bob_state3() }));
    assert_eq!(
        alice::cancel(50, &mut db, ExpiredTimelocks::Cancel, false),
        Err(CommandError::NotInThisRole)
    );
    assert_eq!(
        bob::refund(99, &mut db),
        Err(CommandError::SwapNotFound)
    );

    // Before the XMR side is engaged there is nothing to cancel.
    db.insert_latest_state(51, DbSwap::Alice(AliceState::Started { state3 }));
    assert_eq!(
        alice::cancel(51, &mut db, ExpiredTimelocks::Cancel, false),
        Err(CommandError::NotCancellable)
    );
    assert_eq!(
        alice::refund(51, &mut db, &published_refund_tx()),
        Err(CommandError::NotRefundable)
    );

    // An unexpired cancel timelock blocks the command unless forced.
    let sent = AliceState::XmrLockTransactionSent {
        monero_wallet_restore_blockheight: 100,
        transfer_proof: proof_of(XMR),
        state3,
    };
    db.insert_latest_state(52, DbSwap::Alice(sent));
    assert_eq!(
        alice::cancel(52, &mut db, ExpiredTimelocks::NotExpired, false),
        Err(CommandError::CancelTimelockNotExpiredYet)
    );
    let forced = alice::cancel(52, &mut db, ExpiredTimelocks::NotExpired, true).unwrap();
    assert!(matches!(forced, AliceState::BtcCancelled { .. }));

    // A transaction that is not this swap's refund transaction is refused.
    let lock = Transaction {
        kind: TxKind::Lock,
        lock_id: LOCK_ID,
        amount: BTC,
        witness: None,
    };
    assert_eq!(
        alice::refund(52, &mut db, &lock),
        Err(CommandError::InvalidRefundTransaction)
    );
    // An unsigned refund transaction is refused as well.
    assert_eq!(
        alice::refund(52, &mut db, &tx_refund(&state3)),
        Err(CommandError::InvalidRefundTransaction)
    );
    // The real one goes through.
    let refunded = alice::refund(52, &mut db, &published_refund_tx()).unwrap();
    assert!(matches!(refunded, AliceState::XmrRefunded));
}

#[test]
fn adaptor_signature_roundtrip() {
    let secret = Scalar { v: 987_654_321 };
    let adaptor_secret = Scalar { v: 123_456_789 };
    let adaptor_point = point_of(adaptor_secret);
    let digest = 42_424_242;
    let encsig = enc_sign(secret, adaptor_point, digest);
    assert!(enc_verify(point_of(secret), adaptor_point, digest, encsig));
    assert!(!enc_verify(point_of(secret), adaptor_point, digest + 1, encsig));
    let sig = decrypt(encsig, adaptor_secret);
    assert_eq!(recover(encsig, sig), Some(adaptor_secret));
    // A signature from another commitment recovers nothing.
    let foreign = swap::crypto::Signature { s: sig.s, r: sig.r + 1 };
    assert_eq!(recover(encsig, foreign), None);
}

#[test]
fn transaction_builders_are_deterministic_in_the_setup_state() {
    let state3 = alice_state3();
    assert_eq!(tx_redeem(&state3), tx_redeem(&state3));
    assert_eq!(tx_refund(&state3), tx_refund(&state3));
    let redeem = tx_redeem(&state3);
    assert_eq!(redeem.kind, TxKind::Redeem);
    assert_eq!(redeem.lock_id, LOCK_ID);
    assert_eq!(redeem.amount, BTC - TX_FEE);
    assert_eq!(redeem.witness, None);
    // TxLock carries the full amount; each later spend pays one more fee.
    assert_eq!(tx_lock(&state3).amount, BTC);
    assert_eq!(tx_cancel(&state3).amount, BTC - TX_FEE);
    assert_eq!(tx_refund(&state3).amount, BTC - 2 * TX_FEE);
    let encsig = bob::redeem_encsig(&bob_state3());
    assert_eq!(
        signed_redeem_transaction(&state3, encsig),
        signed_redeem_transaction(&state3, encsig)
    );
    // An invalid encrypted signature yields no redeem transaction.
    let bad = swap::crypto::EncryptedSignature { s_hat: 1, r: 2 };
    assert!(signed_redeem_transaction(&state3, bad).is_err());
}

#[test]
fn database_keeps_one_history_per_swap() {
    let mut db = Database::new();
    assert!(db.get_state(1).is_none());
    let state3 = alice_state3();
    db.insert_latest_state(1, DbSwap::Alice(AliceState::Started { state3 }));
    db.insert_latest_state(2, DbSwap::Bob(BobState::Started { state3: bob_state3() }));
    assert!(matches!(
        db.get_state(1),
        Some(DbSwap::Alice(AliceState::Started { .. }))
    ));
    assert!(matches!(
        db.get_state(2),
        Some(DbSwap::Bob(BobState::Started { .. }))
    ));
    let ids = db.swap_ids();
    assert_eq!(ids.len(), 2);
    assert!(ids.contains(&1));
    assert!(ids.contains(&2));
}

#[test]
fn refund_witness_from_a_foreign_commitment_is_rejected() {
    let state3 = alice_state3();
    let good = published_refund_tx();
    // A witness whose commitment differs from the refund encrypted
    // signature recovers nothing.
    let foreign_sig = swap::crypto::Signature {
        s: good.witness.unwrap().s,
        r: good.witness.unwrap().r + 1,
    };
    let foreign = Transaction {
        witness: Some(foreign_sig),
        ..tx_refund(&state3)
    };
    assert_eq!(
        extract_monero_private_key(&state3, &foreign),
        Err(ExtractError::ForeignSignature)
    );
    assert_eq!(
        extract_monero_private_key(&state3, &tx_refund(&state3)),
        Err(ExtractError::Unsigned)
    );
    assert_eq!(
        extract_monero_private_key(&state3, &tx_lock(&state3)),
        Err(ExtractError::NotTheRefundTransaction)
    );
    assert_eq!(
        extract_monero_private_key(&state3, &good),
        Ok(Scalar { v: S_B })
    );
}

#[test]
fn amounts_render_and_verify() {
    let agreed = SwapAmounts { btc: BTC, xmr: XMR };
    assert_eq!(
        agreed.to_display_string(),
        "1000000 sats for 1000000000000 piconeros"
    );
    assert_eq!(verify_amounts(Cmd::VerifyAmounts(agreed), agreed), Rsp::Verified);
    let other = SwapAmounts { btc: BTC, xmr: XMR - 1 };
    assert_eq!(verify_amounts(Cmd::VerifyAmounts(other), agreed), Rsp::Abort);
    assert_eq!(swap::ONE_BTC, 100_000_000);
    assert_eq!(swap::u64_to_dec(0), "0");
    assert_eq!(swap::u64_to_dec(10), "10");
    assert_eq!(swap::u64_to_dec(u64::MAX), "18446744073709551615");
}
