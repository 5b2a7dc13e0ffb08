//! The swap in the role of Alice.  Alice holds XMR and wishes to receive BTC.
//!
//! The transition logic of the original driver is a single function from the
//! current state and one observed event to the next state.  Everything the
//! environment does — wallet waits, the Monero transfer, the peer channel,
//! timelock watches — reaches the machine only as an [`AliceEvent`], so the
//! whole decision surface is verified: which action each state demands
//! ([`pending_action`]), which event takes it where ([`next_state`]), and the
//! safety laws at the bottom of this file.
use crate::crypto::EncryptedSignature;
use crate::crypto::Scalar;
use crate::transactions::redeem_encsig_valid;
use crate::transactions::extract_monero_private_key;
use crate::transactions::extract_monero_private_key_spec;
use crate::transactions::redeem_encsig_valid_spec;
use crate::transactions::State3;
use crate::transactions::Transaction;
use vstd::prelude::*;

verus! {

/// A Monero transfer proof: lets the recipient verify an outbound transfer
/// of `amount` piconeros to the shared address in transaction `tx_hash`.
#[derive(Clone, Copy, Debug, PartialEq, Eq, Structural)]
pub struct TransferProof {
    pub tx_hash: u64,
    pub amount: u64,
}

/// What the Bitcoin chain answers when asked which timelocks have expired.
#[derive(Clone, Copy, Debug, PartialEq, Eq, Structural)]
pub enum ExpiredTimelocks {
    /// Neither timelock has expired.
    NotExpired,
    /// The cancel timelock (T1) has expired.
    Cancel,
    /// Both T1 and the punish timelock (T2) have expired.
    Punish,
}

/// Alice's swap states.  The terminal states are `XmrRefunded`,
/// `BtcRedeemed`, `BtcPunished` and `SafelyAborted`.
#[derive(Clone, Copy, Debug, PartialEq, Eq, Structural)]
#[allow(clippy::large_enum_variant)]
pub enum AliceState {
    Started { state3: State3 },
    BtcLocked { state3: State3 },
    XmrLockTransactionSent {
        monero_wallet_restore_blockheight: u64,
        transfer_proof: TransferProof,
        state3: State3,
    },
    XmrLocked {
        monero_wallet_restore_blockheight: u64,
        transfer_proof: TransferProof,
        state3: State3,
    },
    XmrLockTransferProofSent {
        monero_wallet_restore_blockheight: u64,
        transfer_proof: TransferProof,
        state3: State3,
    },
    EncSigLearned {
        monero_wallet_restore_blockheight: u64,
        transfer_proof: TransferProof,
        encrypted_signature: EncryptedSignature,
        state3: State3,
    },
    BtcRedeemTransactionPublished { state3: State3 },
    CancelTimelockExpired {
        monero_wallet_restore_blockheight: u64,
        transfer_proof: TransferProof,
        state3: State3,
    },
    BtcCancelled {
        monero_wallet_restore_blockheight: u64,
        transfer_proof: TransferProof,
        state3: State3,
    },
    BtcRefunded {
        monero_wallet_restore_blockheight: u64,
        transfer_proof: TransferProof,
        spend_key: Scalar,
        state3: State3,
    },
    BtcPunishable {
        monero_wallet_restore_blockheight: u64,
        transfer_proof: TransferProof,
        state3: State3,
    },
    XmrRefunded,
    BtcRedeemed,
    BtcPunished,
    SafelyAborted,
}

/// One observed outcome of the environment work a state demands.
#[derive(Clone, Copy, Debug, PartialEq, Eq, Structural)]
pub enum AliceEvent {
    /// TxLock reached finality within the lock-confirmed timeout.
    TxLockFinalized,
    /// The lock-confirmed timeout elapsed before TxLock reached finality.
    TxLockWaitTimedOut,
    /// Timelocks checked and not expired; the XMR lock transfer was
    /// dispatched, after recording the Monero height to restore from.
    XmrTransferStarted { restore_height: u64, proof: TransferProof },
    /// A timelock check found T1 (or T2) already expired.
    TimelockExpired { status: ExpiredTimelocks },
    /// Timelocks not expired; the XMR lock transfer reached one confirmation.
    XmrTransferConfirmed,
    /// The transfer proof was delivered to Bob over the peer channel.
    TransferProofDelivered,
    /// While racing the peer channel, TxLock was seen confirmed with the
    /// cancel timelock's depth: T1 has expired.
    CancelTimelockReached,
    /// Bob's encrypted signature arrived over the peer channel.
    EncSigReceived { encsig: EncryptedSignature },
    /// TxRedeem was broadcast and seen in the mempool.
    RedeemTxSeenInMempool,
    /// TxRedeem was broadcast but the mempool watch failed: the outcome of
    /// the published transaction cannot be determined.
    RedeemMempoolWaitFailed,
    /// TxRedeem could not be built or broadcast; the fallback wait saw T1
    /// expire.
    RedeemAbortedCancelReached,
    /// TxRedeem could not be built or broadcast, and the fallback wait for
    /// T1 itself failed.
    RedeemAbortedWaitFailed,
    /// TxRedeem reached finality.
    RedeemTxFinalized,
    /// TxRedeem was seen in the mempool but the finality watch failed.
    RedeemFinalityWaitFailed,
    /// TxCancel is on chain: it was already there, or this driver published
    /// it (a rejected broadcast is tolerated as already-published).
    CancelEnsuredOnChain,
    /// TxRefund was seen on chain; `tx` is the published transaction.
    RefundTxSeen { tx: Transaction },
    /// TxCancel was seen confirmed with the punish timelock's depth: T2 has
    /// expired.
    PunishTimelockReached,
    /// The refund Monero wallet swept the shared output back to Alice.
    XmrSwept,
    /// TxPunish was broadcast and accepted.
    PunishTxPublished,
    /// TxPunish was rejected, but TxRefund turned out to be on chain: `tx`
    /// is the published refund transaction.
    PunishFailedRefundTxFound { tx: Transaction },
    /// A required wallet or peer call failed.
    Fault,
}

/// Why a transition did not produce a next state.
#[derive(Clone, Copy, Debug, PartialEq, Eq, Structural)]
pub enum SwapError {
    /// A wallet or peer call failed; resume from the last persisted state
    /// and retry.
    Transient,
    /// The event does not answer the action the current state demands.
    UnexpectedEvent,
    /// The counterparty's material failed verification.
    ProtocolViolation,
    /// TxRedeem was broadcast but its mempool acceptance could not be
    /// confirmed; operator attention is needed, no transition is recorded.
    RedeemMempoolAmbiguity,
    /// TxRedeem was seen in the mempool but its finality could not be
    /// confirmed; operator attention is needed, no transition is recorded.
    RedeemFinalityAmbiguity,
}

/// Whether the swap has reached a terminal state.
pub open spec fn is_complete_spec(state: AliceState) -> bool {
    matches!(
        state,
        AliceState::XmrRefunded
            | AliceState::BtcRedeemed
            | AliceState::BtcPunished
            | AliceState::SafelyAborted,
    )
}

pub fn is_complete(state: &AliceState) -> (r: bool)
    ensures
        r == is_complete_spec(*state),
{
    matches!(
        state,
        AliceState::XmrRefunded
            | AliceState::BtcRedeemed
            | AliceState::BtcPunished
            | AliceState::SafelyAborted,
    )
}

/// The setup state a swap state carries, if any.
pub open spec fn state3_of(state: AliceState) -> Option<State3> {
    match state {
        AliceState::Started { state3 } => Some(state3),
        AliceState::BtcLocked { state3 } => Some(state3),
        AliceState::XmrLockTransactionSent { state3, .. } => Some(state3),
        AliceState::XmrLocked { state3, .. } => Some(state3),
        AliceState::XmrLockTransferProofSent { state3, .. } => Some(state3),
        AliceState::EncSigLearned { state3, .. } => Some(state3),
        AliceState::BtcRedeemTransactionPublished { state3 } => Some(state3),
        AliceState::CancelTimelockExpired { state3, .. } => Some(state3),
        AliceState::BtcCancelled { state3, .. } => Some(state3),
        AliceState::BtcRefunded { state3, .. } => Some(state3),
        AliceState::BtcPunishable { state3, .. } => Some(state3),
        AliceState::XmrRefunded
        | AliceState::BtcRedeemed
        | AliceState::BtcPunished
        | AliceState::SafelyAborted => None,
    }
}

/// A valid swap state: the setup state it carries, if any, is well-formed.
pub open spec fn state_wf(state: AliceState) -> bool {
    match state3_of(state) {
        Some(state3) => state3.wf(),
        None => true,
    }
}

/// Runtime check of [`state_wf`], for callers outside the library.
pub fn check_state_wf(state: &AliceState) -> (r: bool)
    ensures
        r == state_wf(*state),
{
    match state {
        AliceState::Started { state3 } => state3.check_wf(),
        AliceState::BtcLocked { state3 } => state3.check_wf(),
        AliceState::XmrLockTransactionSent { state3, .. } => state3.check_wf(),
        AliceState::XmrLocked { state3, .. } => state3.check_wf(),
        AliceState::XmrLockTransferProofSent { state3, .. } => state3.check_wf(),
        AliceState::EncSigLearned { state3, .. } => state3.check_wf(),
        AliceState::BtcRedeemTransactionPublished { state3 } => state3.check_wf(),
        AliceState::CancelTimelockExpired { state3, .. } => state3.check_wf(),
        AliceState::BtcCancelled { state3, .. } => state3.check_wf(),
        AliceState::BtcRefunded { state3, .. } => state3.check_wf(),
        AliceState::BtcPunishable { state3, .. } => state3.check_wf(),
        AliceState::XmrRefunded
        | AliceState::BtcRedeemed
        | AliceState::BtcPunished
        | AliceState::SafelyAborted => true,
    }
}

/// The environment work each state demands before it can transition.  Where
/// two waits race, `cancel_preferred` says whether the timelock side must be
/// polled first.
#[derive(Clone, Copy, Debug, PartialEq, Eq, Structural)]
pub enum AliceAction {
    /// Subscribe to TxLock and wait for finality, bounded by the
    /// lock-confirmed timeout.
    WaitForBtcLockFinality,
    /// Check timelocks; if none expired, record the Monero height and
    /// transfer the XMR to the shared address.
    CheckTimelocksThenLockXmr,
    /// Check timelocks; if none expired, watch the XMR lock transfer until
    /// one confirmation.
    CheckTimelocksThenWatchXmrLock,
    /// Race sending the transfer proof against T1 expiry; either may win.
    SendProofOrWatchCancel { cancel_preferred: bool },
    /// Race T1 expiry against receiving the encrypted signature; the
    /// timelock side is strictly preferred.
    RecvEncSigOrWatchCancel { cancel_preferred: bool },
    /// Check timelocks; if none expired, build, broadcast and watch
    /// TxRedeem, falling back to a T1 wait on failure.
    CheckTimelocksThenPublishRedeem,
    /// Wait for TxRedeem finality.
    WaitForRedeemFinality,
    /// Ensure TxCancel is on chain, publishing it if absent.
    EnsureCancelOnChain,
    /// Race TxRefund appearing against T2 expiry.
    WatchRefundOrPunishTimelock,
    /// Sweep the shared Monero output back to Alice with the recovered key.
    SweepXmr,
    /// Publish TxPunish, falling back to the refund path if it is rejected.
    PublishPunish,
    /// Terminal state: nothing to do.
    NoAction,
}

pub open spec fn pending_action_spec(state: AliceState) -> AliceAction {
    match state {
        AliceState::Started { .. } => AliceAction::WaitForBtcLockFinality,
        AliceState::BtcLocked { .. } => AliceAction::CheckTimelocksThenLockXmr,
        AliceState::XmrLockTransactionSent { .. } => AliceAction::CheckTimelocksThenWatchXmrLock,
        AliceState::XmrLocked { .. } => AliceAction::SendProofOrWatchCancel { cancel_preferred: false },
        AliceState::XmrLockTransferProofSent { .. } => AliceAction::RecvEncSigOrWatchCancel { cancel_preferred: true },
        AliceState::EncSigLearned { .. } => AliceAction::CheckTimelocksThenPublishRedeem,
        AliceState::BtcRedeemTransactionPublished { .. } => AliceAction::WaitForRedeemFinality,
        AliceState::CancelTimelockExpired { .. } => AliceAction::EnsureCancelOnChain,
        AliceState::BtcCancelled { .. } => AliceAction::WatchRefundOrPunishTimelock,
        AliceState::BtcRefunded { .. } => AliceAction::SweepXmr,
        AliceState::BtcPunishable { .. } => AliceAction::PublishPunish,
        AliceState::XmrRefunded
        | AliceState::BtcRedeemed
        | AliceState::BtcPunished
        | AliceState::SafelyAborted => AliceAction::NoAction,
    }
}

/// What the driver must do in `state` to obtain the next event.
pub fn pending_action(state: &AliceState) -> (r: AliceAction)
    ensures
        r == pending_action_spec(*state),
{
    match state {
        AliceState::Started { .. } => AliceAction::WaitForBtcLockFinality,
        AliceState::BtcLocked { .. } => AliceAction::CheckTimelocksThenLockXmr,
        AliceState::XmrLockTransactionSent { .. } => AliceAction::CheckTimelocksThenWatchXmrLock,
        AliceState::XmrLocked { .. } => AliceAction::SendProofOrWatchCancel { cancel_preferred: false },
        AliceState::XmrLockTransferProofSent { .. } => AliceAction::RecvEncSigOrWatchCancel { cancel_preferred: true },
        AliceState::EncSigLearned { .. } => AliceAction::CheckTimelocksThenPublishRedeem,
        AliceState::BtcRedeemTransactionPublished { .. } => AliceAction::WaitForRedeemFinality,
        AliceState::CancelTimelockExpired { .. } => AliceAction::EnsureCancelOnChain,
        AliceState::BtcCancelled { .. } => AliceAction::WatchRefundOrPunishTimelock,
        AliceState::BtcRefunded { .. } => AliceAction::SweepXmr,
        AliceState::BtcPunishable { .. } => AliceAction::PublishPunish,
        AliceState::XmrRefunded
        | AliceState::BtcRedeemed
        | AliceState::BtcPunished
        | AliceState::SafelyAborted => AliceAction::NoAction,
    }
}

/// Alice's transition function: the next state, or the error the driver
/// surfaces, from the current state and one observed event.
///
/// Terminal states absorb every event.  In every other state, `Fault`
/// surfaces as `Transient`, and an event that does not answer the state's
/// pending action surfaces as `UnexpectedEvent`.
pub open spec fn next_state_spec(state: AliceState, event: AliceEvent) -> Result<
    AliceState,
    SwapError,
> {
    if is_complete_spec(state) {
        Result::Ok(state)
    } else if event == AliceEvent::Fault {
        Result::Err(SwapError::Transient)
    } else {
        match state {
            AliceState::Started { state3 } => match event {
                AliceEvent::TxLockFinalized => Result::Ok(AliceState::BtcLocked { state3 }),
                AliceEvent::TxLockWaitTimedOut => Result::Ok(AliceState::SafelyAborted),
                _ => Result::Err(SwapError::UnexpectedEvent),
            },
            AliceState::BtcLocked { state3 } => match event {
                AliceEvent::XmrTransferStarted { restore_height, proof } => Result::Ok(
                    AliceState::XmrLockTransactionSent {
                        monero_wallet_restore_blockheight: restore_height,
                        transfer_proof: proof,
                        state3,
                    },
                ),
                AliceEvent::TimelockExpired { status } => if status == ExpiredTimelocks::NotExpired {
                    Result::Err(SwapError::UnexpectedEvent)
                } else {
                    // Alice has not locked her XMR yet: she walks away
                    // rather than lock funds she could no longer redeem.
                    Result::Ok(AliceState::SafelyAborted)
                },
                _ => Result::Err(SwapError::UnexpectedEvent),
            },
            AliceState::XmrLockTransactionSent {
                monero_wallet_restore_blockheight,
                transfer_proof,
                state3,
            } => match event {
                AliceEvent::XmrTransferConfirmed => Result::Ok(
                    AliceState::XmrLocked {
                        monero_wallet_restore_blockheight,
                        transfer_proof,
                        state3,
                    },
                ),
                AliceEvent::TimelockExpired { status } => if status == ExpiredTimelocks::NotExpired {
                    Result::Err(SwapError::UnexpectedEvent)
                } else {
                    Result::Ok(
                        AliceState::CancelTimelockExpired {
                            monero_wallet_restore_blockheight,
                            transfer_proof,
                            state3,
                        },
                    )
                },
                _ => Result::Err(SwapError::UnexpectedEvent),
            },
            AliceState::XmrLocked { monero_wallet_restore_blockheight, transfer_proof, state3 } => match event {
                AliceEvent::TransferProofDelivered => Result::Ok(
                    AliceState::XmrLockTransferProofSent {
                        monero_wallet_restore_blockheight,
                        transfer_proof,
                        state3,
                    },
                ),
                AliceEvent::CancelTimelockReached => Result::Ok(
                    AliceState::CancelTimelockExpired {
                        monero_wallet_restore_blockheight,
                        transfer_proof,
                        state3,
                    },
                ),
                _ => Result::Err(SwapError::UnexpectedEvent),
            },
            AliceState::XmrLockTransferProofSent {
                monero_wallet_restore_blockheight,
                transfer_proof,
                state3,
            } => match event {
                AliceEvent::CancelTimelockReached => Result::Ok(
                    AliceState::CancelTimelockExpired {
                        monero_wallet_restore_blockheight,
                        transfer_proof,
                        state3,
                    },
                ),
                AliceEvent::EncSigReceived { encsig } => Result::Ok(
                    AliceState::EncSigLearned {
                        monero_wallet_restore_blockheight,
                        transfer_proof,
                        encrypted_signature: encsig,
                        state3,
                    },
                ),
                _ => Result::Err(SwapError::UnexpectedEvent),
            },
            AliceState::EncSigLearned {
                monero_wallet_restore_blockheight,
                transfer_proof,
                encrypted_signature,
                state3,
            } => match event {
                AliceEvent::TimelockExpired { status } => if status == ExpiredTimelocks::NotExpired {
                    Result::Err(SwapError::UnexpectedEvent)
                } else {
                    Result::Ok(
                        AliceState::CancelTimelockExpired {
                            monero_wallet_restore_blockheight,
                            transfer_proof,
                            state3,
                        },
                    )
                },
                AliceEvent::RedeemTxSeenInMempool => if redeem_encsig_valid_spec(
                    state3,
                    encrypted_signature,
                ) {
                    Result::Ok(AliceState::BtcRedeemTransactionPublished { state3 })
                } else {
                    // An invalid encrypted signature never yields a redeem
                    // transaction to broadcast.
                    Result::Err(SwapError::UnexpectedEvent)
                },
                AliceEvent::RedeemMempoolWaitFailed => if redeem_encsig_valid_spec(
                    state3,
                    encrypted_signature,
                ) {
                    Result::Err(SwapError::RedeemMempoolAmbiguity)
                } else {
                    Result::Err(SwapError::UnexpectedEvent)
                },
                AliceEvent::RedeemAbortedCancelReached => Result::Ok(
                    AliceState::CancelTimelockExpired {
                        monero_wallet_restore_blockheight,
                        transfer_proof,
                        state3,
                    },
                ),
                AliceEvent::RedeemAbortedWaitFailed => Result::Err(SwapError::Transient),
                _ => Result::Err(SwapError::UnexpectedEvent),
            },
            AliceState::BtcRedeemTransactionPublished { .. } => match event {
                AliceEvent::RedeemTxFinalized => Result::Ok(AliceState::BtcRedeemed),
                AliceEvent::RedeemFinalityWaitFailed => Result::Err(
                    SwapError::RedeemFinalityAmbiguity,
                ),
                _ => Result::Err(SwapError::UnexpectedEvent),
            },
            AliceState::CancelTimelockExpired {
                monero_wallet_restore_blockheight,
                transfer_proof,
                state3,
            } => match event {
                AliceEvent::CancelEnsuredOnChain => Result::Ok(
                    AliceState::BtcCancelled {
                        monero_wallet_restore_blockheight,
                        transfer_proof,
                        state3,
                    },
                ),
                _ => Result::Err(SwapError::UnexpectedEvent),
            },
            AliceState::BtcCancelled { monero_wallet_restore_blockheight, transfer_proof, state3 } => match event {
                AliceEvent::RefundTxSeen { tx } => match extract_monero_private_key_spec(
                    state3,
                    tx,
                ) {
                    Result::Ok(spend_key) => Result::Ok(
                        AliceState::BtcRefunded {
                            monero_wallet_restore_blockheight,
                            transfer_proof,
                            spend_key,
                            state3,
                        },
                    ),
                    Result::Err(_) => Result::Err(SwapError::ProtocolViolation),
                },
                AliceEvent::PunishTimelockReached => Result::Ok(
                    AliceState::BtcPunishable {
                        monero_wallet_restore_blockheight,
                        transfer_proof,
                        state3,
                    },
                ),
                _ => Result::Err(SwapError::UnexpectedEvent),
            },
            AliceState::BtcRefunded { .. } => match event {
                AliceEvent::XmrSwept => Result::Ok(AliceState::XmrRefunded),
                _ => Result::Err(SwapError::UnexpectedEvent),
            },
            AliceState::BtcPunishable { monero_wallet_restore_blockheight, transfer_proof, state3 } => match event {
                AliceEvent::PunishTxPublished => Result::Ok(AliceState::BtcPunished),
                AliceEvent::PunishFailedRefundTxFound { tx } => match extract_monero_private_key_spec(
                    state3,
                    tx,
                ) {
                    Result::Ok(spend_key) => Result::Ok(
                        AliceState::BtcRefunded {
                            monero_wallet_restore_blockheight,
                            transfer_proof,
                            spend_key,
                            state3,
                        },
                    ),
                    Result::Err(_) => Result::Err(SwapError::ProtocolViolation),
                },
                _ => Result::Err(SwapError::UnexpectedEvent),
            },
            // Terminal states are handled above.
            AliceState::XmrRefunded
            | AliceState::BtcRedeemed
            | AliceState::BtcPunished
            | AliceState::SafelyAborted => Result::Ok(state),
        }
    }
}

/// Advance Alice's state machine by one observed event.
pub fn next_state(state: &AliceState, event: &AliceEvent) -> (r: Result<AliceState, SwapError>)
    requires
        state_wf(*state),
    ensures
        r == next_state_spec(*state, *event),
{
    let state = *state;
    let event = *event;
    if is_complete(&state) {
        return Result::Ok(state);
    }
    if matches!(event, AliceEvent::Fault) {
        return Result::Err(SwapError::Transient);
    }
    match state {
        AliceState::Started { state3 } => match event {
            AliceEvent::TxLockFinalized => Result::Ok(AliceState::BtcLocked { state3 }),
            AliceEvent::TxLockWaitTimedOut => Result::Ok(AliceState::SafelyAborted),
            _ => Result::Err(SwapError::UnexpectedEvent),
        },
        AliceState::BtcLocked { state3 } => match event {
            AliceEvent::XmrTransferStarted { restore_height, proof } => Result::Ok(
                AliceState::XmrLockTransactionSent {
                    monero_wallet_restore_blockheight: restore_height,
                    transfer_proof: proof,
                    state3,
                },
            ),
            AliceEvent::TimelockExpired { status } => if matches!(
                status,
                ExpiredTimelocks::NotExpired,
            ) {
                Result::Err(SwapError::UnexpectedEvent)
            } else {
                Result::Ok(AliceState::SafelyAborted)
            },
            _ => Result::Err(SwapError::UnexpectedEvent),
        },
        AliceState::XmrLockTransactionSent {
            monero_wallet_restore_blockheight,
            transfer_proof,
            state3,
        } => match event {
            AliceEvent::XmrTransferConfirmed => Result::Ok(
                AliceState::XmrLocked {
                    monero_wallet_restore_blockheight,
                    transfer_proof,
                    state3,
                },
            ),
            AliceEvent::TimelockExpired { status } => if matches!(
                status,
                ExpiredTimelocks::NotExpired,
            ) {
                Result::Err(SwapError::UnexpectedEvent)
            } else {
                Result::Ok(
                    AliceState::CancelTimelockExpired {
                        monero_wallet_restore_blockheight,
                        transfer_proof,
                        state3,
                    },
                )
            },
            _ => Result::Err(SwapError::UnexpectedEvent),
        },
        AliceState::XmrLocked { monero_wallet_restore_blockheight, transfer_proof, state3 } => match event {
            AliceEvent::TransferProofDelivered => Result::Ok(
                AliceState::XmrLockTransferProofSent {
                    monero_wallet_restore_blockheight,
                    transfer_proof,
                    state3,
                },
            ),
            AliceEvent::CancelTimelockReached => Result::Ok(
                AliceState::CancelTimelockExpired {
                    monero_wallet_restore_blockheight,
                    transfer_proof,
                    state3,
                },
            ),
            _ => Result::Err(SwapError::UnexpectedEvent),
        },
        AliceState::XmrLockTransferProofSent {
            monero_wallet_restore_blockheight,
            transfer_proof,
            state3,
        } => match event {
            AliceEvent::CancelTimelockReached => Result::Ok(
                AliceState::CancelTimelockExpired {
                    monero_wallet_restore_blockheight,
                    transfer_proof,
                    state3,
                },
            ),
            AliceEvent::EncSigReceived { encsig } => Result::Ok(
                AliceState::EncSigLearned {
                    monero_wallet_restore_blockheight,
                    transfer_proof,
                    encrypted_signature: encsig,
                    state3,
                },
            ),
            _ => Result::Err(SwapError::UnexpectedEvent),
        },
        AliceState::EncSigLearned {
            monero_wallet_restore_blockheight,
            transfer_proof,
            encrypted_signature,
            state3,
        } => match event {
            AliceEvent::TimelockExpired { status } => if matches!(
                status,
                ExpiredTimelocks::NotExpired,
            ) {
                Result::Err(SwapError::UnexpectedEvent)
            } else {
                Result::Ok(
                    AliceState::CancelTimelockExpired {
                        monero_wallet_restore_blockheight,
                        transfer_proof,
                        state3,
                    },
                )
            },
            AliceEvent::RedeemTxSeenInMempool => if redeem_encsig_valid(
                &state3,
                encrypted_signature,
            ) {
                Result::Ok(AliceState::BtcRedeemTransactionPublished { state3 })
            } else {
                Result::Err(SwapError::UnexpectedEvent)
            },
            AliceEvent::RedeemMempoolWaitFailed => if redeem_encsig_valid(
                &state3,
                encrypted_signature,
            ) {
                Result::Err(SwapError::RedeemMempoolAmbiguity)
            } else {
                Result::Err(SwapError::UnexpectedEvent)
            },
            AliceEvent::RedeemAbortedCancelReached => Result::Ok(
                AliceState::CancelTimelockExpired {
                    monero_wallet_restore_blockheight,
                    transfer_proof,
                    state3,
                },
            ),
            AliceEvent::RedeemAbortedWaitFailed => Result::Err(SwapError::Transient),
            _ => Result::Err(SwapError::UnexpectedEvent),
        },
        AliceState::BtcRedeemTransactionPublished { .. } => match event {
            AliceEvent::RedeemTxFinalized => Result::Ok(AliceState::BtcRedeemed),
            AliceEvent::RedeemFinalityWaitFailed => Result::Err(SwapError::RedeemFinalityAmbiguity),
            _ => Result::Err(SwapError::UnexpectedEvent),
        },
        AliceState::CancelTimelockExpired {
            monero_wallet_restore_blockheight,
            transfer_proof,
            state3,
        } => match event {
            AliceEvent::CancelEnsuredOnChain => Result::Ok(
                AliceState::BtcCancelled {
                    monero_wallet_restore_blockheight,
                    transfer_proof,
                    state3,
                },
            ),
            _ => Result::Err(SwapError::UnexpectedEvent),
        },
        AliceState::BtcCancelled { monero_wallet_restore_blockheight, transfer_proof, state3 } => match event {
            AliceEvent::RefundTxSeen { tx } => match extract_monero_private_key(&state3, &tx) {
                Result::Ok(spend_key) => Result::Ok(
                    AliceState::BtcRefunded {
                        monero_wallet_restore_blockheight,
                        transfer_proof,
                        spend_key,
                        state3,
                    },
                ),
                Result::Err(_) => Result::Err(SwapError::ProtocolViolation),
            },
            AliceEvent::PunishTimelockReached => Result::Ok(
                AliceState::BtcPunishable {
                    monero_wallet_restore_blockheight,
                    transfer_proof,
                    state3,
                },
            ),
            _ => Result::Err(SwapError::UnexpectedEvent),
        },
        AliceState::BtcRefunded { .. } => match event {
            AliceEvent::XmrSwept => Result::Ok(AliceState::XmrRefunded),
            _ => Result::Err(SwapError::UnexpectedEvent),
        },
        AliceState::BtcPunishable { monero_wallet_restore_blockheight, transfer_proof, state3 } => match event {
            AliceEvent::PunishTxPublished => Result::Ok(AliceState::BtcPunished),
            AliceEvent::PunishFailedRefundTxFound { tx } => match extract_monero_private_key(
                &state3,
                &tx,
            ) {
                Result::Ok(spend_key) => Result::Ok(
                    AliceState::BtcRefunded {
                        monero_wallet_restore_blockheight,
                        transfer_proof,
                        spend_key,
                        state3,
                    },
                ),
                Result::Err(_) => Result::Err(SwapError::ProtocolViolation),
            },
            _ => Result::Err(SwapError::UnexpectedEvent),
        },
        AliceState::XmrRefunded
        | AliceState::BtcRedeemed
        | AliceState::BtcPunished
        | AliceState::SafelyAborted => Result::Ok(state),
    }
}

/// States on the happy path: those from which the swap can still end in
/// Alice redeeming the locked BTC.
pub open spec fn is_happy_path(state: AliceState) -> bool {
    matches!(
        state,
        AliceState::Started { .. }
            | AliceState::BtcLocked { .. }
            | AliceState::XmrLockTransactionSent { .. }
            | AliceState::XmrLocked { .. }
            | AliceState::XmrLockTransferProofSent { .. }
            | AliceState::EncSigLearned { .. }
            | AliceState::BtcRedeemTransactionPublished { .. }
            | AliceState::BtcRedeemed,
    )
}

/// States on the recovery paths: abort, cancel, refund and punish.
pub open spec fn is_recovery_path(state: AliceState) -> bool {
    matches!(
        state,
        AliceState::CancelTimelockExpired { .. }
            | AliceState::BtcCancelled { .. }
            | AliceState::BtcRefunded { .. }
            | AliceState::BtcPunishable { .. }
            | AliceState::XmrRefunded
            | AliceState::BtcPunished
            | AliceState::SafelyAborted,
    )
}

/// Whether an event reports a timelock observed expired on chain.
pub open spec fn observes_timelock_expiry(event: AliceEvent) -> bool {
    ||| matches!(event, AliceEvent::TimelockExpired { status } if status != ExpiredTimelocks::NotExpired)
    ||| matches!(event, AliceEvent::CancelTimelockReached)
    ||| matches!(event, AliceEvent::RedeemAbortedCancelReached)
    ||| matches!(event, AliceEvent::PunishTimelockReached)
}

/// Terminal states are absorbing: every event maps a terminal state to
/// itself.
pub proof fn lemma_terminal_absorbing(state: AliceState, event: AliceEvent)
    requires
        is_complete_spec(state),
    ensures
        next_state_spec(state, event) == Result::<AliceState, SwapError>::Ok(state),
{
}

/// Transitions preserve validity of the carried setup state.
pub proof fn lemma_next_state_preserves_wf(state: AliceState, event: AliceEvent)
    requires
        state_wf(state),
        next_state_spec(state, event) is Ok,
    ensures
        state_wf(next_state_spec(state, event)->Ok_0),
{
}

/// No happy-path transition happens after a timelock is observed expired:
/// from any non-terminal state, an event that reports an expired timelock
/// leads onto a recovery path.
pub proof fn lemma_no_happy_path_after_expiry(state: AliceState, event: AliceEvent)
    requires
        !is_complete_spec(state),
        observes_timelock_expiry(event),
        next_state_spec(state, event) is Ok,
    ensures
        is_recovery_path(next_state_spec(state, event)->Ok_0),
        !is_happy_path(next_state_spec(state, event)->Ok_0),
{
}

/// Once on a recovery path, the machine stays on it.
pub proof fn lemma_recovery_path_is_closed(state: AliceState, event: AliceEvent)
    requires
        is_recovery_path(state),
        next_state_spec(state, event) is Ok,
    ensures
        is_recovery_path(next_state_spec(state, event)->Ok_0),
{
}

/// A swap in the role of Alice: its identifier and its current state.  The
/// wallets and the peer channel reach the machine only as events.
#[derive(Clone, Copy, Debug, PartialEq, Eq, Structural)]
pub struct Swap {
    pub swap_id: u128,
    pub state: AliceState,
}

/// Why a driver run stopped without reaching its goal.
#[derive(Clone, Copy, Debug, PartialEq, Eq, Structural)]
pub enum DriverError {
    /// A transition failed; resume from the last persisted state.
    Swap(SwapError),
    /// The environment yielded no further event while the swap was neither
    /// complete nor exited early.
    EventsExhausted,
}

/// The outcome of driving the machine from `state` through `events` until a
/// terminal state, an error, or the end of the events.
pub open spec fn run_spec(state: AliceState, events: Seq<AliceEvent>) -> Result<
    AliceState,
    DriverError,
>
    decreases events.len(),
{
    if is_complete_spec(state) {
        Result::Ok(state)
    } else if events.len() == 0 {
        Result::Err(DriverError::EventsExhausted)
    } else {
        match next_state_spec(state, events[0]) {
            Result::Ok(next) => run_spec(next, events.skip(1)),
            Result::Err(e) => Result::Err(DriverError::Swap(e)),
        }
    }
}

/// The state reached after consuming every event in `events` from `state`,
/// if each one applies successfully and no terminal state cuts the run
/// short.
pub open spec fn mid_state_spec(state: AliceState, events: Seq<AliceEvent>) -> Option<AliceState>
    decreases events.len(),
{
    if events.len() == 0 {
        Some(state)
    } else if is_complete_spec(state) {
        None
    } else {
        match next_state_spec(state, events[0]) {
            Result::Ok(next) => mid_state_spec(next, events.skip(1)),
            Result::Err(_) => None,
        }
    }
}

/// The states the driver persists while consuming `events` from `state`:
/// one per applied transition, in order.
pub open spec fn persisted_states_spec(state: AliceState, events: Seq<AliceEvent>) -> Seq<
    AliceState,
>
    decreases events.len(),
{
    if events.len() == 0 || is_complete_spec(state) {
        Seq::empty()
    } else {
        match next_state_spec(state, events[0]) {
            Result::Ok(next) => seq![next] + persisted_states_spec(next, events.skip(1)),
            Result::Err(_) => Seq::empty(),
        }
    }
}

proof fn lemma_mid_state_snoc(state: AliceState, events: Seq<AliceEvent>, event: AliceEvent)
    ensures
        mid_state_spec(state, events.push(event)) == (match mid_state_spec(state, events) {
            Some(mid) => if is_complete_spec(mid) {
                Option::<AliceState>::None
            } else {
                match next_state_spec(mid, event) {
                    Result::Ok(next) => Some(next),
                    Result::Err(_) => None,
                }
            },
            None => None,
        }),
    decreases events.len(),
{
    reveal_with_fuel(mid_state_spec, 3);
    if events.len() == 0 {
        assert(events.push(event)[0] == event);
        assert(events.push(event).skip(1) =~= Seq::<AliceEvent>::empty());
    } else {
        assert(events.push(event)[0] == events[0]);
        assert(events.push(event).skip(1) =~= events.skip(1).push(event));
        if !is_complete_spec(state) {
            match next_state_spec(state, events[0]) {
                Result::Ok(next) => {
                    lemma_mid_state_snoc(next, events.skip(1), event);
                    assert(mid_state_spec(state, events.push(event)) == mid_state_spec(
                        next,
                        events.skip(1).push(event),
                    ));
                    assert(mid_state_spec(state, events) == mid_state_spec(next, events.skip(1)));
                },
                Result::Err(_) => {},
            }
        }
    }
}

proof fn lemma_persisted_states_snoc(state: AliceState, events: Seq<AliceEvent>, event: AliceEvent)
    ensures
        persisted_states_spec(state, events.push(event)) == (match mid_state_spec(state, events) {
            Some(mid) => if is_complete_spec(mid) {
                persisted_states_spec(state, events)
            } else {
                match next_state_spec(mid, event) {
                    Result::Ok(next) => persisted_states_spec(state, events).push(next),
                    Result::Err(_) => persisted_states_spec(state, events),
                }
            },
            None => persisted_states_spec(state, events),
        }),
    decreases events.len(),
{
    reveal_with_fuel(persisted_states_spec, 3);
    reveal_with_fuel(mid_state_spec, 3);
    if events.len() == 0 {
        if !is_complete_spec(state) {
            match next_state_spec(state, event) {
                Result::Ok(next) => {
                    assert(events.push(event)[0] == event);
                    assert(events.push(event).skip(1) =~= Seq::<AliceEvent>::empty());
                    assert(persisted_states_spec(state, events.push(event)) =~= persisted_states_spec(
                        state,
                        events,
                    ).push(next));
                },
                Result::Err(_) => {
                    assert(events.push(event)[0] == event);
                },
            }
        }
    } else {
        assert(events.push(event)[0] == events[0]);
        assert(events.push(event).skip(1) =~= events.skip(1).push(event));
        if !is_complete_spec(state) {
            match next_state_spec(state, events[0]) {
                Result::Ok(next) => {
                    lemma_persisted_states_snoc(next, events.skip(1), event);
                    match mid_state_spec(next, events.skip(1)) {
                        Some(mid) => {
                            if !is_complete_spec(mid) {
                                match next_state_spec(mid, event) {
                                    Result::Ok(next2) => {
                                        assert(seq![next] + persisted_states_spec(
                                            next,
                                            events.skip(1),
                                        ).push(next2) =~= (seq![next] + persisted_states_spec(
                                            next,
                                            events.skip(1),
                                        )).push(next2));
                                    },
                                    Result::Err(_) => {},
                                }
                            }
                        },
                        None => {},
                    }
                },
                Result::Err(_) => {},
            }
        }
    }
}

/// Crash-resume equivalence: if the driver is interrupted after any prefix
/// of the events — the persisted state then being `mid_state_spec` of that
/// prefix — resuming from the persisted state over the remaining events
/// reaches exactly the outcome of the uninterrupted run.
pub proof fn lemma_resume_equals_uninterrupted(
    state: AliceState,
    prefix: Seq<AliceEvent>,
    rest: Seq<AliceEvent>,
)
    requires
        mid_state_spec(state, prefix) is Some,
    ensures
        run_spec(state, prefix + rest) == run_spec(mid_state_spec(state, prefix)->Some_0, rest),
    decreases prefix.len(),
{
    if prefix.len() == 0 {
        assert(prefix + rest =~= rest);
    } else {
        assert(!is_complete_spec(state));
        assert((prefix + rest)[0] == prefix[0]);
        match next_state_spec(state, prefix[0]) {
            Result::Ok(next) => {
                assert((prefix + rest).skip(1) =~= prefix.skip(1) + rest);
                lemma_resume_equals_uninterrupted(next, prefix.skip(1), rest);
            },
            Result::Err(_) => {
                assert(false);
            },
        }
    }
}

/// Run the swap until its state is terminal or `exit_early` asks to stop,
/// consuming events from `events` in order and persisting the state reached
/// after every transition before taking the next.
///
/// On success the returned state is terminal or accepted by `exit_early`,
/// and it is the state `mid_state_spec` assigns to the consumed prefix; in
/// every case the checkpointer holds exactly the previous history extended
/// by one record per applied transition, and remains a valid path.
pub fn run_until<F: Fn(&AliceState) -> bool>(
    swap: Swap,
    exit_early: F,
    events: &Vec<AliceEvent>,
    db: &mut crate::database::Database,
) -> (r: Result<AliceState, DriverError>)
    requires
        state_wf(swap.state),
        old(db).wf(),
        old(db).history_of(swap.swap_id).len() == 0 || old(db).history_of(swap.swap_id).last()
            == crate::database::Swap::Alice(swap.state),
        forall|s: &AliceState| #[trigger] call_requires(exit_early, (s,)),
    ensures
        final(db).wf(),
        forall|other: u128| other != swap.swap_id ==> final(db).history_of(other) == old(
            db,
        ).history_of(other),
        match r {
            Result::Ok(s) => {
                &&& state_wf(s)
                &&& is_complete_spec(s) || call_ensures(exit_early, (&s,), true)
                &&& exists|k: int|
                    {
                        &&& 0 <= k <= events@.len()
                        &&& #[trigger] mid_state_spec(swap.state, events@.take(k)) == Some(s)
                        &&& final(db).history_of(swap.swap_id) == old(db).history_of(swap.swap_id)
                            + persisted_states_spec(swap.state, events@.take(k)).map_values(
                            |st: AliceState| crate::database::Swap::Alice(st),
                        )
                        &&& persisted_states_spec(swap.state, events@.take(k)).len() == k
                        &&& k > 0 ==> persisted_states_spec(swap.state, events@.take(k)).last()
                            == s
                        &&& k == 0 ==> s == swap.state
                    }
            },
            Result::Err(DriverError::EventsExhausted) => {
                &&& mid_state_spec(swap.state, events@) is Some
                &&& !is_complete_spec(mid_state_spec(swap.state, events@)->Some_0)
                &&& final(db).history_of(swap.swap_id) == old(db).history_of(swap.swap_id)
                    + persisted_states_spec(swap.state, events@).map_values(
                    |st: AliceState| crate::database::Swap::Alice(st),
                )
            },
            Result::Err(DriverError::Swap(e)) => exists|k: int|
                {
                    &&& 0 <= k < events@.len()
                    &&& #[trigger] mid_state_spec(swap.state, events@.take(k)) is Some
                    &&& !is_complete_spec(mid_state_spec(swap.state, events@.take(k))->Some_0)
                    &&& next_state_spec(
                        mid_state_spec(swap.state, events@.take(k))->Some_0,
                        events@[k],
                    ) == Result::<AliceState, SwapError>::Err(e)
                    &&& final(db).history_of(swap.swap_id) == old(db).history_of(swap.swap_id)
                        + persisted_states_spec(swap.state, events@.take(k)).map_values(
                        |st: AliceState| crate::database::Swap::Alice(st),
                    )
                },
        },
{
    let ghost init = swap.state;
    let ghost old_hist = old(db).history_of(swap.swap_id);
    let mut current = swap.state;
    let mut i: usize = 0;
    loop
        invariant
            init == swap.state,
            old_hist == old(db).history_of(swap.swap_id),
            i <= events@.len(),
            state_wf(current),
            mid_state_spec(init, events@.take(i as int)) == Some(current),
            persisted_states_spec(init, events@.take(i as int)).len() == i as int,
            i > 0 ==> persisted_states_spec(init, events@.take(i as int)).last() == current,
            i == 0 ==> current == init,
            db.wf(),
            db.history_of(swap.swap_id) == old_hist + persisted_states_spec(
                init,
                events@.take(i as int),
            ).map_values(|st: AliceState| crate::database::Swap::Alice(st)),
            forall|other: u128| other != swap.swap_id ==> db.history_of(other) == old(
                db,
            ).history_of(other),
            old_hist.len() == 0 || old_hist.last() == crate::database::Swap::Alice(init),
            forall|s: &AliceState| #[trigger] call_requires(exit_early, (s,)),
        decreases events@.len() - i,
    {
        proof {
            assert(0 <= i as int <= events@.len() && mid_state_spec(
                swap.state,
                events@.take(i as int),
            ) == Some(current) && db.history_of(swap.swap_id) == old(db).history_of(swap.swap_id)
                + persisted_states_spec(swap.state, events@.take(i as int)).map_values(
                |st: AliceState| crate::database::Swap::Alice(st),
            ));
        }
        if is_complete(&current) {
            return Result::Ok(current);
        }
        if exit_early(&current) {
            return Result::Ok(current);
        }
        if i == events.len() {
            proof {
                assert(events@.take(i as int) =~= events@);
            }
            return Result::Err(DriverError::EventsExhausted);
        }
        let event = events[i];
        proof {
            assert(events@.take(i as int + 1) =~= events@.take(i as int).push(events@[i as int]));
            lemma_mid_state_snoc(init, events@.take(i as int), events@[i as int]);
            lemma_persisted_states_snoc(init, events@.take(i as int), events@[i as int]);
        }
        match next_state(&current, &event) {
            Result::Ok(next) => {
                proof {
                    lemma_next_state_preserves_wf(current, event);
                    assert(crate::database::can_step(
                        crate::database::Swap::Alice(current),
                        crate::database::Swap::Alice(next),
                    ));
                    let p_old = persisted_states_spec(init, events@.take(i as int));
                    let p_new = persisted_states_spec(init, events@.take(i as int + 1));
                    assert(p_new == p_old.push(next));
                    assert(p_new.map_values(|st: AliceState| crate::database::Swap::Alice(st))
                        =~= p_old.map_values(|st: AliceState| crate::database::Swap::Alice(st)).push(
                        crate::database::Swap::Alice(next),
                    ));
                    if i > 0 {
                        assert(db.history_of(swap.swap_id).last() == crate::database::Swap::Alice(
                            current,
                        ));
                    }
                }
                db.insert_latest_state(swap.swap_id, crate::database::Swap::Alice(next));
                current = next;
                i = i + 1;
            },
            Result::Err(e) => {
                proof {
                    assert(next_state_spec(current, events@[i as int]) == Result::<
                        AliceState,
                        SwapError,
                    >::Err(e));
                }
                return Result::Err(DriverError::Swap(e));
            },
        }
    }
}

/// Run the swap to completion over `events`: `run_until` with no early
/// exit.  The result is exactly what the specification-level interpreter
/// [`run_spec`] computes.
pub fn run(swap: Swap, events: &Vec<AliceEvent>, db: &mut crate::database::Database) -> (r: Result<
    AliceState,
    DriverError,
>)
    requires
        state_wf(swap.state),
        old(db).wf(),
        old(db).history_of(swap.swap_id).len() == 0 || old(db).history_of(swap.swap_id).last()
            == crate::database::Swap::Alice(swap.state),
    ensures
        final(db).wf(),
        forall|other: u128| other != swap.swap_id ==> final(db).history_of(other) == old(
            db,
        ).history_of(other),
        r == run_spec(swap.state, events@),
{
    let never = |s: &AliceState| -> (b: bool)
        ensures
            !b,
        { false };
    let ghost init = swap.state;
    let r = run_until(swap, never, events, db);
    proof {
        match r {
            Result::Ok(s) => {
                assert(is_complete_spec(s));
                let k = choose|k: int|
                    {
                        &&& 0 <= k <= events@.len()
                        &&& #[trigger] mid_state_spec(init, events@.take(k)) == Some(s)
                        &&& final(db).history_of(swap.swap_id) == old(db).history_of(swap.swap_id)
                            + persisted_states_spec(init, events@.take(k)).map_values(
                            |st: AliceState| crate::database::Swap::Alice(st),
                        )
                    };
                lemma_resume_equals_uninterrupted(init, events@.take(k), events@.skip(k));
                assert(events@.take(k) + events@.skip(k) =~= events@);
            },
            Result::Err(DriverError::EventsExhausted) => {
                lemma_resume_equals_uninterrupted(init, events@, Seq::<AliceEvent>::empty());
                assert(events@ + Seq::<AliceEvent>::empty() =~= events@);
            },
            Result::Err(DriverError::Swap(e)) => {
                let k = choose|k: int|
                    {
                        &&& 0 <= k < events@.len()
                        &&& #[trigger] mid_state_spec(init, events@.take(k)) is Some
                        &&& !is_complete_spec(mid_state_spec(init, events@.take(k))->Some_0)
                        &&& next_state_spec(
                            mid_state_spec(init, events@.take(k))->Some_0,
                            events@[k],
                        ) == Result::<AliceState, SwapError>::Err(e)
                    };
                lemma_resume_equals_uninterrupted(init, events@.take(k), events@.skip(k));
                assert(events@.take(k) + events@.skip(k) =~= events@);
                assert(events@.skip(k)[0] == events@[k]);
            },
        }
    }
    r
}

/// Why a user-driven `cancel` or `refund` command was refused.
#[derive(Clone, Copy, Debug, PartialEq, Eq, Structural)]
pub enum CommandError {
    /// No state is persisted under the given swap id.
    SwapNotFound,
    /// The persisted swap belongs to the other role.
    NotInThisRole,
    /// The swap's state has no cancel path.
    NotCancellable,
    /// The cancel timelock has not expired and the command was not forced.
    CancelTimelockNotExpiredYet,
    /// The swap's state has no refund path.
    NotRefundable,
    /// The supplied transaction is not this swap's signed refund
    /// transaction.
    InvalidRefundTransaction,
}

/// States from which the user-driven cancel command can take the swap to
/// `BtcCancelled`: the XMR side is engaged and TxLock is spendable by
/// TxCancel.
pub open spec fn is_cancellable(state: AliceState) -> bool {
    matches!(
        state,
        AliceState::XmrLockTransactionSent { .. }
            | AliceState::XmrLocked { .. }
            | AliceState::XmrLockTransferProofSent { .. }
            | AliceState::EncSigLearned { .. }
            | AliceState::CancelTimelockExpired { .. },
    )
}

/// The `CancelTimelockExpired` state carrying a cancellable state's
/// recovery payload.
pub open spec fn cancel_expired_of(state: AliceState) -> AliceState {
    match state {
        AliceState::XmrLockTransactionSent {
            monero_wallet_restore_blockheight,
            transfer_proof,
            state3,
        } => AliceState::CancelTimelockExpired {
            monero_wallet_restore_blockheight,
            transfer_proof,
            state3,
        },
        AliceState::XmrLocked { monero_wallet_restore_blockheight, transfer_proof, state3 } => AliceState::CancelTimelockExpired {
            monero_wallet_restore_blockheight,
            transfer_proof,
            state3,
        },
        AliceState::XmrLockTransferProofSent {
            monero_wallet_restore_blockheight,
            transfer_proof,
            state3,
        } => AliceState::CancelTimelockExpired {
            monero_wallet_restore_blockheight,
            transfer_proof,
            state3,
        },
        AliceState::EncSigLearned { monero_wallet_restore_blockheight, transfer_proof, state3, .. } => AliceState::CancelTimelockExpired {
            monero_wallet_restore_blockheight,
            transfer_proof,
            state3,
        },
        _ => state,
    }
}

/// The `BtcCancelled` state carrying the same recovery payload.
pub open spec fn cancelled_of(state: AliceState) -> AliceState {
    match cancel_expired_of(state) {
        AliceState::CancelTimelockExpired {
            monero_wallet_restore_blockheight,
            transfer_proof,
            state3,
        } => AliceState::BtcCancelled {
            monero_wallet_restore_blockheight,
            transfer_proof,
            state3,
        },
        other => other,
    }
}

/// User-driven recovery: take the swap through `CancelTimelockExpired` to
/// `BtcCancelled`, ensuring TxCancel is on chain.  Refused unless the
/// persisted state has a cancel path and the cancel timelock was observed
/// expired; `force` overrides the timelock check, taking the operator's
/// word for the expiry.  Every state written extends the persisted path.
pub fn cancel(
    swap_id: u128,
    db: &mut crate::database::Database,
    timelock_status: ExpiredTimelocks,
    force: bool,
) -> (r: Result<AliceState, CommandError>)
    requires
        old(db).wf(),
    ensures
        final(db).wf(),
        forall|other: u128| other != swap_id ==> final(db).history_of(other) == old(
            db,
        ).history_of(other),
        ({
            let h = old(db).history_of(swap_id);
            if h.len() == 0 {
                r == Result::<AliceState, CommandError>::Err(CommandError::SwapNotFound)
                    && final(db).history_of(swap_id) == h
            } else {
                match h.last() {
                    crate::database::Swap::Bob(_) => r == Result::<
                        AliceState,
                        CommandError,
                    >::Err(CommandError::NotInThisRole) && final(db).history_of(swap_id) == h,
                    crate::database::Swap::Alice(state) => {
                        if (state matches AliceState::BtcCancelled { .. }) {
                            r == Result::<AliceState, CommandError>::Ok(state)
                                && final(db).history_of(swap_id) == h
                        } else if !is_cancellable(state) {
                            r == Result::<AliceState, CommandError>::Err(
                                CommandError::NotCancellable,
                            ) && final(db).history_of(swap_id) == h
                        } else if !force && timelock_status == ExpiredTimelocks::NotExpired {
                            r == Result::<AliceState, CommandError>::Err(
                                CommandError::CancelTimelockNotExpiredYet,
                            ) && final(db).history_of(swap_id) == h
                        } else {
                            r == Result::<AliceState, CommandError>::Ok(cancelled_of(state))
                                && final(db).history_of(swap_id) == (if (state matches
                                AliceState::CancelTimelockExpired { .. }) {
                                h.push(crate::database::Swap::Alice(cancelled_of(state)))
                            } else {
                                h.push(crate::database::Swap::Alice(cancel_expired_of(state))).push(
                                    crate::database::Swap::Alice(cancelled_of(state)),
                                )
                            })
                        }
                    },
                }
            }
        }),
{
    let record = match db.get_state(swap_id) {
        Some(record) => record,
        None => {
            return Result::Err(CommandError::SwapNotFound);
        },
    };
    let state = match record {
        crate::database::Swap::Alice(state) => state,
        crate::database::Swap::Bob(_) => {
            return Result::Err(CommandError::NotInThisRole);
        },
    };
    if matches!(state, AliceState::BtcCancelled { .. }) {
        return Result::Ok(state);
    }
    if !matches!(
        state,
        AliceState::XmrLockTransactionSent { .. }
            | AliceState::XmrLocked { .. }
            | AliceState::XmrLockTransferProofSent { .. }
            | AliceState::EncSigLearned { .. }
            | AliceState::CancelTimelockExpired { .. },
    ) {
        return Result::Err(CommandError::NotCancellable);
    }
    if !force && matches!(timelock_status, ExpiredTimelocks::NotExpired) {
        return Result::Err(CommandError::CancelTimelockNotExpiredYet);
    }
    proof {
        assert(crate::database::record_wf(old(db).history_of(swap_id).last()));
    }
    let expired = if matches!(state, AliceState::CancelTimelockExpired { .. }) {
        state
    } else {
        let status = if matches!(timelock_status, ExpiredTimelocks::NotExpired) {
            ExpiredTimelocks::Cancel
        } else {
            timelock_status
        };
        let event = match state {
            AliceState::XmrLocked { .. } | AliceState::XmrLockTransferProofSent { .. } => AliceEvent::CancelTimelockReached,
            _ => AliceEvent::TimelockExpired { status },
        };
        let stepped = match next_state(&state, &event) {
            Result::Ok(next) => next,
            Result::Err(_) => {
                proof {
                    assert(false);
                }
                return Result::Err(CommandError::NotCancellable);
            },
        };
        proof {
            assert(crate::database::can_step(
                crate::database::Swap::Alice(state),
                crate::database::Swap::Alice(stepped),
            ));
            lemma_next_state_preserves_wf(state, event);
        }
        db.insert_latest_state(swap_id, crate::database::Swap::Alice(stepped));
        stepped
    };
    let cancelled = match next_state(&expired, &AliceEvent::CancelEnsuredOnChain) {
        Result::Ok(next) => next,
        Result::Err(_) => {
            proof {
                assert(false);
            }
            return Result::Err(CommandError::NotCancellable);
        },
    };
    proof {
        assert(crate::database::can_step(
            crate::database::Swap::Alice(expired),
            crate::database::Swap::Alice(cancelled),
        ));
        lemma_next_state_preserves_wf(expired, AliceEvent::CancelEnsuredOnChain);
    }
    db.insert_latest_state(swap_id, crate::database::Swap::Alice(cancelled));
    Result::Ok(cancelled)
}

/// User-driven recovery after cancellation: read Bob's key share out of the
/// published refund transaction, sweep the shared Monero output, and record
/// `XmrRefunded`.  Refused unless the persisted state is on the refund
/// path; a transaction that is not this swap's signed refund transaction is
/// rejected without a state change.
pub fn refund(
    swap_id: u128,
    db: &mut crate::database::Database,
    refund_tx: &Transaction,
) -> (r: Result<AliceState, CommandError>)
    requires
        old(db).wf(),
    ensures
        final(db).wf(),
        forall|other: u128| other != swap_id ==> final(db).history_of(other) == old(
            db,
        ).history_of(other),
        ({
            let h = old(db).history_of(swap_id);
            if h.len() == 0 {
                r == Result::<AliceState, CommandError>::Err(CommandError::SwapNotFound)
                    && final(db).history_of(swap_id) == h
            } else {
                match h.last() {
                    crate::database::Swap::Bob(_) => r == Result::<
                        AliceState,
                        CommandError,
                    >::Err(CommandError::NotInThisRole) && final(db).history_of(swap_id) == h,
                    crate::database::Swap::Alice(state) => match state {
                        AliceState::XmrRefunded => r == Result::<
                            AliceState,
                            CommandError,
                        >::Ok(AliceState::XmrRefunded) && final(db).history_of(swap_id) == h,
                        AliceState::BtcRefunded { .. } => r == Result::<
                            AliceState,
                            CommandError,
                        >::Ok(AliceState::XmrRefunded) && final(db).history_of(swap_id) == h.push(
                            crate::database::Swap::Alice(AliceState::XmrRefunded),
                        ),
                        AliceState::BtcCancelled {
                            monero_wallet_restore_blockheight,
                            transfer_proof,
                            state3,
                        } => match extract_monero_private_key_spec(state3, *refund_tx) {
                            Result::Ok(spend_key) => r == Result::<
                                AliceState,
                                CommandError,
                            >::Ok(AliceState::XmrRefunded) && final(db).history_of(swap_id)
                                == h.push(
                                crate::database::Swap::Alice(
                                    AliceState::BtcRefunded {
                                        monero_wallet_restore_blockheight,
                                        transfer_proof,
                                        spend_key,
                                        state3,
                                    },
                                ),
                            ).push(crate::database::Swap::Alice(AliceState::XmrRefunded)),
                            Result::Err(_) => r == Result::<
                                AliceState,
                                CommandError,
                            >::Err(CommandError::InvalidRefundTransaction) && final(db).history_of(
                                swap_id,
                            ) == h,
                        },
                        _ => r == Result::<AliceState, CommandError>::Err(
                            CommandError::NotRefundable,
                        ) && final(db).history_of(swap_id) == h,
                    },
                }
            }
        }),
{
    let record = match db.get_state(swap_id) {
        Some(record) => record,
        None => {
            return Result::Err(CommandError::SwapNotFound);
        },
    };
    let state = match record {
        crate::database::Swap::Alice(state) => state,
        crate::database::Swap::Bob(_) => {
            return Result::Err(CommandError::NotInThisRole);
        },
    };
    proof {
        assert(crate::database::record_wf(old(db).history_of(swap_id).last()));
    }
    if matches!(state, AliceState::XmrRefunded) {
        return Result::Ok(state);
    }
    let refunded = if matches!(state, AliceState::BtcRefunded { .. }) {
        state
    } else if matches!(state, AliceState::BtcCancelled { .. }) {
        let stepped = match next_state(&state, &AliceEvent::RefundTxSeen { tx: *refund_tx }) {
            Result::Ok(next) => next,
            Result::Err(_) => {
                return Result::Err(CommandError::InvalidRefundTransaction);
            },
        };
        proof {
            assert(crate::database::can_step(
                crate::database::Swap::Alice(state),
                crate::database::Swap::Alice(stepped),
            ));
            lemma_next_state_preserves_wf(state, AliceEvent::RefundTxSeen { tx: *refund_tx });
        }
        db.insert_latest_state(swap_id, crate::database::Swap::Alice(stepped));
        stepped
    } else {
        return Result::Err(CommandError::NotRefundable);
    };
    let done = match next_state(&refunded, &AliceEvent::XmrSwept) {
        Result::Ok(next) => next,
        Result::Err(_) => {
            proof {
                assert(false);
            }
            return Result::Err(CommandError::NotRefundable);
        },
    };
    proof {
        assert(crate::database::can_step(
            crate::database::Swap::Alice(refunded),
            crate::database::Swap::Alice(done),
        ));
        lemma_next_state_preserves_wf(refunded, AliceEvent::XmrSwept);
    }
    db.insert_latest_state(swap_id, crate::database::Swap::Alice(done));
    Result::Ok(done)
}

/// TxPunish is demanded only by `BtcPunishable`: no other state's pending
/// action publishes it.
pub proof fn lemma_punish_only_from_punishable(state: AliceState)
    ensures
        pending_action_spec(state) == AliceAction::PublishPunish <==> state matches
            AliceState::BtcPunishable { .. },
{
}

/// `BtcPunishable` is entered only from `BtcCancelled` — TxCancel on chain —
/// and only on the event that reports the punish timelock expired after
/// TxCancel's confirmation.
pub proof fn lemma_punishable_needs_cancel_and_t2(state: AliceState, event: AliceEvent)
    requires
        next_state_spec(state, event) is Ok,
        next_state_spec(state, event)->Ok_0 matches AliceState::BtcPunishable { .. },
        !(state matches AliceState::BtcPunishable { .. }),
    ensures
        state matches AliceState::BtcCancelled { .. },
        event == AliceEvent::PunishTimelockReached,
{
}

} // verus!
