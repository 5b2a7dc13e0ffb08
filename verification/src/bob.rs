//! The swap in the role of Bob.  Bob holds BTC and wishes to receive XMR.
//!
//! Bob's machine mirrors Alice's: the environment reaches it only as a
//! [`BobEvent`], and the transition function decides.  Bob reveals his
//! encrypted signature only after the XMR is locked and verified, and
//! recovers through cancel and refund otherwise.
use crate::crypto::enc_sign;
use crate::crypto::enc_sign_spec;
use crate::crypto::point_of_spec;
use crate::crypto::recover;
use crate::crypto::recover_spec;
use crate::crypto::EncryptedSignature;
use crate::crypto::Point;
use crate::crypto::Scalar;
use crate::alice::ExpiredTimelocks;
use crate::alice::SwapError;
use crate::alice::TransferProof;
use crate::transactions::tx_digest;
use crate::transactions::tx_digest_spec;
use crate::transactions::Transaction;
use crate::transactions::TxKind;
use crate::transactions::TX_FEE;
use vstd::prelude::*;

verus! {

/// Bob's view of the setup-phase state, frozen for the life of the swap.
#[derive(Clone, Copy, Debug, PartialEq, Eq, Structural)]
pub struct State3 {
    /// BTC under swap, in satoshis: the amount Bob locks in TxLock.
    pub btc: u64,
    /// XMR under swap, in piconeros: the amount Alice must lock.
    pub xmr: u64,
    /// Blocks after TxLock confirmation until TxCancel may be published (T1).
    pub cancel_timelock: u32,
    /// Blocks after TxCancel confirmation until TxPunish may be published (T2).
    pub punish_timelock: u32,
    /// Identifier of TxLock, Bob's 2-of-2 funding transaction.
    pub tx_lock_id: u64,
    /// Bob's Bitcoin signing secret.
    pub b: Scalar,
    /// Alice's Bitcoin public key.
    pub alice_public: Point,
    /// Bob's Monero spend-key share, expressed as a Bitcoin-curve scalar
    /// through the dleq construction of the setup phase.
    pub s_b: Scalar,
    /// The public point of Alice's Monero spend-key share on the Bitcoin
    /// curve: the adaptor point Bob's redeem encrypted signature is built
    /// for.
    pub alice_share_public: Point,
    /// Alice's encrypted signature on TxRefund, received during setup: Bob
    /// completes it with `s_b` to refund, revealing `s_b` to Alice.
    pub tx_refund_encsig: EncryptedSignature,
}

impl State3 {
    /// Well-formed setup state: positive amounts and ordered, positive
    /// timelocks.
    pub open spec fn wf(self) -> bool {
        &&& self.btc > 2 * TX_FEE
        &&& self.xmr > 0
        &&& 0 < self.cancel_timelock
        &&& self.cancel_timelock < self.punish_timelock
    }

    /// Runtime check of [`State3::wf`], for callers outside the library.
    pub fn check_wf(&self) -> (r: bool)
        ensures
            r == self.wf(),
    {
        self.btc > 2 * TX_FEE && self.xmr > 0 && 0 < self.cancel_timelock
            && self.cancel_timelock < self.punish_timelock
    }
}

/// The digest of this swap's redeem transaction, as Bob computes it.
pub open spec fn redeem_digest_spec(state3: State3) -> u64 {
    tx_digest_spec(TxKind::Redeem, state3.tx_lock_id, (state3.btc - TX_FEE) as u64)
}

/// The encrypted signature Bob hands Alice: his signature on TxRedeem,
/// encrypted under the adaptor point of Alice's Monero share.  Publishing
/// its completion reveals that share to Bob.
pub open spec fn redeem_encsig_spec(state3: State3) -> EncryptedSignature {
    enc_sign_spec(state3.b, state3.alice_share_public, redeem_digest_spec(state3))
}

pub fn redeem_encsig(state3: &State3) -> (r: EncryptedSignature)
    requires
        state3.wf(),
    ensures
        r == redeem_encsig_spec(*state3),
{
    let digest = tx_digest(TxKind::Redeem, state3.tx_lock_id, state3.btc - TX_FEE);
    enc_sign(state3.b, state3.alice_share_public, digest)
}

/// Bob's swap states.  The terminal states are `XmrRedeemed`, `BtcRefunded`,
/// `BtcPunished` and `SafelyAborted`.
#[derive(Clone, Copy, Debug, PartialEq, Eq, Structural)]
#[allow(clippy::large_enum_variant)]
pub enum BobState {
    Started { state3: State3 },
    BtcLocked { state3: State3 },
    XmrLockProofReceived { state3: State3, lock_transfer_proof: TransferProof },
    XmrLocked { state3: State3 },
    EncSigSent { state3: State3 },
    BtcRedeemSeen { state3: State3, spend_key: Scalar },
    CancelTimelockExpired { state3: State3 },
    BtcCancelled { state3: State3 },
    XmrRedeemed { tx_lock_id: u64 },
    BtcRefunded { state3: State3 },
    BtcPunished { tx_lock_id: u64 },
    SafelyAborted,
}

/// One observed outcome of the environment work a state demands of Bob.
#[derive(Clone, Copy, Debug, PartialEq, Eq, Structural)]
pub enum BobEvent {
    /// Setup negotiation completed and TxLock was published.
    BtcLockPublished,
    /// Setup negotiation failed before any funds were locked.
    NegotiationFailed,
    /// Alice's Monero transfer proof arrived over the peer channel.
    TransferProofReceived { proof: TransferProof },
    /// TxLock was seen confirmed with the cancel timelock's depth: T1 has
    /// expired.
    CancelTimelockReached,
    /// The watched Monero lock transfer reached enough confirmations.
    XmrConfirmed,
    /// The encrypted signature was delivered to Alice.
    EncSigDelivered,
    /// TxRedeem was seen on chain; `tx` is the published transaction.
    RedeemTxSeen { tx: Transaction },
    /// The recovery Monero wallet swept the shared output to Bob.
    XmrSwept,
    /// TxCancel is on chain: it was already there, or this driver published
    /// it.
    CancelEnsuredOnChain,
    /// TxRefund was published and accepted.
    RefundTxPublished,
    /// TxCancel was seen confirmed with the punish timelock's depth before
    /// TxRefund went through: Alice can punish.
    PunishTimelockReached,
    /// A required wallet or peer call failed.
    Fault,
}

/// Whether Bob's swap has reached a terminal state.
pub open spec fn is_complete_spec(state: BobState) -> bool {
    matches!(
        state,
        BobState::XmrRedeemed { .. }
            | BobState::BtcRefunded { .. }
            | BobState::BtcPunished { .. }
            | BobState::SafelyAborted,
    )
}

pub fn is_complete(state: &BobState) -> (r: bool)
    ensures
        r == is_complete_spec(*state),
{
    matches!(
        state,
        BobState::XmrRedeemed { .. }
            | BobState::BtcRefunded { .. }
            | BobState::BtcPunished { .. }
            | BobState::SafelyAborted,
    )
}

/// The setup state a swap state carries, if any.
pub open spec fn state3_of(state: BobState) -> Option<State3> {
    match state {
        BobState::Started { state3 } => Some(state3),
        BobState::BtcLocked { state3 } => Some(state3),
        BobState::XmrLockProofReceived { state3, .. } => Some(state3),
        BobState::XmrLocked { state3 } => Some(state3),
        BobState::EncSigSent { state3 } => Some(state3),
        BobState::BtcRedeemSeen { state3, .. } => Some(state3),
        BobState::CancelTimelockExpired { state3 } => Some(state3),
        BobState::BtcCancelled { state3 } => Some(state3),
        BobState::BtcRefunded { state3 } => Some(state3),
        BobState::XmrRedeemed { .. } | BobState::BtcPunished { .. } | BobState::SafelyAborted => None,
    }
}

/// A valid swap state: the setup state it carries, if any, is well-formed.
pub open spec fn state_wf(state: BobState) -> bool {
    match state3_of(state) {
        Some(state3) => state3.wf(),
        None => true,
    }
}

/// Runtime check of [`state_wf`], for callers outside the library.
pub fn check_state_wf(state: &BobState) -> (r: bool)
    ensures
        r == state_wf(*state),
{
    match state {
        BobState::Started { state3 } => state3.check_wf(),
        BobState::BtcLocked { state3 } => state3.check_wf(),
        BobState::XmrLockProofReceived { state3, .. } => state3.check_wf(),
        BobState::XmrLocked { state3 } => state3.check_wf(),
        BobState::EncSigSent { state3 } => state3.check_wf(),
        BobState::BtcRedeemSeen { state3, .. } => state3.check_wf(),
        BobState::CancelTimelockExpired { state3 } => state3.check_wf(),
        BobState::BtcCancelled { state3 } => state3.check_wf(),
        BobState::BtcRefunded { state3 } => state3.check_wf(),
        BobState::XmrRedeemed { .. } | BobState::BtcPunished { .. } | BobState::SafelyAborted => true,
    }
}

/// Bob's transition function: the next state, or the error the driver
/// surfaces, from the current state and one observed event.
///
/// Terminal states absorb every event; `Fault` surfaces as `Transient`; an
/// event that does not answer the state's pending work surfaces as
/// `UnexpectedEvent`.  A transfer proof whose amount differs from the
/// agreed one is refused: Bob never progresses past `XmrLockProofReceived`
/// on it.
pub open spec fn next_state_spec(state: BobState, event: BobEvent) -> Result<BobState, SwapError> {
    if is_complete_spec(state) {
        Result::Ok(state)
    } else if event == BobEvent::Fault {
        Result::Err(SwapError::Transient)
    } else {
        match state {
            BobState::Started { state3 } => match event {
                BobEvent::BtcLockPublished => Result::Ok(BobState::BtcLocked { state3 }),
                BobEvent::NegotiationFailed => Result::Ok(BobState::SafelyAborted),
                _ => Result::Err(SwapError::UnexpectedEvent),
            },
            BobState::BtcLocked { state3 } => match event {
                BobEvent::TransferProofReceived { proof } => Result::Ok(
                    BobState::XmrLockProofReceived { state3, lock_transfer_proof: proof },
                ),
                BobEvent::CancelTimelockReached => Result::Ok(
                    BobState::CancelTimelockExpired { state3 },
                ),
                _ => Result::Err(SwapError::UnexpectedEvent),
            },
            BobState::XmrLockProofReceived { state3, lock_transfer_proof } => match event {
                BobEvent::XmrConfirmed => if lock_transfer_proof.amount == state3.xmr {
                    Result::Ok(BobState::XmrLocked { state3 })
                } else {
                    Result::Err(SwapError::ProtocolViolation)
                },
                BobEvent::CancelTimelockReached => Result::Ok(
                    BobState::CancelTimelockExpired { state3 },
                ),
                _ => Result::Err(SwapError::UnexpectedEvent),
            },
            BobState::XmrLocked { state3 } => match event {
                BobEvent::EncSigDelivered => Result::Ok(BobState::EncSigSent { state3 }),
                BobEvent::CancelTimelockReached => Result::Ok(
                    BobState::CancelTimelockExpired { state3 },
                ),
                _ => Result::Err(SwapError::UnexpectedEvent),
            },
            BobState::EncSigSent { state3 } => match event {
                BobEvent::RedeemTxSeen { tx } => if tx.kind == TxKind::Redeem && tx.lock_id
                    == state3.tx_lock_id {
                    match tx.witness {
                        Some(sig) => match recover_spec(redeem_encsig_spec(state3), sig) {
                            Some(share) => Result::Ok(
                                BobState::BtcRedeemSeen { state3, spend_key: share },
                            ),
                            None => Result::Err(SwapError::ProtocolViolation),
                        },
                        None => Result::Err(SwapError::ProtocolViolation),
                    }
                } else {
                    Result::Err(SwapError::UnexpectedEvent)
                },
                BobEvent::CancelTimelockReached => Result::Ok(
                    BobState::CancelTimelockExpired { state3 },
                ),
                _ => Result::Err(SwapError::UnexpectedEvent),
            },
            BobState::BtcRedeemSeen { state3, .. } => match event {
                BobEvent::XmrSwept => Result::Ok(
                    BobState::XmrRedeemed { tx_lock_id: state3.tx_lock_id },
                ),
                _ => Result::Err(SwapError::UnexpectedEvent),
            },
            BobState::CancelTimelockExpired { state3 } => match event {
                BobEvent::CancelEnsuredOnChain => Result::Ok(BobState::BtcCancelled { state3 }),
                _ => Result::Err(SwapError::UnexpectedEvent),
            },
            BobState::BtcCancelled { state3 } => match event {
                BobEvent::RefundTxPublished => Result::Ok(BobState::BtcRefunded { state3 }),
                BobEvent::PunishTimelockReached => Result::Ok(
                    BobState::BtcPunished { tx_lock_id: state3.tx_lock_id },
                ),
                _ => Result::Err(SwapError::UnexpectedEvent),
            },
            BobState::XmrRedeemed { .. }
            | BobState::BtcRefunded { .. }
            | BobState::BtcPunished { .. }
            | BobState::SafelyAborted => Result::Ok(state),
        }
    }
}

/// Advance Bob's state machine by one observed event.
pub fn next_state(state: &BobState, event: &BobEvent) -> (r: Result<BobState, SwapError>)
    requires
        state_wf(*state),
    ensures
        r == next_state_spec(*state, *event),
{
    let state = *state;
    let event = *event;
    if is_complete(&state) {
        return Result::Ok(state);
    }
    if matches!(event, BobEvent::Fault) {
        return Result::Err(SwapError::Transient);
    }
    match state {
        BobState::Started { state3 } => match event {
            BobEvent::BtcLockPublished => Result::Ok(BobState::BtcLocked { state3 }),
            BobEvent::NegotiationFailed => Result::Ok(BobState::SafelyAborted),
            _ => Result::Err(SwapError::UnexpectedEvent),
        },
        BobState::BtcLocked { state3 } => match event {
            BobEvent::TransferProofReceived { proof } => Result::Ok(
                BobState::XmrLockProofReceived { state3, lock_transfer_proof: proof },
            ),
            BobEvent::CancelTimelockReached => Result::Ok(
                BobState::CancelTimelockExpired { state3 },
            ),
            _ => Result::Err(SwapError::UnexpectedEvent),
        },
        BobState::XmrLockProofReceived { state3, lock_transfer_proof } => match event {
            BobEvent::XmrConfirmed => if lock_transfer_proof.amount == state3.xmr {
                Result::Ok(BobState::XmrLocked { state3 })
            } else {
                Result::Err(SwapError::ProtocolViolation)
            },
            BobEvent::CancelTimelockReached => Result::Ok(
                BobState::CancelTimelockExpired { state3 },
            ),
            _ => Result::Err(SwapError::UnexpectedEvent),
        },
        BobState::XmrLocked { state3 } => match event {
            BobEvent::EncSigDelivered => Result::Ok(BobState::EncSigSent { state3 }),
            BobEvent::CancelTimelockReached => Result::Ok(
                BobState::CancelTimelockExpired { state3 },
            ),
            _ => Result::Err(SwapError::UnexpectedEvent),
        },
        BobState::EncSigSent { state3 } => match event {
            BobEvent::RedeemTxSeen { tx } => if matches!(tx.kind, TxKind::Redeem) && tx.lock_id
                == state3.tx_lock_id {
                match tx.witness {
                    Some(sig) => match recover(redeem_encsig(&state3), sig) {
                        Some(share) => Result::Ok(
                            BobState::BtcRedeemSeen { state3, spend_key: share },
                        ),
                        None => Result::Err(SwapError::ProtocolViolation),
                    },
                    None => Result::Err(SwapError::ProtocolViolation),
                }
            } else {
                Result::Err(SwapError::UnexpectedEvent)
            },
            BobEvent::CancelTimelockReached => Result::Ok(
                BobState::CancelTimelockExpired { state3 },
            ),
            _ => Result::Err(SwapError::UnexpectedEvent),
        },
        BobState::BtcRedeemSeen { state3, .. } => match event {
            BobEvent::XmrSwept => Result::Ok(
                BobState::XmrRedeemed { tx_lock_id: state3.tx_lock_id },
            ),
            _ => Result::Err(SwapError::UnexpectedEvent),
        },
        BobState::CancelTimelockExpired { state3 } => match event {
            BobEvent::CancelEnsuredOnChain => Result::Ok(BobState::BtcCancelled { state3 }),
            _ => Result::Err(SwapError::UnexpectedEvent),
        },
        BobState::BtcCancelled { state3 } => match event {
            BobEvent::RefundTxPublished => Result::Ok(BobState::BtcRefunded { state3 }),
            BobEvent::PunishTimelockReached => Result::Ok(
                BobState::BtcPunished { tx_lock_id: state3.tx_lock_id },
            ),
            _ => Result::Err(SwapError::UnexpectedEvent),
        },
        BobState::XmrRedeemed { .. }
        | BobState::BtcRefunded { .. }
        | BobState::BtcPunished { .. }
        | BobState::SafelyAborted => Result::Ok(state),
    }
}

/// A swap in the role of Bob: its identifier and its current state.
#[derive(Clone, Copy, Debug, PartialEq, Eq, Structural)]
pub struct Swap {
    pub id: u128,
    pub state: BobState,
}

/// The outcome of driving Bob's machine from `state` through `events` until
/// a terminal state, an error, or the end of the events.
pub open spec fn run_spec(state: BobState, events: Seq<BobEvent>) -> Result<
    BobState,
    crate::alice::DriverError,
>
    decreases events.len(),
{
    if is_complete_spec(state) {
        Result::Ok(state)
    } else if events.len() == 0 {
        Result::Err(crate::alice::DriverError::EventsExhausted)
    } else {
        match next_state_spec(state, events[0]) {
            Result::Ok(next) => run_spec(next, events.skip(1)),
            Result::Err(e) => Result::Err(crate::alice::DriverError::Swap(e)),
        }
    }
}

/// The state reached after consuming every event in `events` from `state`,
/// if each one applies successfully and no terminal state cuts the run
/// short.
pub open spec fn mid_state_spec(state: BobState, events: Seq<BobEvent>) -> Option<BobState>
    decreases events.len(),
{
    if events.len() == 0 {
        Some(state)
    } else if is_complete_spec(state) {
        None
    } else {
        match next_state_spec(state, events[0]) {
            Result::Ok(next) => mid_state_spec(next, events.skip(1)),
            Result::Err(_) => None,
        }
    }
}

/// The states the driver persists while consuming `events` from `state`.
pub open spec fn persisted_states_spec(state: BobState, events: Seq<BobEvent>) -> Seq<BobState>
    decreases events.len(),
{
    if events.len() == 0 || is_complete_spec(state) {
        Seq::empty()
    } else {
        match next_state_spec(state, events[0]) {
            Result::Ok(next) => seq![next] + persisted_states_spec(next, events.skip(1)),
            Result::Err(_) => Seq::empty(),
        }
    }
}

proof fn lemma_mid_state_snoc(state: BobState, events: Seq<BobEvent>, event: BobEvent)
    ensures
        mid_state_spec(state, events.push(event)) == (match mid_state_spec(state, events) {
            Some(mid) => if is_complete_spec(mid) {
                Option::<BobState>::None
            } else {
                match next_state_spec(mid, event) {
                    Result::Ok(next) => Some(next),
                    Result::Err(_) => None,
                }
            },
            None => None,
        }),
    decreases events.len(),
{
    reveal_with_fuel(mid_state_spec, 3);
    if events.len() == 0 {
        assert(events.push(event)[0] == event);
        assert(events.push(event).skip(1) =~= Seq::<BobEvent>::empty());
    } else {
        assert(events.push(event)[0] == events[0]);
        assert(events.push(event).skip(1) =~= events.skip(1).push(event));
        if !is_complete_spec(state) {
            match next_state_spec(state, events[0]) {
                Result::Ok(next) => {
                    lemma_mid_state_snoc(next, events.skip(1), event);
                    assert(mid_state_spec(state, events.push(event)) == mid_state_spec(
                        next,
                        events.skip(1).push(event),
                    ));
                    assert(mid_state_spec(state, events) == mid_state_spec(next, events.skip(1)));
                },
                Result::Err(_) => {},
            }
        }
    }
}

proof fn lemma_persisted_states_snoc(state: BobState, events: Seq<BobEvent>, event: BobEvent)
    ensures
        persisted_states_spec(state, events.push(event)) == (match mid_state_spec(state, events) {
            Some(mid) => if is_complete_spec(mid) {
                persisted_states_spec(state, events)
            } else {
                match next_state_spec(mid, event) {
                    Result::Ok(next) => persisted_states_spec(state, events).push(next),
                    Result::Err(_) => persisted_states_spec(state, events),
                }
            },
            None => persisted_states_spec(state, events),
        }),
    decreases events.len(),
{
    reveal_with_fuel(persisted_states_spec, 3);
    reveal_with_fuel(mid_state_spec, 3);
    if events.len() == 0 {
        if !is_complete_spec(state) {
            match next_state_spec(state, event) {
                Result::Ok(next) => {
                    assert(events.push(event)[0] == event);
                    assert(events.push(event).skip(1) =~= Seq::<BobEvent>::empty());
                    assert(persisted_states_spec(state, events.push(event)) =~= persisted_states_spec(
                        state,
                        events,
                    ).push(next));
                },
                Result::Err(_) => {
                    assert(events.push(event)[0] == event);
                },
            }
        }
    } else {
        assert(events.push(event)[0] == events[0]);
        assert(events.push(event).skip(1) =~= events.skip(1).push(event));
        if !is_complete_spec(state) {
            match next_state_spec(state, events[0]) {
                Result::Ok(next) => {
                    lemma_persisted_states_snoc(next, events.skip(1), event);
                    match mid_state_spec(next, events.skip(1)) {
                        Some(mid) => {
                            if !is_complete_spec(mid) {
                                match next_state_spec(mid, event) {
                                    Result::Ok(next2) => {
                                        assert(seq![next] + persisted_states_spec(
                                            next,
                                            events.skip(1),
                                        ).push(next2) =~= (seq![next] + persisted_states_spec(
                                            next,
                                            events.skip(1),
                                        )).push(next2));
                                    },
                                    Result::Err(_) => {},
                                }
                            }
                        },
                        None => {},
                    }
                },
                Result::Err(_) => {},
            }
        }
    }
}

/// Crash-resume equivalence for Bob: resuming from the state persisted
/// after any prefix of the events, over the remaining events, reaches
/// exactly the outcome of the uninterrupted run.
pub proof fn lemma_resume_equals_uninterrupted(
    state: BobState,
    prefix: Seq<BobEvent>,
    rest: Seq<BobEvent>,
)
    requires
        mid_state_spec(state, prefix) is Some,
    ensures
        run_spec(state, prefix + rest) == run_spec(mid_state_spec(state, prefix)->Some_0, rest),
    decreases prefix.len(),
{
    if prefix.len() == 0 {
        assert(prefix + rest =~= rest);
    } else {
        assert(!is_complete_spec(state));
        assert((prefix + rest)[0] == prefix[0]);
        match next_state_spec(state, prefix[0]) {
            Result::Ok(next) => {
                assert((prefix + rest).skip(1) =~= prefix.skip(1) + rest);
                lemma_resume_equals_uninterrupted(next, prefix.skip(1), rest);
            },
            Result::Err(_) => {
                assert(false);
            },
        }
    }
}

/// Run Bob's swap until its state is terminal or `exit_early` asks to
/// stop, consuming events in order and persisting after every transition.
pub fn run_until<F: Fn(&BobState) -> bool>(
    swap: Swap,
    exit_early: F,
    events: &Vec<BobEvent>,
    db: &mut crate::database::Database,
) -> (r: Result<BobState, crate::alice::DriverError>)
    requires
        state_wf(swap.state),
        old(db).wf(),
        old(db).history_of(swap.id).len() == 0 || old(db).history_of(swap.id).last()
            == crate::database::Swap::Bob(swap.state),
        forall|s: &BobState| #[trigger] call_requires(exit_early, (s,)),
    ensures
        final(db).wf(),
        forall|other: u128| other != swap.id ==> final(db).history_of(other) == old(db).history_of(
            other,
        ),
        match r {
            Result::Ok(s) => {
                &&& state_wf(s)
                &&& is_complete_spec(s) || call_ensures(exit_early, (&s,), true)
                &&& exists|k: int|
                    {
                        &&& 0 <= k <= events@.len()
                        &&& #[trigger] mid_state_spec(swap.state, events@.take(k)) == Some(s)
                        &&& final(db).history_of(swap.id) == old(db).history_of(swap.id)
                            + persisted_states_spec(swap.state, events@.take(k)).map_values(
                            |st: BobState| crate::database::Swap::Bob(st),
                        )
                        &&& persisted_states_spec(swap.state, events@.take(k)).len() == k
                        &&& k > 0 ==> persisted_states_spec(swap.state, events@.take(k)).last()
                            == s
                        &&& k == 0 ==> s == swap.state
                    }
            },
            Result::Err(crate::alice::DriverError::EventsExhausted) => {
                &&& mid_state_spec(swap.state, events@) is Some
                &&& !is_complete_spec(mid_state_spec(swap.state, events@)->Some_0)
                &&& final(db).history_of(swap.id) == old(db).history_of(swap.id)
                    + persisted_states_spec(swap.state, events@).map_values(
                    |st: BobState| crate::database::Swap::Bob(st),
                )
            },
            Result::Err(crate::alice::DriverError::Swap(e)) => exists|k: int|
                {
                    &&& 0 <= k < events@.len()
                    &&& #[trigger] mid_state_spec(swap.state, events@.take(k)) is Some
                    &&& !is_complete_spec(mid_state_spec(swap.state, events@.take(k))->Some_0)
                    &&& next_state_spec(
                        mid_state_spec(swap.state, events@.take(k))->Some_0,
                        events@[k],
                    ) == Result::<BobState, SwapError>::Err(e)
                    &&& final(db).history_of(swap.id) == old(db).history_of(swap.id)
                        + persisted_states_spec(swap.state, events@.take(k)).map_values(
                        |st: BobState| crate::database::Swap::Bob(st),
                    )
                },
        },
{
    let ghost init = swap.state;
    let ghost old_hist = old(db).history_of(swap.id);
    let mut current = swap.state;
    let mut i: usize = 0;
    loop
        invariant
            init == swap.state,
            old_hist == old(db).history_of(swap.id),
            i <= events@.len(),
            state_wf(current),
            mid_state_spec(init, events@.take(i as int)) == Some(current),
            persisted_states_spec(init, events@.take(i as int)).len() == i as int,
            i > 0 ==> persisted_states_spec(init, events@.take(i as int)).last() == current,
            i == 0 ==> current == init,
            db.wf(),
            db.history_of(swap.id) == old_hist + persisted_states_spec(
                init,
                events@.take(i as int),
            ).map_values(|st: BobState| crate::database::Swap::Bob(st)),
            forall|other: u128| other != swap.id ==> db.history_of(other) == old(db).history_of(
                other,
            ),
            old_hist.len() == 0 || old_hist.last() == crate::database::Swap::Bob(init),
            forall|s: &BobState| #[trigger] call_requires(exit_early, (s,)),
        decreases events@.len() - i,
    {
        proof {
            assert(0 <= i as int <= events@.len() && mid_state_spec(
                swap.state,
                events@.take(i as int),
            ) == Some(current) && db.history_of(swap.id) == old(db).history_of(swap.id)
                + persisted_states_spec(swap.state, events@.take(i as int)).map_values(
                |st: BobState| crate::database::Swap::Bob(st),
            ));
        }
        if is_complete(&current) {
            return Result::Ok(current);
        }
        if exit_early(&current) {
            return Result::Ok(current);
        }
        if i == events.len() {
            proof {
                assert(events@.take(i as int) =~= events@);
            }
            return Result::Err(crate::alice::DriverError::EventsExhausted);
        }
        let event = events[i];
        proof {
            assert(events@.take(i as int + 1) =~= events@.take(i as int).push(events@[i as int]));
            lemma_mid_state_snoc(init, events@.take(i as int), events@[i as int]);
            lemma_persisted_states_snoc(init, events@.take(i as int), events@[i as int]);
        }
        match next_state(&current, &event) {
            Result::Ok(next) => {
                proof {
                    lemma_next_state_preserves_wf(current, event);
                    assert(crate::database::can_step(
                        crate::database::Swap::Bob(current),
                        crate::database::Swap::Bob(next),
                    ));
                    let p_old = persisted_states_spec(init, events@.take(i as int));
                    let p_new = persisted_states_spec(init, events@.take(i as int + 1));
                    assert(p_new == p_old.push(next));
                    assert(p_new.map_values(|st: BobState| crate::database::Swap::Bob(st))
                        =~= p_old.map_values(|st: BobState| crate::database::Swap::Bob(st)).push(
                        crate::database::Swap::Bob(next),
                    ));
                    if i > 0 {
                        assert(db.history_of(swap.id).last() == crate::database::Swap::Bob(
                            current,
                        ));
                    }
                }
                db.insert_latest_state(swap.id, crate::database::Swap::Bob(next));
                current = next;
                i = i + 1;
            },
            Result::Err(e) => {
                proof {
                    assert(next_state_spec(current, events@[i as int]) == Result::<
                        BobState,
                        SwapError,
                    >::Err(e));
                }
                return Result::Err(crate::alice::DriverError::Swap(e));
            },
        }
    }
}

/// Run Bob's swap to completion over `events`: `run_until` with no early
/// exit.  The result is exactly what [`run_spec`] computes.
pub fn run(swap: Swap, events: &Vec<BobEvent>, db: &mut crate::database::Database) -> (r: Result<
    BobState,
    crate::alice::DriverError,
>)
    requires
        state_wf(swap.state),
        old(db).wf(),
        old(db).history_of(swap.id).len() == 0 || old(db).history_of(swap.id).last()
            == crate::database::Swap::Bob(swap.state),
    ensures
        final(db).wf(),
        forall|other: u128| other != swap.id ==> final(db).history_of(other) == old(db).history_of(
            other,
        ),
        r == run_spec(swap.state, events@),
{
    let never = |s: &BobState| -> (b: bool)
        ensures
            !b,
        { false };
    let ghost init = swap.state;
    let r = run_until(swap, never, events, db);
    proof {
        match r {
            Result::Ok(s) => {
                assert(is_complete_spec(s));
                let k = choose|k: int|
                    {
                        &&& 0 <= k <= events@.len()
                        &&& #[trigger] mid_state_spec(init, events@.take(k)) == Some(s)
                    };
                lemma_resume_equals_uninterrupted(init, events@.take(k), events@.skip(k));
                assert(events@.take(k) + events@.skip(k) =~= events@);
            },
            Result::Err(crate::alice::DriverError::EventsExhausted) => {
                lemma_resume_equals_uninterrupted(init, events@, Seq::<BobEvent>::empty());
                assert(events@ + Seq::<BobEvent>::empty() =~= events@);
            },
            Result::Err(crate::alice::DriverError::Swap(e)) => {
                let k = choose|k: int|
                    {
                        &&& 0 <= k < events@.len()
                        &&& #[trigger] mid_state_spec(init, events@.take(k)) is Some
                        &&& !is_complete_spec(mid_state_spec(init, events@.take(k))->Some_0)
                        &&& next_state_spec(
                            mid_state_spec(init, events@.take(k))->Some_0,
                            events@[k],
                        ) == Result::<BobState, SwapError>::Err(e)
                    };
                lemma_resume_equals_uninterrupted(init, events@.take(k), events@.skip(k));
                assert(events@.take(k) + events@.skip(k) =~= events@);
                assert(events@.skip(k)[0] == events@[k]);
            },
        }
    }
    r
}

/// States from which Bob's user-driven cancel command can take the swap to
/// `BtcCancelled`.
pub open spec fn is_cancellable(state: BobState) -> bool {
    matches!(
        state,
        BobState::BtcLocked { .. }
            | BobState::XmrLockProofReceived { .. }
            | BobState::XmrLocked { .. }
            | BobState::EncSigSent { .. }
            | BobState::CancelTimelockExpired { .. },
    )
}

/// The `BtcCancelled` state carrying a cancellable state's setup payload.
pub open spec fn cancelled_of(state: BobState) -> BobState {
    match state3_of(state) {
        Some(state3) => BobState::BtcCancelled { state3 },
        None => state,
    }
}

/// The `CancelTimelockExpired` state carrying the same payload.
pub open spec fn cancel_expired_of(state: BobState) -> BobState {
    match state3_of(state) {
        Some(state3) => BobState::CancelTimelockExpired { state3 },
        None => state,
    }
}

/// User-driven recovery: take Bob's swap through `CancelTimelockExpired` to
/// `BtcCancelled`, ensuring TxCancel is on chain.  Refused unless the
/// persisted state has a cancel path and the cancel timelock was observed
/// expired; `force` overrides the timelock check.
pub fn cancel(
    swap_id: u128,
    db: &mut crate::database::Database,
    timelock_status: ExpiredTimelocks,
    force: bool,
) -> (r: Result<BobState, crate::alice::CommandError>)
    requires
        old(db).wf(),
    ensures
        final(db).wf(),
        forall|other: u128| other != swap_id ==> final(db).history_of(other) == old(db).history_of(
            other,
        ),
        ({
            let h = old(db).history_of(swap_id);
            if h.len() == 0 {
                r == Result::<BobState, crate::alice::CommandError>::Err(
                    crate::alice::CommandError::SwapNotFound,
                ) && final(db).history_of(swap_id) == h
            } else {
                match h.last() {
                    crate::database::Swap::Alice(_) => r == Result::<
                        BobState,
                        crate::alice::CommandError,
                    >::Err(crate::alice::CommandError::NotInThisRole) && final(db).history_of(
                        swap_id,
                    ) == h,
                    crate::database::Swap::Bob(state) => {
                        if (state matches BobState::BtcCancelled { .. }) {
                            r == Result::<BobState, crate::alice::CommandError>::Ok(state)
                                && final(db).history_of(swap_id) == h
                        } else if !is_cancellable(state) {
                            r == Result::<BobState, crate::alice::CommandError>::Err(
                                crate::alice::CommandError::NotCancellable,
                            ) && final(db).history_of(swap_id) == h
                        } else if !force && timelock_status == ExpiredTimelocks::NotExpired {
                            r == Result::<BobState, crate::alice::CommandError>::Err(
                                crate::alice::CommandError::CancelTimelockNotExpiredYet,
                            ) && final(db).history_of(swap_id) == h
                        } else {
                            r == Result::<BobState, crate::alice::CommandError>::Ok(
                                cancelled_of(state),
                            ) && final(db).history_of(swap_id) == (if (state matches
                            BobState::CancelTimelockExpired { .. }) {
                                h.push(crate::database::Swap::Bob(cancelled_of(state)))
                            } else {
                                h.push(crate::database::Swap::Bob(cancel_expired_of(state))).push(
                                    crate::database::Swap::Bob(cancelled_of(state)),
                                )
                            })
                        }
                    },
                }
            }
        }),
{
    let record = match db.get_state(swap_id) {
        Some(record) => record,
        None => {
            return Result::Err(crate::alice::CommandError::SwapNotFound);
        },
    };
    let state = match record {
        crate::database::Swap::Bob(state) => state,
        crate::database::Swap::Alice(_) => {
            return Result::Err(crate::alice::CommandError::NotInThisRole);
        },
    };
    if matches!(state, BobState::BtcCancelled { .. }) {
        return Result::Ok(state);
    }
    if !matches!(
        state,
        BobState::BtcLocked { .. }
            | BobState::XmrLockProofReceived { .. }
            | BobState::XmrLocked { .. }
            | BobState::EncSigSent { .. }
            | BobState::CancelTimelockExpired { .. },
    ) {
        return Result::Err(crate::alice::CommandError::NotCancellable);
    }
    if !force && matches!(timelock_status, ExpiredTimelocks::NotExpired) {
        return Result::Err(crate::alice::CommandError::CancelTimelockNotExpiredYet);
    }
    proof {
        assert(crate::database::record_wf(old(db).history_of(swap_id).last()));
    }
    let expired = if matches!(state, BobState::CancelTimelockExpired { .. }) {
        state
    } else {
        let stepped = match next_state(&state, &BobEvent::CancelTimelockReached) {
            Result::Ok(next) => next,
            Result::Err(_) => {
                proof {
                    assert(false);
                }
                return Result::Err(crate::alice::CommandError::NotCancellable);
            },
        };
        proof {
            assert(crate::database::can_step(
                crate::database::Swap::Bob(state),
                crate::database::Swap::Bob(stepped),
            ));
            lemma_next_state_preserves_wf(state, BobEvent::CancelTimelockReached);
        }
        db.insert_latest_state(swap_id, crate::database::Swap::Bob(stepped));
        stepped
    };
    let cancelled = match next_state(&expired, &BobEvent::CancelEnsuredOnChain) {
        Result::Ok(next) => next,
        Result::Err(_) => {
            proof {
                assert(false);
            }
            return Result::Err(crate::alice::CommandError::NotCancellable);
        },
    };
    proof {
        assert(crate::database::can_step(
            crate::database::Swap::Bob(expired),
            crate::database::Swap::Bob(cancelled),
        ));
        lemma_next_state_preserves_wf(expired, BobEvent::CancelEnsuredOnChain);
    }
    db.insert_latest_state(swap_id, crate::database::Swap::Bob(cancelled));
    Result::Ok(cancelled)
}

/// User-driven recovery after cancellation: publish TxRefund — completing
/// Alice's refund encrypted signature with `s_b` — and record
/// `BtcRefunded`.  Refused unless the persisted state is on the refund
/// path.
pub fn refund(swap_id: u128, db: &mut crate::database::Database) -> (r: Result<
    BobState,
    crate::alice::CommandError,
>)
    requires
        old(db).wf(),
    ensures
        final(db).wf(),
        forall|other: u128| other != swap_id ==> final(db).history_of(other) == old(db).history_of(
            other,
        ),
        ({
            let h = old(db).history_of(swap_id);
            if h.len() == 0 {
                r == Result::<BobState, crate::alice::CommandError>::Err(
                    crate::alice::CommandError::SwapNotFound,
                ) && final(db).history_of(swap_id) == h
            } else {
                match h.last() {
                    crate::database::Swap::Alice(_) => r == Result::<
                        BobState,
                        crate::alice::CommandError,
                    >::Err(crate::alice::CommandError::NotInThisRole) && final(db).history_of(
                        swap_id,
                    ) == h,
                    crate::database::Swap::Bob(state) => match state {
                        BobState::BtcRefunded { .. } => r == Result::<
                            BobState,
                            crate::alice::CommandError,
                        >::Ok(state) && final(db).history_of(swap_id) == h,
                        BobState::BtcCancelled { state3 } => r == Result::<
                            BobState,
                            crate::alice::CommandError,
                        >::Ok(BobState::BtcRefunded { state3 }) && final(db).history_of(swap_id)
                            == h.push(
                            crate::database::Swap::Bob(BobState::BtcRefunded { state3 }),
                        ),
                        _ => r == Result::<BobState, crate::alice::CommandError>::Err(
                            crate::alice::CommandError::NotRefundable,
                        ) && final(db).history_of(swap_id) == h,
                    },
                }
            }
        }),
{
    let record = match db.get_state(swap_id) {
        Some(record) => record,
        None => {
            return Result::Err(crate::alice::CommandError::SwapNotFound);
        },
    };
    let state = match record {
        crate::database::Swap::Bob(state) => state,
        crate::database::Swap::Alice(_) => {
            return Result::Err(crate::alice::CommandError::NotInThisRole);
        },
    };
    if matches!(state, BobState::BtcRefunded { .. }) {
        return Result::Ok(state);
    }
    if !matches!(state, BobState::BtcCancelled { .. }) {
        return Result::Err(crate::alice::CommandError::NotRefundable);
    }
    proof {
        assert(crate::database::record_wf(old(db).history_of(swap_id).last()));
    }
    let refunded = match next_state(&state, &BobEvent::RefundTxPublished) {
        Result::Ok(next) => next,
        Result::Err(_) => {
            proof {
                assert(false);
            }
            return Result::Err(crate::alice::CommandError::NotRefundable);
        },
    };
    proof {
        assert(crate::database::can_step(
            crate::database::Swap::Bob(state),
            crate::database::Swap::Bob(refunded),
        ));
        lemma_next_state_preserves_wf(state, BobEvent::RefundTxPublished);
    }
    db.insert_latest_state(swap_id, crate::database::Swap::Bob(refunded));
    Result::Ok(refunded)
}

/// The two parties' setup views describe the same swap: same amounts, same
/// timelocks, same lock transaction, and each side's public material is the
/// image of the other side's secrets.
pub open spec fn setup_consistent(alice: crate::transactions::State3, bob: State3) -> bool {
    &&& alice.btc == bob.btc
    &&& alice.xmr == bob.xmr
    &&& alice.cancel_timelock == bob.cancel_timelock
    &&& alice.punish_timelock == bob.punish_timelock
    &&& alice.tx_lock_id == bob.tx_lock_id
    &&& alice.bob_public == point_of_spec(bob.b)
    &&& bob.alice_public == point_of_spec(alice.a)
    &&& bob.alice_share_public == point_of_spec(alice.s_a)
    &&& alice.tx_refund_encsig == bob.tx_refund_encsig
}

/// Under a consistent setup, the encrypted signature Bob sends passes
/// Alice's verification, and the witness of the redeem transaction Alice
/// then publishes gives Bob exactly Alice's Monero key share.
pub proof fn lemma_redeem_hand_over(alice: crate::transactions::State3, bob: State3)
    requires
        setup_consistent(alice, bob),
    ensures
        crate::transactions::redeem_encsig_valid_spec(alice, redeem_encsig_spec(bob)),
        ({
            let tx = crate::transactions::signed_redeem_transaction_spec(
                alice,
                redeem_encsig_spec(bob),
            )->Ok_0;
            recover_spec(redeem_encsig_spec(bob), tx.witness->Some_0) == Some(alice.s_a)
        }),
{
    crate::crypto::lemma_enc_sign_verifies(
        bob.b,
        bob.alice_share_public,
        redeem_digest_spec(bob),
    );
    crate::crypto::lemma_recover_decrypt(redeem_encsig_spec(bob), alice.s_a);
}

/// States on Bob's happy path: those from which the swap can still end in
/// Bob redeeming the locked XMR.
pub open spec fn is_happy_path(state: BobState) -> bool {
    matches!(
        state,
        BobState::Started { .. }
            | BobState::BtcLocked { .. }
            | BobState::XmrLockProofReceived { .. }
            | BobState::XmrLocked { .. }
            | BobState::EncSigSent { .. }
            | BobState::BtcRedeemSeen { .. }
            | BobState::XmrRedeemed { .. },
    )
}

/// States on Bob's recovery paths: abort, cancel, refund and being
/// punished.
pub open spec fn is_recovery_path(state: BobState) -> bool {
    matches!(
        state,
        BobState::CancelTimelockExpired { .. }
            | BobState::BtcCancelled { .. }
            | BobState::BtcRefunded { .. }
            | BobState::BtcPunished { .. }
            | BobState::SafelyAborted,
    )
}

/// Whether an event reports a timelock observed expired on chain.
pub open spec fn observes_timelock_expiry(event: BobEvent) -> bool {
    ||| matches!(event, BobEvent::CancelTimelockReached)
    ||| matches!(event, BobEvent::PunishTimelockReached)
}

/// No happy-path transition happens for Bob after a timelock is observed
/// expired: from any non-terminal state, such an event leads onto a
/// recovery path.
pub proof fn lemma_no_happy_path_after_expiry(state: BobState, event: BobEvent)
    requires
        !is_complete_spec(state),
        observes_timelock_expiry(event),
        next_state_spec(state, event) is Ok,
    ensures
        is_recovery_path(next_state_spec(state, event)->Ok_0),
        !is_happy_path(next_state_spec(state, event)->Ok_0),
{
}

/// Once on a recovery path, Bob's machine stays on it.
pub proof fn lemma_recovery_path_is_closed(state: BobState, event: BobEvent)
    requires
        is_recovery_path(state),
        next_state_spec(state, event) is Ok,
    ensures
        is_recovery_path(next_state_spec(state, event)->Ok_0),
{
}

/// Terminal states are absorbing for Bob as well.
pub proof fn lemma_terminal_absorbing(state: BobState, event: BobEvent)
    requires
        is_complete_spec(state),
    ensures
        next_state_spec(state, event) == Result::<BobState, SwapError>::Ok(state),
{
}

/// Bob's transitions preserve validity of the carried setup state.
pub proof fn lemma_next_state_preserves_wf(state: BobState, event: BobEvent)
    requires
        state_wf(state),
        next_state_spec(state, event) is Ok,
    ensures
        state_wf(next_state_spec(state, event)->Ok_0),
{
}

/// A transfer proof over the wrong amount never advances Bob's machine: in
/// `XmrLockProofReceived`, confirmation of a mismatched transfer is a
/// protocol violation, and only timelock expiry (or a fault) leaves the
/// state.
pub proof fn lemma_bad_transfer_proof_refused(state3: State3, proof: TransferProof, event: BobEvent)
    requires
        proof.amount != state3.xmr,
    ensures
        ({
            let r = next_state_spec(
                BobState::XmrLockProofReceived { state3, lock_transfer_proof: proof },
                event,
            );
            r is Ok ==> r->Ok_0 == (BobState::CancelTimelockExpired { state3 })
        }),
{
}

} // verus!
