//! The five Bitcoin transactions of the swap, as deterministic functions of
//! the setup-phase state.
//!
//! Every builder is a pure function of `State3`: two independent drivers
//! given the same setup state construct identical transactions.  The redeem
//! and refund transactions carry the adaptor-signature construction that
//! makes publishing them reveal a Monero key share to the counterparty.
use crate::crypto::{
    decrypt, decrypt_spec, enc_verify, enc_verify_spec, point_of, point_of_spec, recover,
    recover_spec, EncryptedSignature, Point, Scalar, Signature,
};
use vstd::prelude::*;

verus! {

/// Miner fee paid by each pre-signed transaction, in satoshis.
pub const TX_FEE: u64 = 15_000;

/// Which of the swap's transactions a `Transaction` value is.
#[derive(Clone, Copy, Debug, PartialEq, Eq, Structural)]
pub enum TxKind {
    Lock,
    Redeem,
    Cancel,
    Refund,
    Punish,
}

/// A swap transaction: its kind, the lock transaction it descends from, the
/// amount its output carries, and its witness signature once signed.
#[derive(Clone, Copy, Debug, PartialEq, Eq, Structural)]
pub struct Transaction {
    pub kind: TxKind,
    pub lock_id: u64,
    pub amount: u64,
    pub witness: Option<Signature>,
}

/// Alice's view of the setup-phase state, frozen for the life of the swap:
/// amounts, timelocks, her secrets, and Bob's public material.
#[derive(Clone, Copy, Debug, PartialEq, Eq, Structural)]
pub struct State3 {
    /// BTC under swap, in satoshis: the amount locked by TxLock.
    pub btc: u64,
    /// XMR under swap, in piconeros.
    pub xmr: u64,
    /// Blocks after TxLock confirmation until TxCancel may be published (T1).
    pub cancel_timelock: u32,
    /// Blocks after TxCancel confirmation until TxPunish may be published (T2).
    pub punish_timelock: u32,
    /// Identifier of TxLock, Bob's 2-of-2 funding transaction.
    pub tx_lock_id: u64,
    /// Alice's Bitcoin signing secret.
    pub a: Scalar,
    /// Bob's Bitcoin public key.
    pub bob_public: Point,
    /// Alice's Monero spend-key share, expressed as a Bitcoin-curve scalar
    /// through the dleq construction of the setup phase.
    pub s_a: Scalar,
    /// The public point of Bob's Monero spend-key share on the Bitcoin curve.
    pub bob_share_public: Point,
    /// Alice's encrypted signature on TxRefund, built for the adaptor point
    /// `bob_share_public`: Bob completes it with his share to refund, and
    /// the completion reveals that share to Alice.
    pub tx_refund_encsig: EncryptedSignature,
}

impl State3 {
    /// Well-formed setup state: positive amounts and ordered, positive
    /// timelocks (T1 strictly before T2), as the protocol requires.
    pub open spec fn wf(self) -> bool {
        &&& self.btc > 2 * TX_FEE
        &&& self.xmr > 0
        &&& 0 < self.cancel_timelock
        &&& self.cancel_timelock < self.punish_timelock
    }

    /// Runtime check of [`State3::wf`], for callers outside the library.
    pub fn check_wf(&self) -> (r: bool)
        ensures
            r == self.wf(),
    {
        self.btc > 2 * TX_FEE && self.xmr > 0 && 0 < self.cancel_timelock
            && self.cancel_timelock < self.punish_timelock
    }
}

/// The digest a transaction's witness signs: determined by the transaction's
/// kind, ancestry and amount alone.
pub open spec fn tx_digest_spec(kind: TxKind, lock_id: u64, amount: u64) -> u64 {
    crate::crypto::scalar_add(
        crate::crypto::scalar_add(lock_id, amount),
        match kind {
            TxKind::Lock => 1,
            TxKind::Redeem => 2,
            TxKind::Cancel => 3,
            TxKind::Refund => 4,
            TxKind::Punish => 5,
        },
    )
}

pub fn tx_digest(kind: TxKind, lock_id: u64, amount: u64) -> (r: u64)
    ensures
        r == tx_digest_spec(kind, lock_id, amount),
{
    let tag: u64 = match kind {
        TxKind::Lock => 1,
        TxKind::Redeem => 2,
        TxKind::Cancel => 3,
        TxKind::Refund => 4,
        TxKind::Punish => 5,
    };
    lock_id.wrapping_add(amount).wrapping_add(tag)
}

/// TxLock: Bob's 2-of-2 output funding the swap.
pub open spec fn tx_lock_spec(state3: State3) -> Transaction {
    Transaction { kind: TxKind::Lock, lock_id: state3.tx_lock_id, amount: state3.btc, witness: Option::None }
}

pub fn tx_lock(state3: &State3) -> (r: Transaction)
    ensures
        r == tx_lock_spec(*state3),
{
    Transaction { kind: TxKind::Lock, lock_id: state3.tx_lock_id, amount: state3.btc, witness: Option::None }
}

/// TxRedeem unsigned: spends TxLock to Alice, for the locked amount less fee.
pub open spec fn tx_redeem_spec(state3: State3) -> Transaction {
    Transaction {
        kind: TxKind::Redeem,
        lock_id: state3.tx_lock_id,
        amount: (state3.btc - TX_FEE) as u64,
        witness: Option::None,
    }
}

pub fn tx_redeem(state3: &State3) -> (r: Transaction)
    requires
        state3.wf(),
    ensures
        r == tx_redeem_spec(*state3),
{
    Transaction {
        kind: TxKind::Redeem,
        lock_id: state3.tx_lock_id,
        amount: state3.btc - TX_FEE,
        witness: Option::None,
    }
}

/// TxCancel: spends TxLock to the 2-of-2 cancel output after T1.
pub open spec fn tx_cancel_spec(state3: State3) -> Transaction {
    Transaction {
        kind: TxKind::Cancel,
        lock_id: state3.tx_lock_id,
        amount: (state3.btc - TX_FEE) as u64,
        witness: Option::None,
    }
}

pub fn tx_cancel(state3: &State3) -> (r: Transaction)
    requires
        state3.wf(),
    ensures
        r == tx_cancel_spec(*state3),
{
    Transaction {
        kind: TxKind::Cancel,
        lock_id: state3.tx_lock_id,
        amount: state3.btc - TX_FEE,
        witness: Option::None,
    }
}

/// TxRefund unsigned: spends TxCancel back to Bob.
pub open spec fn tx_refund_spec(state3: State3) -> Transaction {
    Transaction {
        kind: TxKind::Refund,
        lock_id: state3.tx_lock_id,
        amount: (state3.btc - 2 * TX_FEE) as u64,
        witness: Option::None,
    }
}

pub fn tx_refund(state3: &State3) -> (r: Transaction)
    requires
        state3.wf(),
    ensures
        r == tx_refund_spec(*state3),
{
    Transaction {
        kind: TxKind::Refund,
        lock_id: state3.tx_lock_id,
        amount: state3.btc - 2 * TX_FEE,
        witness: Option::None,
    }
}

/// TxPunish: spends TxCancel to Alice after T2.
pub open spec fn tx_punish_spec(state3: State3) -> Transaction {
    Transaction {
        kind: TxKind::Punish,
        lock_id: state3.tx_lock_id,
        amount: (state3.btc - 2 * TX_FEE) as u64,
        witness: Option::None,
    }
}

pub fn tx_punish(state3: &State3) -> (r: Transaction)
    requires
        state3.wf(),
    ensures
        r == tx_punish_spec(*state3),
{
    Transaction {
        kind: TxKind::Punish,
        lock_id: state3.tx_lock_id,
        amount: state3.btc - 2 * TX_FEE,
        witness: Option::None,
    }
}

/// The digest Bob's encrypted signature on TxRedeem must cover.
pub open spec fn redeem_digest_spec(state3: State3) -> u64 {
    tx_digest_spec(TxKind::Redeem, state3.tx_lock_id, tx_redeem_spec(state3).amount)
}

/// Whether `encsig` is Bob's valid encrypted signature on TxRedeem: signed
/// under his key, built for the adaptor point of Alice's Monero share.
pub open spec fn redeem_encsig_valid_spec(state3: State3, encsig: EncryptedSignature) -> bool {
    enc_verify_spec(state3.bob_public, point_of_spec(state3.s_a), redeem_digest_spec(state3), encsig)
}

/// Check Bob's encrypted signature on TxRedeem.
pub fn redeem_encsig_valid(state3: &State3, encsig: EncryptedSignature) -> (r: bool)
    requires
        state3.wf(),
    ensures
        r == redeem_encsig_valid_spec(*state3, encsig),
{
    let digest = tx_digest(TxKind::Redeem, state3.tx_lock_id, state3.btc - TX_FEE);
    enc_verify(state3.bob_public, point_of(state3.s_a), digest, encsig)
}

/// The construction of TxRedeem failed: the received encrypted signature
/// does not verify, so no valid witness can be assembled from it.
#[derive(Clone, Copy, Debug, PartialEq, Eq, Structural)]
pub struct InvalidEncryptedSignature {}

pub open spec fn signed_redeem_transaction_spec(state3: State3, encsig: EncryptedSignature) -> Result<
    Transaction,
    InvalidEncryptedSignature,
> {
    if redeem_encsig_valid_spec(state3, encsig) {
        Result::Ok(
            Transaction {
                witness: Option::Some(decrypt_spec(encsig, state3.s_a)),
                ..tx_redeem_spec(state3)
            },
        )
    } else {
        Result::Err(InvalidEncryptedSignature {})
    }
}

/// Build the signed TxRedeem from Bob's encrypted signature: verify it, then
/// complete it with `s_a`.  Publishing the result necessarily reveals `s_a`
/// to Bob, who holds the encrypted signature ([`lemma_redeem_reveals_share`]).
pub fn signed_redeem_transaction(state3: &State3, encsig: EncryptedSignature) -> (r: Result<
    Transaction,
    InvalidEncryptedSignature,
>)
    requires
        state3.wf(),
    ensures
        r == signed_redeem_transaction_spec(*state3, encsig),
{
    let digest = tx_digest(TxKind::Redeem, state3.tx_lock_id, state3.btc - TX_FEE);
    if enc_verify(state3.bob_public, point_of(state3.s_a), digest, encsig) {
        let unsigned = tx_redeem(state3);
        Result::Ok(
            Transaction {
                kind: unsigned.kind,
                lock_id: unsigned.lock_id,
                amount: unsigned.amount,
                witness: Option::Some(decrypt(encsig, state3.s_a)),
            },
        )
    } else {
        Result::Err(InvalidEncryptedSignature {})
    }
}

/// Why no Monero key share could be read out of a transaction's witness.
#[derive(Clone, Copy, Debug, PartialEq, Eq, Structural)]
pub enum ExtractError {
    /// The transaction is not this swap's refund transaction.
    NotTheRefundTransaction,
    /// The transaction carries no witness.
    Unsigned,
    /// The witness was not derived from Alice's refund encrypted signature.
    ForeignSignature,
}

pub open spec fn extract_monero_private_key_spec(state3: State3, tx: Transaction) -> Result<
    Scalar,
    ExtractError,
> {
    if tx.kind != TxKind::Refund || tx.lock_id != state3.tx_lock_id {
        Result::Err(ExtractError::NotTheRefundTransaction)
    } else {
        match tx.witness {
            Option::None => Result::Err(ExtractError::Unsigned),
            Option::Some(sig) => match recover_spec(state3.tx_refund_encsig, sig) {
                Option::Some(share) => Result::Ok(share),
                Option::None => Result::Err(ExtractError::ForeignSignature),
            },
        }
    }
}

/// Read Bob's Monero key share out of a published refund transaction: its
/// witness is the completion of Alice's refund encrypted signature, so
/// recovery yields the share Bob completed it with.
pub fn extract_monero_private_key(state3: &State3, tx: &Transaction) -> (r: Result<
    Scalar,
    ExtractError,
>)
    ensures
        r == extract_monero_private_key_spec(*state3, *tx),
{
    if !(matches!(tx.kind, TxKind::Refund) && tx.lock_id == state3.tx_lock_id) {
        Result::Err(ExtractError::NotTheRefundTransaction)
    } else {
        match tx.witness {
            Option::None => Result::Err(ExtractError::Unsigned),
            Option::Some(sig) => match recover(state3.tx_refund_encsig, sig) {
                Option::Some(share) => Result::Ok(share),
                Option::None => Result::Err(ExtractError::ForeignSignature),
            },
        }
    }
}

/// If TxRedeem is published, Bob derives Alice's Monero share from its
/// witness: the signed redeem transaction's witness, recovered against the
/// encrypted signature Bob produced, is exactly `s_a`.
pub proof fn lemma_redeem_reveals_share(state3: State3, encsig: EncryptedSignature)
    requires
        redeem_encsig_valid_spec(state3, encsig),
    ensures
        ({
            let tx = signed_redeem_transaction_spec(state3, encsig)->Ok_0;
            recover_spec(encsig, tx.witness->Some_0) == Option::Some(state3.s_a)
        }),
{
    crate::crypto::lemma_recover_decrypt(encsig, state3.s_a);
}

/// If TxRefund is published, Alice derives Bob's Monero share from its
/// witness: a refund transaction whose witness is the completion of Alice's
/// refund encrypted signature with Bob's share yields exactly that share.
pub proof fn lemma_refund_reveals_share(state3: State3, bob_share: Scalar)
    ensures
        ({
            let tx = Transaction {
                witness: Option::Some(decrypt_spec(state3.tx_refund_encsig, bob_share)),
                ..tx_refund_spec(state3)
            };
            extract_monero_private_key_spec(state3, tx) == Result::<Scalar, ExtractError>::Ok(bob_share)
        }),
{
    crate::crypto::lemma_recover_decrypt(state3.tx_refund_encsig, bob_share);
}

} // verus!
