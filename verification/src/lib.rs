//! Core of an atomic BTC/XMR swap: the role state machines, their driver
//! loop, the durable checkpointer, and the setup-phase material (amounts,
//! keys, transaction construction) they act on.
use vstd::prelude::*;
use vstd::string::StrSliceExecFns;
use vstd::string::StringExecFns;

pub mod alice;
pub mod bob;
pub mod config;
pub mod crypto;
pub mod database;
pub mod transactions;

verus! {

/// Number of satoshis in one bitcoin.
pub const ONE_BTC: u64 = 100_000_000;

/// XMR/BTC swap amounts, in the chains' smallest units.
#[derive(Clone, Copy, Debug, PartialEq, Eq, Structural)]
pub struct SwapAmounts {
    /// Amount of BTC to swap, in satoshis.
    pub btc: u64,
    /// Amount of XMR to swap, in piconeros.
    pub xmr: u64,
}

/// Commands sent from Bob to the main task.
#[derive(Clone, Copy, Debug, PartialEq, Eq, Structural)]
pub enum Cmd {
    VerifyAmounts(SwapAmounts),
}

/// Responses sent from the main task back to Bob.
#[derive(Clone, Copy, Debug, PartialEq, Eq, Structural)]
pub enum Rsp {
    Verified,
    Abort,
}

/// The decimal digit characters, for rendering amounts.
pub open spec fn digit_char(d: nat) -> char {
    "0123456789"@[d as int]
}

/// The decimal rendering of a number, most significant digit first.
pub open spec fn dec_spec(n: nat) -> Seq<char>
    decreases n,
{
    if n < 10 {
        seq![digit_char(n)]
    } else {
        dec_spec(n / 10).push(digit_char(n % 10))
    }
}

/// Render a number in decimal.
pub fn u64_to_dec(n: u64) -> (r: String)
    ensures
        r@ == dec_spec(n as nat),
    decreases n,
{
    proof {
        reveal_strlit("0123456789");
    }
    let digits = "0123456789";
    if n < 10 {
        let r = digits.substring_char(n as usize, n as usize + 1).to_owned();
        proof {
            assert(r@ =~= seq![digit_char(n as nat)]);
        }
        r
    } else {
        let mut r = u64_to_dec(n / 10);
        let d = (n % 10) as usize;
        r.append(digits.substring_char(d, d + 1));
        proof {
            assert(r@ =~= dec_spec((n / 10) as nat).push(digit_char((n % 10) as nat)));
        }
        r
    }
}

impl SwapAmounts {
    /// The amounts as display text: the line the swap log carries.
    pub open spec fn display_spec(self) -> Seq<char> {
        dec_spec(self.btc as nat) + " sats for "@ + dec_spec(self.xmr as nat) + " piconeros"@
    }

    /// Render the amounts for display: `"<btc> sats for <xmr> piconeros"`.
    pub fn to_display_string(&self) -> (r: String)
        ensures
            r@ == self.display_spec(),
    {
        let mut r = u64_to_dec(self.btc);
        r.append(" sats for ");
        let xmr = u64_to_dec(self.xmr);
        r.append(xmr.as_str());
        r.append(" piconeros");
        r
    }
}

/// Answer a `VerifyAmounts` command: the swap may proceed only when the
/// proposed amounts equal the agreed ones exactly.
pub fn verify_amounts(cmd: Cmd, agreed: SwapAmounts) -> (r: Rsp)
    ensures
        r == (match cmd {
            Cmd::VerifyAmounts(proposed) => if proposed == agreed {
                Rsp::Verified
            } else {
                Rsp::Abort
            },
        }),
{
    match cmd {
        Cmd::VerifyAmounts(proposed) => {
            if proposed.btc == agreed.btc && proposed.xmr == agreed.xmr {
                Rsp::Verified
            } else {
                Rsp::Abort
            }
        }
    }
}

} // verus!
