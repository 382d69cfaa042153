use vstd::prelude::*;

use crate::error::WagerError;
use crate::pubkey::Pubkey;

verus! {

/// Lifecycle of a wager record.
#[derive(Clone, Copy, Debug, PartialEq, Eq, Structural)]
pub enum GameState {
    /// Waiting for a second player.
    Open,
    /// Both stakes are in custody; awaiting resolution.
    Ready,
    /// The winner and the fee recipient have been paid.
    Paid,
    /// Refunded (or never funded) after the deadline.
    Canceled,
    /// Representable, but no operation ever moves a record here.
    Expired,
}

/// One two-party wager, addressed by its creator and a creator-chosen nonce.
#[derive(Clone, Copy, Debug)]
pub struct Game {
    pub creator: Pubkey,
    pub player1: Pubkey,
    /// The sentinel identity until someone joins.
    pub player2: Pubkey,
    pub resolver: Pubkey,
    /// Receives the fee share of the pot.
    pub dev_wallet: Pubkey,
    /// The sentinel identity for the native currency, else the token kind.
    pub mint: Pubkey,
    /// Stake of each participant, in the asset's smallest unit.
    pub wager: u64,
    /// Winner's share of the pot in basis points.
    pub payout_bps: u16,
    pub state: GameState,
    pub expiry_ts: i64,
    pub nonce: u64,
    pub bump: u8,
    pub vault_bump: u8,
}

/// Basis points in a whole.
pub const BPS_DENOMINATOR: u64 = 10_000;

/// The pot: both stakes together.
pub open spec fn pot_of(wager: u64) -> int {
    2 * wager
}

/// The winner's part of the pot, rounded down.
pub open spec fn winner_share(wager: u64, payout_bps: u16) -> int {
    (pot_of(wager) * payout_bps) / (BPS_DENOMINATOR as int)
}

/// Whether the split of the pot can be computed in 64-bit arithmetic.
pub open spec fn payouts_fit(wager: u64, payout_bps: u16) -> bool {
    &&& pot_of(wager) <= u64::MAX
    &&& pot_of(wager) * payout_bps <= u64::MAX
    &&& winner_share(wager, payout_bps) <= pot_of(wager)
}

impl Game {
    /// Stored size of a record: an eight-byte tag and the fields.
    pub const LEN: usize = 8 + 32 + 32 + 32 + 32 + 32 + 32 + 8 + 2 + 1 + 8 + 8 + 1 + 1;

    /// What holds of every record for its whole lifetime.
    pub open spec fn wf(&self) -> bool {
        &&& self.wager > 0
        &&& 1 <= self.payout_bps <= 9999
        &&& self.player1@ == self.creator@
        &&& !self.dev_wallet.is_unset_spec()
        &&& self.state == GameState::Open ==> self.player2.is_unset_spec()
        &&& (self.state == GameState::Ready || self.state == GameState::Paid) ==> {
            &&& !self.player2.is_unset_spec()
            &&& self.player2@ != self.player1@
        }
    }

    pub open spec fn is_native_sol_spec(&self) -> bool {
        self.mint.is_unset_spec()
    }

    pub open spec fn is_expired_spec(&self, now: i64) -> bool {
        now >= self.expiry_ts
    }

    pub open spec fn can_join_spec(&self) -> bool {
        self.state == GameState::Open && self.player2.is_unset_spec()
    }

    /// Whether the wager is in the native currency rather than a token.
    pub fn is_native_sol(&self) -> (r: bool)
        ensures
            r == self.is_native_sol_spec(),
    {
        self.mint.is_unset()
    }

    /// Splits the pot into the winner's amount and the fee; the two always sum
    /// to the pot exactly.
    pub fn calculate_payouts(&self) -> (r: Result<(u64, u64), WagerError>)
        ensures
            r is Ok <==> payouts_fit(self.wager, self.payout_bps),
            r is Err ==> r == Err::<(u64, u64), WagerError>(WagerError::MathOverflow),
            r matches Ok((w, f)) ==> {
                &&& w == winner_share(self.wager, self.payout_bps)
                &&& w + f == pot_of(self.wager)
            },
    {
        let pot = match self.wager.checked_mul(2) {
            Some(p) => p,
            None => return Err(WagerError::MathOverflow),
        };
        let scaled = match pot.checked_mul(self.payout_bps as u64) {
            Some(s) => s,
            None => return Err(WagerError::MathOverflow),
        };
        let winner_amount = scaled / BPS_DENOMINATOR;
        let fee_amount = match pot.checked_sub(winner_amount) {
            Some(f) => f,
            None => return Err(WagerError::MathOverflow),
        };
        Ok((winner_amount, fee_amount))
    }

    /// Whether the deadline has passed at time `now`.
    pub fn is_expired(&self, now: i64) -> (r: bool)
        ensures
            r == self.is_expired_spec(now),
    {
        now >= self.expiry_ts
    }

    /// Whether an un-joined record may be canceled at time `now`.
    pub fn can_cancel(&self, now: i64) -> (r: bool)
        ensures
            r == (self.state == GameState::Open && self.is_expired_spec(now)),
    {
        self.state == GameState::Open && self.is_expired(now)
    }

    /// Whether a second player may still join.
    pub fn can_join(&self) -> (r: bool)
        ensures
            r == self.can_join_spec(),
    {
        self.state == GameState::Open && self.player2.is_unset()
    }

    /// Whether the record awaits resolution.
    pub fn can_resolve(&self) -> (r: bool)
        ensures
            r == (self.state == GameState::Ready),
    {
        self.state == GameState::Ready
    }
}

/// What the handlers read of a token account: its token kind and its owner.
#[derive(Clone, Copy, Debug)]
pub struct TokenHolding {
    pub mint: Pubkey,
    pub owner: Pubkey,
}

/// Published when a record is created.
#[derive(Clone, Copy, Debug)]
pub struct GameCreated {
    pub game: Pubkey,
    pub creator: Pubkey,
    pub mint: Pubkey,
    pub wager: u64,
    pub payout_bps: u16,
    pub expiry_ts: i64,
}

/// Published when a second player joins.
#[derive(Clone, Copy, Debug)]
pub struct GameJoined {
    pub game: Pubkey,
    pub player1: Pubkey,
    pub player2: Pubkey,
}

/// Published when the pot is paid out.
#[derive(Clone, Copy, Debug)]
pub struct GameResolved {
    pub game: Pubkey,
    pub winner: Pubkey,
    pub winner_amount: u64,
    pub fee_amount: u64,
}

/// Published when a record is canceled, with a readable reason.
#[derive(Clone, Debug)]
pub struct GameCanceled {
    pub game: Pubkey,
    pub reason: String,
}

} // verus!
