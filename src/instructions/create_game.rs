use vstd::prelude::*;

use crate::error::WagerError;
use crate::pubkey::Pubkey;
use crate::state::{Game, GameCreated, GameState};

verus! {

/// What creating a record reads from its surroundings.
#[derive(Clone, Copy, Debug)]
pub struct CreateGame {
    /// The signer who opens the wager.
    pub creator: Pubkey,
    /// Address of the new record.
    pub game: Pubkey,
    /// Seed bump of the record's address.
    pub game_bump: u8,
    /// Seed bump of the token custody holding, when one was supplied.
    pub vault_bump: Option<u8>,
    /// The token kind account that was supplied, if any.
    pub token_mint: Option<Pubkey>,
    /// Fee recipient.
    pub dev_wallet: Pubkey,
    /// Current time from the trusted clock.
    pub now: i64,
}

/// The first check that refuses a creation, if any.
pub open spec fn create_error(
    ctx: CreateGame,
    mint: Pubkey,
    wager: u64,
    payout_bps: u16,
    expiry_ts: i64,
) -> Option<WagerError> {
    if wager == 0 {
        Some(WagerError::InvalidWagerAmount)
    } else if !(0 < payout_bps < 10000) {
        Some(WagerError::InvalidPayoutBps)
    } else if expiry_ts <= ctx.now {
        Some(WagerError::InvalidExpiryTime)
    } else if ctx.dev_wallet.is_unset_spec() {
        Some(WagerError::InvalidDevWallet)
    } else if !mint.is_unset_spec() && ctx.token_mint is None {
        Some(WagerError::TokenMintMismatch)
    } else if !mint.is_unset_spec() && ctx.vault_bump is None {
        Some(WagerError::InvalidTokenAccount)
    } else if !mint.is_unset_spec() && ctx.token_mint.unwrap()@ != mint@ {
        Some(WagerError::TokenMintMismatch)
    } else {
        None
    }
}

/// The record a successful creation stores.
pub open spec fn created_game(
    g: Game,
    ctx: CreateGame,
    mint: Pubkey,
    wager: u64,
    payout_bps: u16,
    expiry_ts: i64,
    resolver_pubkey: Option<Pubkey>,
    nonce: u64,
) -> bool {
    &&& g.creator == ctx.creator
    &&& g.player1 == ctx.creator
    &&& g.player2.is_unset_spec()
    &&& g.resolver == match resolver_pubkey {
        Some(k) => k,
        None => ctx.creator,
    }
    &&& g.dev_wallet == ctx.dev_wallet
    &&& g.mint == mint
    &&& g.wager == wager
    &&& g.payout_bps == payout_bps
    &&& g.state == GameState::Open
    &&& g.expiry_ts == expiry_ts
    &&& g.nonce == nonce
    &&& g.bump == ctx.game_bump
    &&& g.vault_bump == match ctx.vault_bump {
        Some(b) => b,
        None => 0u8,
    }
}

/// Opens a wager: validates the terms and returns the new record, in the Open
/// state, with the event that announces it. No value moves at creation.
pub fn handler(
    ctx: &CreateGame,
    mint: Pubkey,
    wager: u64,
    payout_bps: u16,
    expiry_ts: i64,
    resolver_pubkey: Option<Pubkey>,
    nonce: u64,
) -> (r: Result<(Game, GameCreated), WagerError>)
    ensures
        match r {
            Ok((g, ev)) => {
                &&& create_error(*ctx, mint, wager, payout_bps, expiry_ts) is None
                &&& created_game(g, *ctx, mint, wager, payout_bps, expiry_ts, resolver_pubkey, nonce)
                &&& ev == (GameCreated {
                    game: ctx.game,
                    creator: ctx.creator,
                    mint,
                    wager,
                    payout_bps,
                    expiry_ts,
                })
            },
            Err(e) => create_error(*ctx, mint, wager, payout_bps, expiry_ts) == Some(e),
        },
        r matches Ok((g, _)) ==> g.wf() && g.expiry_ts > ctx.now,
{
    if wager == 0 {
        return Err(WagerError::InvalidWagerAmount);
    }
    if !(payout_bps > 0 && payout_bps < 10000) {
        return Err(WagerError::InvalidPayoutBps);
    }
    if expiry_ts <= ctx.now {
        return Err(WagerError::InvalidExpiryTime);
    }
    if ctx.dev_wallet.is_unset() {
        return Err(WagerError::InvalidDevWallet);
    }
    let is_native_sol = mint.is_unset();
    if !is_native_sol {
        let token_mint = match ctx.token_mint {
            Some(k) => k,
            None => return Err(WagerError::TokenMintMismatch),
        };
        if ctx.vault_bump.is_none() {
            return Err(WagerError::InvalidTokenAccount);
        }
        if token_mint != mint {
            return Err(WagerError::TokenMintMismatch);
        }
    }
    let vault_bump: u8 = match ctx.vault_bump {
        Some(b) => b,
        None => 0,
    };
    let resolver = match resolver_pubkey {
        Some(k) => k,
        None => ctx.creator,
    };
    let game = Game {
        creator: ctx.creator,
        player1: ctx.creator,
        player2: Pubkey::default(),
        resolver,
        dev_wallet: ctx.dev_wallet,
        mint,
        wager,
        payout_bps,
        state: GameState::Open,
        expiry_ts,
        nonce,
        bump: ctx.game_bump,
        vault_bump,
    };
    let event = GameCreated {
        game: ctx.game,
        creator: game.creator,
        mint: game.mint,
        wager: game.wager,
        payout_bps: game.payout_bps,
        expiry_ts: game.expiry_ts,
    };
    Ok((game, event))
}

} // verus!
