use vstd::prelude::*;

use crate::error::WagerError;
use crate::pubkey::Pubkey;
use crate::state::{
    payouts_fit, pot_of, winner_share, Game, GameResolved, GameState, TokenHolding,
};

verus! {

/// What resolving a record reads from its surroundings.
#[derive(Clone, Copy, Debug)]
pub struct ResolveGame {
    /// The signer, who must be the record's resolver.
    pub resolver: Pubkey,
    /// Address of the record.
    pub game: Pubkey,
    /// The winner's token account, for token wagers.
    pub winner_token_account: Option<TokenHolding>,
    /// The fee recipient's token account, for token wagers.
    pub dev_token_account: Option<TokenHolding>,
    /// The record's token custody holding, for token wagers.
    pub vault: Option<TokenHolding>,
    /// The account that receives the winner's share.
    pub winner_account: Pubkey,
    /// The account that receives the fee.
    pub dev_wallet_account: Pubkey,
}

/// The first check that refuses a resolution, if any.
pub open spec fn resolve_error(g: Game, ctx: ResolveGame, winner: Pubkey) -> Option<WagerError> {
    if g.state != GameState::Ready {
        Some(WagerError::GameNotReady)
    } else if ctx.resolver@ != g.resolver@ {
        Some(WagerError::UnauthorizedResolver)
    } else if !(winner@ == g.player1@ || winner@ == g.player2@) {
        Some(WagerError::InvalidWinner)
    } else if ctx.winner_account@ != winner@ {
        Some(WagerError::InvalidWinner)
    } else if ctx.dev_wallet_account@ != g.dev_wallet@ {
        Some(WagerError::InvalidDevWallet)
    } else if !payouts_fit(g.wager, g.payout_bps) {
        Some(WagerError::MathOverflow)
    } else if g.is_native_sol_spec() {
        None
    } else if ctx.winner_token_account is None || ctx.dev_token_account is None
        || ctx.vault is None {
        Some(WagerError::InvalidTokenAccount)
    } else if ctx.winner_token_account.unwrap().mint@ != g.mint@
        || ctx.dev_token_account.unwrap().mint@ != g.mint@ {
        Some(WagerError::TokenMintMismatch)
    } else {
        None
    }
}

/// Pays out the pot of a Ready record to the declared winner and the fee
/// recipient. On success the returned event carries the two amounts, which the
/// caller moves out of custody in that order; the record becomes Paid.
pub fn handler(game: &mut Game, ctx: &ResolveGame, winner: Pubkey) -> (r: Result<
    GameResolved,
    WagerError,
>)
    ensures
        match resolve_error(*old(game), *ctx, winner) {
            Some(e) => r == Err::<GameResolved, WagerError>(e) && *final(game) == *old(game),
            None => {
                &&& *final(game) == (Game { state: GameState::Paid, ..*old(game) })
                &&& r matches Ok(ev) && ev.game == ctx.game && ev.winner == winner
                    && ev.winner_amount == winner_share(old(game).wager, old(game).payout_bps)
                    && ev.winner_amount + ev.fee_amount == pot_of(old(game).wager)
            },
        },
        old(game).wf() ==> final(game).wf(),
{
    if !game.can_resolve() {
        return Err(WagerError::GameNotReady);
    }
    if ctx.resolver != game.resolver {
        return Err(WagerError::UnauthorizedResolver);
    }
    if !(winner == game.player1 || winner == game.player2) {
        return Err(WagerError::InvalidWinner);
    }
    if ctx.winner_account != winner {
        return Err(WagerError::InvalidWinner);
    }
    if ctx.dev_wallet_account != game.dev_wallet {
        return Err(WagerError::InvalidDevWallet);
    }
    let (winner_amount, fee_amount) = match game.calculate_payouts() {
        Ok(split) => split,
        Err(e) => return Err(e),
    };
    if !game.is_native_sol() {
        let (winner_token_account, dev_token_account) = match (
            ctx.winner_token_account,
            ctx.dev_token_account,
            ctx.vault,
        ) {
            (Some(w), Some(d), Some(_)) => (w, d),
            _ => return Err(WagerError::InvalidTokenAccount),
        };
        if winner_token_account.mint != game.mint {
            return Err(WagerError::TokenMintMismatch);
        }
        if dev_token_account.mint != game.mint {
            return Err(WagerError::TokenMintMismatch);
        }
    }
    game.state = GameState::Paid;
    Ok(GameResolved { game: ctx.game, winner, winner_amount, fee_amount })
}

} // verus!
