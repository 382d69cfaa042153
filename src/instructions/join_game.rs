use vstd::prelude::*;

use crate::error::WagerError;
use crate::pubkey::Pubkey;
use crate::state::{Game, GameJoined, GameState, TokenHolding};

verus! {

/// What joining a record reads from its surroundings.
#[derive(Clone, Copy, Debug)]
pub struct JoinGame {
    /// The signer who joins and deposits the matching stake.
    pub player2: Pubkey,
    /// Address of the record.
    pub game: Pubkey,
    /// The joiner's token account, for token wagers.
    pub player2_token_account: Option<TokenHolding>,
    /// The record's token custody holding, for token wagers.
    pub vault: Option<TokenHolding>,
    /// Current time from the trusted clock.
    pub now: i64,
}

/// The first check that refuses a join, if any.
pub open spec fn join_error(g: Game, ctx: JoinGame) -> Option<WagerError> {
    if !g.can_join_spec() {
        Some(WagerError::GameNotOpen)
    } else if g.is_expired_spec(ctx.now) {
        Some(WagerError::GameNotExpired)
    } else if ctx.player2@ == g.player1@ {
        Some(WagerError::CannotJoinOwnGame)
    } else if g.is_native_sol_spec() {
        None
    } else if ctx.player2_token_account is None || ctx.vault is None {
        Some(WagerError::InvalidTokenAccount)
    } else if ctx.player2_token_account.unwrap().mint@ != g.mint@ || ctx.vault.unwrap().mint@
        != g.mint@ {
        Some(WagerError::TokenMintMismatch)
    } else {
        None
    }
}

/// The record after a successful join.
pub open spec fn joined_game(g: Game, ctx: JoinGame) -> Game {
    Game { player2: ctx.player2, state: GameState::Ready, ..g }
}

/// Admits a second player. On success the caller moves exactly `wager` units
/// from the joiner into custody (native balance or token holding, as
/// `is_native_sol` says); the record becomes Ready with the joiner as player 2.
/// The joiner is a real identity: the unset sentinel cannot take a seat.
pub fn handler(game: &mut Game, ctx: &JoinGame) -> (r: Result<GameJoined, WagerError>)
    requires
        !ctx.player2.is_unset_spec(),
    ensures
        match join_error(*old(game), *ctx) {
            Some(e) => r == Err::<GameJoined, WagerError>(e) && *final(game) == *old(game),
            None => {
                &&& *final(game) == joined_game(*old(game), *ctx)
                &&& r == Ok::<GameJoined, WagerError>(
                    GameJoined { game: ctx.game, player1: old(game).player1, player2: ctx.player2 },
                )
            },
        },
        old(game).wf() ==> final(game).wf(),
{
    if !game.can_join() {
        return Err(WagerError::GameNotOpen);
    }
    if game.is_expired(ctx.now) {
        return Err(WagerError::GameNotExpired);
    }
    if ctx.player2 == game.player1 {
        return Err(WagerError::CannotJoinOwnGame);
    }
    if !game.is_native_sol() {
        let (player2_token_account, vault) = match (ctx.player2_token_account, ctx.vault) {
            (Some(a), Some(v)) => (a, v),
            _ => return Err(WagerError::InvalidTokenAccount),
        };
        if player2_token_account.mint != game.mint {
            return Err(WagerError::TokenMintMismatch);
        }
        if vault.mint != game.mint {
            return Err(WagerError::TokenMintMismatch);
        }
    }
    game.player2 = ctx.player2;
    game.state = GameState::Ready;
    Ok(GameJoined { game: ctx.game, player1: game.player1, player2: game.player2 })
}

} // verus!
