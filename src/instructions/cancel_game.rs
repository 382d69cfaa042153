use vstd::prelude::*;

use crate::error::WagerError;
use crate::pubkey::Pubkey;
use crate::state::{Game, GameCanceled, GameState, TokenHolding};

verus! {

/// What canceling a record reads from its surroundings.
#[derive(Clone, Copy, Debug)]
pub struct CancelGame {
    /// The signer, who must be the record's creator or its resolver.
    pub authority: Pubkey,
    /// Address of the record.
    pub game: Pubkey,
    /// The creator's token account, for token wagers.
    pub creator_token_account: Option<TokenHolding>,
    /// The second player's token account, for token wagers.
    pub player2_token_account: Option<TokenHolding>,
    /// The record's token custody holding, for token wagers.
    pub vault: Option<TokenHolding>,
    /// The account that receives the creator's refund.
    pub creator_account: Pubkey,
    /// The account that receives the second player's refund, if supplied.
    pub player2_account: Option<Pubkey>,
    /// Current time from the trusted clock.
    pub now: i64,
}

/// Amounts to move out of custody on a cancellation, in this order.
#[derive(Clone, Copy, Debug, PartialEq, Eq, Structural)]
pub struct Refunds {
    /// Back to the creator (player 1).
    pub creator: u64,
    /// Back to the second player.
    pub player2: u64,
}

/// The first check that refuses a cancellation, if any.
pub open spec fn cancel_error(g: Game, ctx: CancelGame) -> Option<WagerError> {
    if !(ctx.authority@ == g.creator@ || ctx.authority@ == g.resolver@) {
        Some(WagerError::UnauthorizedCreator)
    } else if ctx.creator_account@ != g.creator@ {
        Some(WagerError::UnauthorizedCreator)
    } else {
        match g.state {
            GameState::Open => {
                if !g.is_expired_spec(ctx.now) {
                    Some(WagerError::GameNotExpired)
                } else if !g.player2.is_unset_spec() {
                    Some(WagerError::GameFull)
                } else {
                    None
                }
            },
            GameState::Ready => {
                if !g.is_expired_spec(ctx.now) {
                    Some(WagerError::GameNotExpired)
                } else if g.is_native_sol_spec() {
                    match ctx.player2_account {
                        Some(k) if k@ != g.player2@ => Some(WagerError::InvalidWinner),
                        _ => None,
                    }
                } else if ctx.creator_token_account is None || ctx.vault is None {
                    Some(WagerError::InvalidTokenAccount)
                } else if !g.player2.is_unset_spec() && (ctx.player2_token_account is None
                    || ctx.player2_token_account.unwrap().owner@ != g.player2@) {
                    Some(WagerError::InvalidTokenAccount)
                } else {
                    None
                }
            },
            _ => Some(WagerError::InvalidStateTransition),
        }
    }
}

/// What a successful cancellation refunds.
pub open spec fn cancel_refunds(g: Game, ctx: CancelGame) -> Refunds {
    if g.state != GameState::Ready {
        Refunds { creator: 0, player2: 0 }
    } else if g.is_native_sol_spec() {
        Refunds { creator: g.wager, player2: if ctx.player2_account is Some { g.wager } else { 0 } }
    } else {
        Refunds { creator: g.wager, player2: if g.player2.is_unset_spec() { 0 } else { g.wager } }
    }
}

/// The reason recorded with a successful cancellation.
pub open spec fn cancel_reason(g: Game) -> Seq<char> {
    if g.state == GameState::Open {
        "Expired without second player"@
    } else {
        "Expired without resolution"@
    }
}

/// Cancels a record after its deadline. An un-joined record closes with no
/// refund; a joined one refunds each stake that is in custody. The record
/// becomes Canceled.
pub fn handler(game: &mut Game, ctx: &CancelGame) -> (r: Result<(Refunds, GameCanceled), WagerError>)
    ensures
        match cancel_error(*old(game), *ctx) {
            Some(e) => r matches Err(x) && x == e && *final(game) == *old(game),
            None => {
                &&& *final(game) == (Game { state: GameState::Canceled, ..*old(game) })
                &&& r matches Ok((refunds, ev)) && refunds == cancel_refunds(*old(game), *ctx)
                    && ev.game == ctx.game && ev.reason@ == cancel_reason(*old(game))
            },
        },
        old(game).wf() ==> final(game).wf(),
{
    if !(ctx.authority == game.creator || ctx.authority == game.resolver) {
        return Err(WagerError::UnauthorizedCreator);
    }
    if ctx.creator_account != game.creator {
        return Err(WagerError::UnauthorizedCreator);
    }
    let reason: String;
    let mut refunds = Refunds { creator: 0, player2: 0 };
    match game.state {
        GameState::Open => {
            if !game.is_expired(ctx.now) {
                return Err(WagerError::GameNotExpired);
            }
            if !game.player2.is_unset() {
                return Err(WagerError::GameFull);
            }
            reason = "Expired without second player".to_owned();
        },
        GameState::Ready => {
            if !game.is_expired(ctx.now) {
                return Err(WagerError::GameNotExpired);
            }
            reason = "Expired without resolution".to_owned();
            refunds.creator = game.wager;
            if game.is_native_sol() {
                if let Some(player2_account) = ctx.player2_account {
                    if player2_account != game.player2 {
                        return Err(WagerError::InvalidWinner);
                    }
                    refunds.player2 = game.wager;
                }
            } else {
                if ctx.creator_token_account.is_none() || ctx.vault.is_none() {
                    return Err(WagerError::InvalidTokenAccount);
                }
                if !game.player2.is_unset() {
                    match ctx.player2_token_account {
                        Some(a) => {
                            if a.owner != game.player2 {
                                return Err(WagerError::InvalidTokenAccount);
                            }
                        },
                        None => return Err(WagerError::InvalidTokenAccount),
                    }
                    refunds.player2 = game.wager;
                }
            }
        },
        _ => {
            return Err(WagerError::InvalidStateTransition);
        },
    }
    game.state = GameState::Canceled;
    Ok((refunds, GameCanceled { game: ctx.game, reason }))
}

} // verus!
