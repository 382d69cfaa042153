use vstd::prelude::*;

use crate::error::WagerError;
use crate::instructions::cancel_game::{cancel_error, cancel_refunds, CancelGame, Refunds};
use crate::instructions::create_game::{create_error, CreateGame};
use crate::instructions::join_game::{join_error, joined_game, JoinGame};
use crate::instructions::resolve_game::{resolve_error, ResolveGame};
use crate::instructions::update_resolver::{update_resolver_error, UpdateResolver};
use crate::pubkey::Pubkey;
use crate::state::{payouts_fit, pot_of, winner_share, Game, GameState};

verus! {

/// A creation is accepted only with a positive stake, a winner share of 1 to
/// 9999 basis points and a deadline strictly after the current time; each
/// violated term is refused with its own error, checked in that order.
pub proof fn lemma_creation_terms(
    ctx: CreateGame,
    mint: Pubkey,
    wager: u64,
    payout_bps: u16,
    expiry_ts: i64,
)
    ensures
        create_error(ctx, mint, wager, payout_bps, expiry_ts) is None ==> {
            &&& 0 < wager
            &&& 1 <= payout_bps <= 9999
            &&& expiry_ts > ctx.now
        },
        wager == 0 ==> create_error(ctx, mint, wager, payout_bps, expiry_ts) == Some(
            WagerError::InvalidWagerAmount,
        ),
        wager > 0 && !(1 <= payout_bps <= 9999) ==> create_error(
            ctx,
            mint,
            wager,
            payout_bps,
            expiry_ts,
        ) == Some(WagerError::InvalidPayoutBps),
        wager > 0 && 1 <= payout_bps <= 9999 && expiry_ts <= ctx.now ==> create_error(
            ctx,
            mint,
            wager,
            payout_bps,
            expiry_ts,
        ) == Some(WagerError::InvalidExpiryTime),
{
}

/// Once a record is Paid or Canceled, every operation on it is refused (and so
/// leaves it unchanged): joining and resolving with a state error, canceling
/// with a state error whenever the caller may cancel at all.
pub proof fn lemma_terminal_states_are_final(
    g: Game,
    join: JoinGame,
    resolve: ResolveGame,
    winner: Pubkey,
    cancel: CancelGame,
    update: UpdateResolver,
    new_resolver: Pubkey,
)
    requires
        g.state == GameState::Paid || g.state == GameState::Canceled,
    ensures
        join_error(g, join) == Some(WagerError::GameNotOpen),
        resolve_error(g, resolve, winner) == Some(WagerError::GameNotReady),
        cancel_error(g, cancel) is Some,
        (cancel.authority@ == g.creator@ || cancel.authority@ == g.resolver@)
            && cancel.creator_account@ == g.creator@ ==> cancel_error(g, cancel) == Some(
            WagerError::InvalidStateTransition,
        ),
        update_resolver_error(g, update, new_resolver) is Some,
        WagerError::GameNotOpen.is_state_gating(),
        WagerError::GameNotReady.is_state_gating(),
        WagerError::InvalidStateTransition.is_state_gating(),
{
}

/// For a well-formed record the two payout amounts always sum to the pot, the
/// winner's being the rounded-down share; the split fails only when the pot
/// times the share does not fit in 64 bits.
pub proof fn lemma_payout_conservation(wager: u64, payout_bps: u16)
    requires
        1 <= payout_bps <= 9999,
    ensures
        payouts_fit(wager, payout_bps) <==> pot_of(wager) * payout_bps <= u64::MAX,
        winner_share(wager, payout_bps) == (wager * 2 * payout_bps) / 10000,
        wager > 0 ==> pot_of(wager) - winner_share(wager, payout_bps) >= 1,
        0 <= winner_share(wager, payout_bps) <= pot_of(wager),
{
    let pot = pot_of(wager);
    assert(pot <= pot * payout_bps) by (nonlinear_arith)
        requires
            pot >= 0,
            payout_bps >= 1,
    ;
    assert((pot * payout_bps) / 10000 <= pot) by (nonlinear_arith)
        requires
            pot >= 0,
            payout_bps <= 9999,
    ;
    assert(pot >= 1 ==> (pot * payout_bps) / 10000 < pot) by (nonlinear_arith)
        requires
            pot >= 0,
            payout_bps <= 9999,
    ;
    assert((pot * payout_bps) / 10000 >= 0) by (nonlinear_arith)
        requires
            pot >= 0,
            payout_bps >= 1,
    ;
}

/// Joining one's own record always fails; while the record is open and before
/// its deadline it fails with CannotJoinOwnGame.
pub proof fn lemma_no_self_play(g: Game, ctx: JoinGame)
    requires
        ctx.player2@ == g.player1@,
    ensures
        join_error(g, ctx) is Some,
        g.can_join_spec() && ctx.now < g.expiry_ts ==> join_error(g, ctx) == Some(
            WagerError::CannotJoinOwnGame,
        ),
{
}

/// A join that passes every other check succeeds exactly when the current
/// time is before the deadline.
pub proof fn lemma_join_before_expiry(g: Game, ctx: JoinGame)
    requires
        g.can_join_spec(),
        ctx.player2@ != g.player1@,
        !g.is_native_sol_spec() ==> {
            &&& ctx.player2_token_account matches Some(a) && a.mint@ == g.mint@
            &&& ctx.vault matches Some(v) && v.mint@ == g.mint@
        },
    ensures
        join_error(g, ctx) is None <==> ctx.now < g.expiry_ts,
{
}

/// A refund of a joined record that passes every other check succeeds exactly
/// when the current time is at or after the deadline.
pub proof fn lemma_refund_after_expiry(g: Game, ctx: CancelGame)
    requires
        g.state == GameState::Ready,
        ctx.authority@ == g.creator@ || ctx.authority@ == g.resolver@,
        ctx.creator_account@ == g.creator@,
        g.is_native_sol_spec() ==> (ctx.player2_account matches Some(k) ==> k@ == g.player2@),
        !g.is_native_sol_spec() ==> {
            &&& ctx.creator_token_account is Some
            &&& ctx.vault is Some
            &&& !g.player2.is_unset_spec() ==> (ctx.player2_token_account matches Some(a)
                && a.owner@ == g.player2@)
        },
    ensures
        cancel_error(g, ctx) is None <==> ctx.now >= g.expiry_ts,
{
}

/// A resolution succeeds only when the caller is the record's current
/// resolver and the declared winner is one of the two players.
pub proof fn lemma_resolver_exclusive(g: Game, ctx: ResolveGame, winner: Pubkey)
    ensures
        resolve_error(g, ctx, winner) is None ==> {
            &&& ctx.resolver@ == g.resolver@
            &&& winner@ == g.player1@ || winner@ == g.player2@
        },
{
}

/// The creator can reassign the resolver only while the record is Open; from
/// any other state the attempt fails with CannotUpdateResolverAfterDeposits.
pub proof fn lemma_resolver_fixed_after_open(g: Game, ctx: UpdateResolver, new_resolver: Pubkey)
    requires
        ctx.creator@ == g.creator@,
    ensures
        update_resolver_error(g, ctx, new_resolver) is None ==> g.state == GameState::Open,
        g.state != GameState::Open ==> update_resolver_error(g, ctx, new_resolver) == Some(
            WagerError::CannotUpdateResolverAfterDeposits,
        ),
{
}

/// Only the current resolver decides: after the creator hands the role from
/// one identity to another while the record is Open, and a second player
/// joins, a resolution that passes every other check succeeds exactly when the
/// caller is the new resolver, and the former resolver is refused with
/// UnauthorizedResolver.
pub proof fn lemma_current_resolver_decides(
    g: Game,
    update: UpdateResolver,
    new_resolver: Pubkey,
    join: JoinGame,
    resolve: ResolveGame,
    winner: Pubkey,
)
    requires
        g.wf(),
        update_resolver_error(g, update, new_resolver) is None,
        join_error(Game { resolver: new_resolver, ..g }, join) is None,
        winner@ == g.player1@ || winner@ == join.player2@,
        resolve.winner_account@ == winner@,
        resolve.dev_wallet_account@ == g.dev_wallet@,
        payouts_fit(g.wager, g.payout_bps),
        !g.is_native_sol_spec() ==> {
            &&& resolve.winner_token_account matches Some(a) && a.mint@ == g.mint@
            &&& resolve.dev_token_account matches Some(d) && d.mint@ == g.mint@
            &&& resolve.vault is Some
        },
    ensures
        ({
            let ready = joined_game(Game { resolver: new_resolver, ..g }, join);
            &&& resolve_error(ready, resolve, winner) is None <==> resolve.resolver@
                == new_resolver@
            &&& resolve.resolver@ == g.resolver@ && g.resolver@ != new_resolver@ ==> resolve_error(
                ready,
                resolve,
                winner,
            ) == Some(WagerError::UnauthorizedResolver)
        }),
{
}

/// Canceling a joined record after its deadline refunds both stakes: the
/// creator's always, and the second player's whenever a destination for it is
/// supplied (a token wager always has one, or the cancellation is refused).
pub proof fn lemma_refunds_cover_both_stakes(g: Game, ctx: CancelGame)
    requires
        g.wf(),
        g.state == GameState::Ready,
        cancel_error(g, ctx) is None,
        g.is_native_sol_spec() ==> ctx.player2_account is Some,
    ensures
        cancel_refunds(g, ctx) == (Refunds { creator: g.wager, player2: g.wager }),
{
}

} // verus!
