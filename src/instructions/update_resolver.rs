use vstd::prelude::*;

use crate::error::WagerError;
use crate::pubkey::Pubkey;
use crate::state::{Game, GameState};

verus! {

/// What reassigning the resolver reads from its surroundings.
#[derive(Clone, Copy, Debug)]
pub struct UpdateResolver {
    /// The signer, who must be the record's creator.
    pub creator: Pubkey,
}

/// The first check that refuses a reassignment, if any.
pub open spec fn update_resolver_error(g: Game, ctx: UpdateResolver, new_resolver: Pubkey) -> Option<
    WagerError,
> {
    if ctx.creator@ != g.creator@ {
        Some(WagerError::UnauthorizedCreator)
    } else if g.state != GameState::Open {
        Some(WagerError::CannotUpdateResolverAfterDeposits)
    } else if new_resolver.is_unset_spec() {
        Some(WagerError::UnauthorizedResolver)
    } else {
        None
    }
}

/// Lets the creator name another resolver while the record is still Open.
pub fn handler(game: &mut Game, ctx: &UpdateResolver, new_resolver: Pubkey) -> (r: Result<
    (),
    WagerError,
>)
    ensures
        match update_resolver_error(*old(game), *ctx, new_resolver) {
            Some(e) => r == Err::<(), WagerError>(e) && *final(game) == *old(game),
            None => r is Ok && *final(game) == (Game { resolver: new_resolver, ..*old(game) }),
        },
        old(game).wf() ==> final(game).wf(),
{
    if ctx.creator != game.creator {
        return Err(WagerError::UnauthorizedCreator);
    }
    if game.state != GameState::Open {
        return Err(WagerError::CannotUpdateResolverAfterDeposits);
    }
    if new_resolver.is_unset() {
        return Err(WagerError::UnauthorizedResolver);
    }
    game.resolver = new_resolver;
    Ok(())
}

} // verus!
