use vstd::prelude::*;

verus! {

/// Every way an operation on a wager can be refused. An error aborts the whole
/// operation: the record is left as it was and no value moves.
#[derive(Clone, Copy, Debug, PartialEq, Eq, Structural)]
pub enum WagerError {
    GameNotOpen,
    GameNotReady,
    GameAlreadyResolved,
    GameNotExpired,
    InvalidPayoutBps,
    InvalidWagerAmount,
    InvalidExpiryTime,
    UnauthorizedResolver,
    UnauthorizedCreator,
    InvalidWinner,
    GameFull,
    CannotJoinOwnGame,
    TokenMintMismatch,
    InsufficientWager,
    InvalidDevWallet,
    CannotUpdateResolverAfterDeposits,
    MathOverflow,
    InvalidTokenAccount,
    InvalidStateTransition,
}

impl WagerError {
    /// Errors that refuse an operation because of the record's lifecycle state
    /// (or its deadline), as opposed to its inputs or the caller.
    pub open spec fn is_state_gating(self) -> bool {
        match self {
            WagerError::GameNotOpen
            | WagerError::GameNotReady
            | WagerError::GameAlreadyResolved
            | WagerError::GameNotExpired
            | WagerError::GameFull
            | WagerError::InvalidStateTransition => true,
            _ => false,
        }
    }
}

} // verus!
