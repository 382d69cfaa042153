pub mod error;
pub mod instructions;
pub mod lamports;
pub mod laws;
pub mod pubkey;
pub mod state;

pub use error::WagerError;
pub use pubkey::Pubkey;
pub use state::{Game, GameCanceled, GameCreated, GameJoined, GameResolved, GameState, TokenHolding};
