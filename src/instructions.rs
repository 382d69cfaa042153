pub mod cancel_game;
pub mod create_game;
pub mod join_game;
pub mod resolve_game;
pub mod update_resolver;
