pub mod create_session;
pub mod filter_sessions;
pub mod join_session;
pub mod remove_player_from_session;
