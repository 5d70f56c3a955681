pub mod ident;
pub mod players;
pub mod session;
