pub mod text;
pub mod invite;
pub mod game;
pub mod reply;
pub mod snapshot;
pub mod account;
pub mod vault;
pub mod upgrade;
pub mod signup;
pub mod laws;
