//! Request composition and error classification for a command-line client of a
//! remote wallet service that manages spaces anchored in a blockchain.

pub mod dispatch;
pub mod error;
pub mod hexcode;
pub mod name;
pub mod operation;
pub mod request;
pub mod session;
pub mod text;
