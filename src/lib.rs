//! A password-gated vault of account credentials: the encrypted vault format,
//! the in-memory account store, and the interactive session that edits it.

pub mod account;
pub mod cipher;
pub mod gate;
pub mod input;
pub mod lines;
pub mod pages;
pub mod serialisation;
pub mod session;
pub mod store;
