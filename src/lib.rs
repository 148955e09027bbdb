//! An append-only message ledger held in a storage allocation of fixed size.
//!
//! The ledger is initialized once, then grows by appends that bind each
//! message to the verified identity that signed the request. The record's
//! serialized size is tracked on every append, and an append that would
//! overflow the byte budget fails and leaves the ledger unchanged.
pub mod auth;
pub mod entry;
pub mod layout;
pub mod laws;
pub mod ledger;
pub mod program;

pub use auth::{authorize, Signer};
pub use entry::{Identity, ItemStruct};
pub use ledger::{BaseAccount, LedgerError};
pub use program::{add_msg, start_stuff_off, AddMsg, StartStuffOff};
