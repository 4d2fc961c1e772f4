//! A verified model of a minimal on-chain record store.
//!
//! Every owner identity has at most one record, kept at an address that is
//! derived from the owner's key. A record is created once, updated only by
//! its owner and readable by anyone.

pub mod accounts;
pub mod address;
pub mod error;
pub mod laws;
pub mod ledger;
pub mod program;
pub mod pubkey;
pub mod record;

pub use accounts::{GetMessage, Initialize, Signer, System, UpdateMessage};
pub use address::{derivation_matches, find_record_address, program_id, RECORD_SEED};
pub use error::RecordError;
pub use ledger::Ledger;
pub use program::{get_message, initialize, update_message, validate_initialize};
pub use pubkey::Pubkey;
pub use record::{message_fits, HelloWorld, MESSAGE_CAPACITY, RECORD_SPACE};
