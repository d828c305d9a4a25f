//! A journal store in which every entry lives in an account of its own.
//!
//! A journal's address is derived from its owner and title, an entry's
//! address from its journal's address and its sequential id, so that no
//! index is needed to find either.

pub mod address;
pub mod records;
pub mod ledger;
pub mod instructions;
pub mod laws;

pub use address::{entry_address, journal_address, Address};
pub use instructions::{
    create_journal, create_journal_entry, delete_journal, delete_journal_entry,
    update_journal_entry, CreateEntry, CreateJournal, DeleteEntry, DeleteJournal, UpdateEntry,
};
pub use ledger::Ledger;
pub use records::{
    content_is_valid, title_is_valid, Account, Journal, JournalEntry, JournalError,
    MAX_CONTENT_LEN, MAX_ENTRY_COUNT, MAX_TITLE_LEN,
};
