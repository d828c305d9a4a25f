use vstd::prelude::*;
use vstd::utf8::encode_utf8;

use crate::address::Address;

verus! {

/// Longest title of a journal, in bytes of its UTF-8 encoding.
pub const MAX_TITLE_LEN: usize = 30;

/// Longest content of an entry, in bytes of its UTF-8 encoding.
pub const MAX_CONTENT_LEN: usize = 280;

/// Bound of a journal's entry counter: ids run from 0 below it, and a
/// journal whose counter has reached it takes no further entry.
pub const MAX_ENTRY_COUNT: u8 = 255;

/// A journal: its owner, its title, and the id that its next entry gets.
#[derive(Clone, Debug)]
pub struct Journal {
    pub owner: Address,
    pub title: String,
    pub entry_count: u8,
}

/// One entry of a journal, stored in an account of its own.
#[derive(Clone, Debug)]
pub struct JournalEntry {
    pub journal: Address,
    pub id: u8,
    pub timestamp: i64,
    pub content: String,
}

/// What is stored at an address.
#[derive(Clone, Debug)]
pub enum Account {
    Journal(Journal),
    Entry(JournalEntry),
}

/// Why an operation was refused; a refused operation changes nothing.
#[derive(Clone, Copy, Debug, PartialEq, Eq, Structural)]
pub enum JournalError {
    TitleTooLong,
    ContentTooLong,
    Unauthorized,
    AlreadyExists,
    NotFound,
    AddressMismatch,
    EntryLimitReached,
}

pub struct JournalView {
    pub owner: Address,
    pub title: Seq<char>,
    pub entry_count: u8,
}

pub struct EntryView {
    pub journal: Address,
    pub id: u8,
    pub timestamp: i64,
    pub content: Seq<char>,
}

pub enum AccountView {
    Journal(JournalView),
    Entry(EntryView),
}

impl View for Journal {
    type V = JournalView;

    open spec fn view(&self) -> JournalView {
        JournalView { owner: self.owner, title: self.title@, entry_count: self.entry_count }
    }
}

impl View for JournalEntry {
    type V = EntryView;

    open spec fn view(&self) -> EntryView {
        EntryView {
            journal: self.journal,
            id: self.id,
            timestamp: self.timestamp,
            content: self.content@,
        }
    }
}

impl View for Account {
    type V = AccountView;

    open spec fn view(&self) -> AccountView {
        match self {
            Account::Journal(j) => AccountView::Journal(j@),
            Account::Entry(e) => AccountView::Entry(e@),
        }
    }
}

/// A title fits in a journal.
pub open spec fn title_fits(title: Seq<char>) -> bool {
    encode_utf8(title).len() <= MAX_TITLE_LEN
}

/// A content fits in an entry.
pub open spec fn content_fits(content: Seq<char>) -> bool {
    encode_utf8(content).len() <= MAX_CONTENT_LEN
}

/// Whether `title` fits in a journal.
pub fn title_is_valid(title: &str) -> (r: bool)
    ensures
        r == title_fits(title@),
{
    title.as_bytes().len() <= MAX_TITLE_LEN
}

/// Whether `content` fits in an entry.
pub fn content_is_valid(content: &str) -> (r: bool)
    ensures
        r == content_fits(content@),
{
    content.as_bytes().len() <= MAX_CONTENT_LEN
}

} // verus!
