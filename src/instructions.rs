use vstd::prelude::*;

use crate::address::{
    derives_to, entry_address, entry_seeds, journal_address, journal_seeds, Address,
};
use crate::ledger::{entry_at, journal_at, Ledger, LedgerView};
use crate::records::{
    content_fits, content_is_valid, title_fits, title_is_valid, Account, AccountView, EntryView,
    Journal, JournalEntry, JournalError, JournalView, MAX_ENTRY_COUNT,
};

verus! {

/// Accounts of a journal's creation: the signer, and the address at which
/// the journal is to live.
#[derive(Clone, Copy, Debug)]
pub struct CreateJournal {
    pub owner: Address,
    pub journal: Address,
}

/// Accounts of a journal's deletion.
#[derive(Clone, Copy, Debug)]
pub struct DeleteJournal {
    pub owner: Address,
    pub journal: Address,
}

/// Accounts of an entry's creation: the signer, the journal, and the address
/// at which the new entry is to live.
#[derive(Clone, Copy, Debug)]
pub struct CreateEntry {
    pub owner: Address,
    pub journal: Address,
    pub entry: Address,
}

/// Accounts of an entry's update.
#[derive(Clone, Copy, Debug)]
pub struct UpdateEntry {
    pub owner: Address,
    pub journal: Address,
    pub entry: Address,
}

/// Accounts of an entry's deletion.
#[derive(Clone, Copy, Debug)]
pub struct DeleteEntry {
    pub owner: Address,
    pub journal: Address,
    pub entry: Address,
}

/// The journal at `addr`, checked for a signer `owner`: it exists, `owner`
/// owns it, and `addr` is derived from its owner and title.
pub open spec fn owned_journal(m: LedgerView, owner: Address, addr: Address) -> Result<
    JournalView,
    JournalError,
> {
    match journal_at(m, addr) {
        None => Err(JournalError::NotFound),
        Some(j) => if j.owner != owner {
            Err(JournalError::Unauthorized)
        } else if !derives_to(journal_seeds(owner, j.title), m.program_id, addr) {
            Err(JournalError::AddressMismatch)
        } else {
            Ok(j)
        },
    }
}

/// The entry at `addr`, checked against the journal at `journal`: it exists,
/// `addr` is derived from `journal` and the entry's id, and the entry names
/// `journal` as its journal.
pub open spec fn linked_entry(m: LedgerView, journal: Address, addr: Address) -> Result<
    EntryView,
    JournalError,
> {
    match entry_at(m, addr) {
        None => Err(JournalError::NotFound),
        Some(e) => if !derives_to(entry_seeds(journal, e.id), m.program_id, addr) {
            Err(JournalError::AddressMismatch)
        } else if e.journal != journal {
            Err(JournalError::AddressMismatch)
        } else {
            Ok(e)
        },
    }
}

/// The result of creating a journal: the first check that fails, in the
/// order title length, derived address, free address.
pub open spec fn create_journal_outcome(m: LedgerView, ctx: CreateJournal, title: Seq<char>) -> Result<(), JournalError> {
    if !title_fits(title) {
        Err(JournalError::TitleTooLong)
    } else if !derives_to(journal_seeds(ctx.owner, title), m.program_id, ctx.journal) {
        Err(JournalError::AddressMismatch)
    } else if m.accounts.contains_key(ctx.journal) {
        Err(JournalError::AlreadyExists)
    } else {
        Ok(())
    }
}

/// The ledger after a journal's creation.
pub open spec fn create_journal_effect(m: LedgerView, ctx: CreateJournal, title: Seq<char>) -> LedgerView {
    LedgerView {
        program_id: m.program_id,
        accounts: m.accounts.insert(
            ctx.journal,
            AccountView::Journal(JournalView { owner: ctx.owner, title, entry_count: 0 }),
        ),
    }
}

/// The result of deleting a journal.
pub open spec fn delete_journal_outcome(m: LedgerView, ctx: DeleteJournal) -> Result<(), JournalError> {
    match owned_journal(m, ctx.owner, ctx.journal) {
        Err(e) => Err(e),
        Ok(_) => Ok(()),
    }
}

/// The ledger after a journal's deletion: its entries are not touched.
pub open spec fn delete_journal_effect(m: LedgerView, ctx: DeleteJournal) -> LedgerView {
    LedgerView { program_id: m.program_id, accounts: m.accounts.remove(ctx.journal) }
}

/// The result of creating an entry: the journal's checks, then content
/// length, the counter's bound, the derived address and a free address.
pub open spec fn create_entry_outcome(m: LedgerView, ctx: CreateEntry, content: Seq<char>) -> Result<(), JournalError> {
    match owned_journal(m, ctx.owner, ctx.journal) {
        Err(e) => Err(e),
        Ok(j) => if !content_fits(content) {
            Err(JournalError::ContentTooLong)
        } else if j.entry_count >= MAX_ENTRY_COUNT {
            Err(JournalError::EntryLimitReached)
        } else if !derives_to(entry_seeds(ctx.journal, j.entry_count), m.program_id, ctx.entry) {
            Err(JournalError::AddressMismatch)
        } else if m.accounts.contains_key(ctx.entry) {
            Err(JournalError::AlreadyExists)
        } else {
            Ok(())
        },
    }
}

/// The journal advances its counter, and the new entry takes the old value
/// as its id.
pub open spec fn create_entry_effect(m: LedgerView, ctx: CreateEntry, content: Seq<char>, now: i64) -> LedgerView {
    let j = journal_at(m, ctx.journal).unwrap();
    LedgerView {
        program_id: m.program_id,
        accounts: m.accounts.insert(
            ctx.journal,
            AccountView::Journal(JournalView { entry_count: (j.entry_count + 1) as u8, ..j }),
        ).insert(
            ctx.entry,
            AccountView::Entry(
                EntryView { journal: ctx.journal, id: j.entry_count, timestamp: now, content },
            ),
        ),
    }
}

/// The result of updating an entry: the journal's checks, the entry's
/// checks, then content length.
pub open spec fn update_entry_outcome(m: LedgerView, ctx: UpdateEntry, content: Seq<char>) -> Result<(), JournalError> {
    match owned_journal(m, ctx.owner, ctx.journal) {
        Err(e) => Err(e),
        Ok(_) => match linked_entry(m, ctx.journal, ctx.entry) {
            Err(e) => Err(e),
            Ok(_) => if !content_fits(content) {
                Err(JournalError::ContentTooLong)
            } else {
                Ok(())
            },
        },
    }
}

/// Content and timestamp are replaced; id and journal stay.
pub open spec fn update_entry_effect(m: LedgerView, ctx: UpdateEntry, content: Seq<char>, now: i64) -> LedgerView {
    let e = entry_at(m, ctx.entry).unwrap();
    LedgerView {
        program_id: m.program_id,
        accounts: m.accounts.insert(
            ctx.entry,
            AccountView::Entry(EntryView { timestamp: now, content, ..e }),
        ),
    }
}

/// The result of deleting an entry.
pub open spec fn delete_entry_outcome(m: LedgerView, ctx: DeleteEntry) -> Result<(), JournalError> {
    match owned_journal(m, ctx.owner, ctx.journal) {
        Err(e) => Err(e),
        Ok(_) => match linked_entry(m, ctx.journal, ctx.entry) {
            Err(e) => Err(e),
            Ok(_) => Ok(()),
        },
    }
}

/// The ledger after an entry's deletion: the journal's counter stays.
pub open spec fn delete_entry_effect(m: LedgerView, ctx: DeleteEntry) -> LedgerView {
    LedgerView { program_id: m.program_id, accounts: m.accounts.remove(ctx.entry) }
}

proof fn lemma_same_bytes(a: Address, b: Address)
    requires
        a.bytes@ == b.bytes@,
    ensures
        a == b,
{
    assert(a.bytes =~= b.bytes);
}

/// Whether `program` derives exactly `addr` from the given journal seeds.
fn journal_derives(program: &Address, owner: &Address, title: &str, addr: &Address) -> (r: bool)
    ensures
        r == derives_to(journal_seeds(*owner, title@), *program, *addr),
{
    match journal_address(program, owner, title) {
        Some(a) => {
            proof {
                if a.bytes@ == addr.bytes@ {
                    lemma_same_bytes(a, *addr);
                }
            }
            a.same(addr)
        },
        None => false,
    }
}

/// Whether `program` derives exactly `addr` from the given entry seeds.
fn entry_derives(program: &Address, journal: &Address, id: u8, addr: &Address) -> (r: bool)
    ensures
        r == derives_to(entry_seeds(*journal, id), *program, *addr),
{
    match entry_address(program, journal, id) {
        Some(a) => {
            proof {
                if a.bytes@ == addr.bytes@ {
                    lemma_same_bytes(a, *addr);
                }
            }
            a.same(addr)
        },
        None => false,
    }
}

fn check_owned_journal<'a>(ledger: &'a Ledger, owner: &Address, addr: &Address) -> (r: Result<&'a Journal, JournalError>)
    requires
        ledger.wf(),
    ensures
        match r {
            Ok(j) => owned_journal(ledger@, *owner, *addr) == Ok::<JournalView, JournalError>(j@),
            Err(e) => owned_journal(ledger@, *owner, *addr) == Err::<JournalView, JournalError>(e),
        },
{
    let j = match ledger.journal(addr) {
        Some(j) => j,
        None => return Err(JournalError::NotFound),
    };
    if !j.owner.same(owner) {
        return Err(JournalError::Unauthorized);
    }
    if !journal_derives(&ledger.program_id(), owner, j.title.as_str(), addr) {
        return Err(JournalError::AddressMismatch);
    }
    Ok(j)
}

fn check_linked_entry<'a>(ledger: &'a Ledger, journal: &Address, addr: &Address) -> (r: Result<&'a JournalEntry, JournalError>)
    requires
        ledger.wf(),
    ensures
        match r {
            Ok(e) => linked_entry(ledger@, *journal, *addr) == Ok::<EntryView, JournalError>(e@),
            Err(err) => linked_entry(ledger@, *journal, *addr) == Err::<EntryView, JournalError>(err),
        },
{
    let e = match ledger.entry(addr) {
        Some(e) => e,
        None => return Err(JournalError::NotFound),
    };
    if !entry_derives(&ledger.program_id(), journal, e.id, addr) {
        return Err(JournalError::AddressMismatch);
    }
    if !e.journal.same(journal) {
        return Err(JournalError::AddressMismatch);
    }
    Ok(e)
}

/// Creates the journal that `ctx.owner` keeps under `title`, with no entry
/// yet, at `ctx.journal`, which must be derived from owner and title.
pub fn create_journal(ledger: &mut Ledger, ctx: &CreateJournal, title: String) -> (r: Result<(), JournalError>)
    requires
        old(ledger).wf(),
    ensures
        final(ledger).wf(),
        r == create_journal_outcome(old(ledger)@, *ctx, title@),
        final(ledger)@ == (if r is Ok {
            create_journal_effect(old(ledger)@, *ctx, title@)
        } else {
            old(ledger)@
        }),
{
    if !title_is_valid(title.as_str()) {
        return Err(JournalError::TitleTooLong);
    }
    if !journal_derives(&ledger.program_id(), &ctx.owner, title.as_str(), &ctx.journal) {
        return Err(JournalError::AddressMismatch);
    }
    if ledger.contains(&ctx.journal) {
        return Err(JournalError::AlreadyExists);
    }
    let journal = Journal { owner: ctx.owner, title, entry_count: 0 };
    ledger.allocate(ctx.journal, Account::Journal(journal));
    Ok(())
}

/// Deletes the journal at `ctx.journal`; its entries stay where they are.
pub fn delete_journal(ledger: &mut Ledger, ctx: &DeleteJournal) -> (r: Result<(), JournalError>)
    requires
        old(ledger).wf(),
    ensures
        final(ledger).wf(),
        r == delete_journal_outcome(old(ledger)@, *ctx),
        final(ledger)@ == (if r is Ok {
            delete_journal_effect(old(ledger)@, *ctx)
        } else {
            old(ledger)@
        }),
{
    match check_owned_journal(ledger, &ctx.owner, &ctx.journal) {
        Err(e) => return Err(e),
        Ok(_) => {},
    }
    ledger.destroy(&ctx.journal);
    Ok(())
}

/// Adds an entry written at time `now` to the journal at `ctx.journal`: it
/// takes the journal's counter as its id, lives at `ctx.entry`, which must
/// be derived from the journal's address and that id, and the counter
/// advances by one.
pub fn create_journal_entry(ledger: &mut Ledger, ctx: &CreateEntry, content: String, now: i64) -> (r: Result<(), JournalError>)
    requires
        old(ledger).wf(),
    ensures
        final(ledger).wf(),
        r == create_entry_outcome(old(ledger)@, *ctx, content@),
        final(ledger)@ == (if r is Ok {
            create_entry_effect(old(ledger)@, *ctx, content@, now)
        } else {
            old(ledger)@
        }),
{
    let (title, entry_id) = match check_owned_journal(ledger, &ctx.owner, &ctx.journal) {
        Err(e) => return Err(e),
        Ok(j) => (j.title.clone(), j.entry_count),
    };
    if !content_is_valid(content.as_str()) {
        return Err(JournalError::ContentTooLong);
    }
    if entry_id >= MAX_ENTRY_COUNT {
        return Err(JournalError::EntryLimitReached);
    }
    if !entry_derives(&ledger.program_id(), &ctx.journal, entry_id, &ctx.entry) {
        return Err(JournalError::AddressMismatch);
    }
    if ledger.contains(&ctx.entry) {
        return Err(JournalError::AlreadyExists);
    }
    let journal = Journal { owner: ctx.owner, title, entry_count: entry_id + 1 };
    ledger.store(ctx.journal, Account::Journal(journal));
    let entry = JournalEntry { journal: ctx.journal, id: entry_id, timestamp: now, content };
    ledger.allocate(ctx.entry, Account::Entry(entry));
    Ok(())
}

/// Replaces the content of the entry at `ctx.entry` and stamps it with
/// `now`; its id and journal stay.
pub fn update_journal_entry(ledger: &mut Ledger, ctx: &UpdateEntry, content: String, now: i64) -> (r: Result<(), JournalError>)
    requires
        old(ledger).wf(),
    ensures
        final(ledger).wf(),
        r == update_entry_outcome(old(ledger)@, *ctx, content@),
        final(ledger)@ == (if r is Ok {
            update_entry_effect(old(ledger)@, *ctx, content@, now)
        } else {
            old(ledger)@
        }),
{
    match check_owned_journal(ledger, &ctx.owner, &ctx.journal) {
        Err(e) => return Err(e),
        Ok(_) => {},
    }
    let (journal, entry_id) = match check_linked_entry(ledger, &ctx.journal, &ctx.entry) {
        Err(e) => return Err(e),
        Ok(e) => (e.journal, e.id),
    };
    if !content_is_valid(content.as_str()) {
        return Err(JournalError::ContentTooLong);
    }
    let entry = JournalEntry { journal, id: entry_id, timestamp: now, content };
    ledger.store(ctx.entry, Account::Entry(entry));
    Ok(())
}

/// Deletes the entry at `ctx.entry`; the journal's counter stays, so no id
/// is ever given out twice.
pub fn delete_journal_entry(ledger: &mut Ledger, ctx: &DeleteEntry) -> (r: Result<(), JournalError>)
    requires
        old(ledger).wf(),
    ensures
        final(ledger).wf(),
        r == delete_entry_outcome(old(ledger)@, *ctx),
        final(ledger)@ == (if r is Ok {
            delete_entry_effect(old(ledger)@, *ctx)
        } else {
            old(ledger)@
        }),
{
    match check_owned_journal(ledger, &ctx.owner, &ctx.journal) {
        Err(e) => return Err(e),
        Ok(_) => {},
    }
    match check_linked_entry(ledger, &ctx.journal, &ctx.entry) {
        Err(e) => return Err(e),
        Ok(_) => {},
    }
    ledger.destroy(&ctx.entry);
    Ok(())
}

} // verus!
