use vstd::prelude::*;

use crate::address::{derives_to, entry_seeds, journal_seeds, Address};
use crate::instructions::{
    create_entry_effect, create_entry_outcome, create_journal_effect, create_journal_outcome,
    delete_entry_effect, delete_entry_outcome, delete_journal_outcome, linked_entry,
    update_entry_effect, update_entry_outcome, CreateEntry, CreateJournal, DeleteEntry,
    DeleteJournal, UpdateEntry,
};
use crate::ledger::{entry_at, journal_at, LedgerView};
use crate::records::{EntryView, JournalError, JournalView};

verus! {

/// A journal just created is found at the address derived from its owner
/// and title, with its owner, its title and no entry yet.
pub proof fn law_created_journal_resolves(m: LedgerView, ctx: CreateJournal, title: Seq<char>)
    requires
        create_journal_outcome(m, ctx, title) is Ok,
    ensures
        derives_to(journal_seeds(ctx.owner, title), m.program_id, ctx.journal),
        journal_at(create_journal_effect(m, ctx, title), ctx.journal) == Some(
            JournalView { owner: ctx.owner, title, entry_count: 0 },
        ),
{
}

/// Once a journal exists for an owner and a title, no second one can be
/// created for them: at its address creation fails with `AlreadyExists`,
/// and no other address is derived from the same owner and title.
pub proof fn law_journal_is_unique(
    m: LedgerView,
    ctx: CreateJournal,
    title: Seq<char>,
    again: CreateJournal,
)
    requires
        create_journal_outcome(m, ctx, title) is Ok,
        again.owner == ctx.owner,
    ensures
        create_journal_outcome(create_journal_effect(m, ctx, title), again, title) is Err,
        again.journal == ctx.journal ==> create_journal_outcome(
            create_journal_effect(m, ctx, title),
            again,
            title,
        ) == Err::<(), JournalError>(JournalError::AlreadyExists),
{
    let after = create_journal_effect(m, ctx, title);
    if derives_to(journal_seeds(again.owner, title), after.program_id, again.journal) {
        assert(again.journal.bytes =~= ctx.journal.bytes);
        assert(after.accounts.contains_key(again.journal));
    }
}

/// Only a journal's owner can delete it: anyone else gets `Unauthorized`.
pub proof fn law_delete_by_stranger_fails(m: LedgerView, ctx: DeleteJournal)
    requires
        journal_at(m, ctx.journal) is Some,
        journal_at(m, ctx.journal).unwrap().owner != ctx.owner,
    ensures
        delete_journal_outcome(m, ctx) == Err::<(), JournalError>(JournalError::Unauthorized),
{
}

/// A new entry takes the journal's counter `k` as its id and leaves the
/// counter at `k + 1`; the next entry of the same journal then gets `k + 1`
/// and leaves `k + 2`: ids are handed out in order, without gaps.
pub proof fn law_entry_ids_are_sequential(
    m: LedgerView,
    first: CreateEntry,
    c1: Seq<char>,
    t1: i64,
    second: CreateEntry,
    c2: Seq<char>,
    t2: i64,
)
    requires
        create_entry_outcome(m, first, c1) is Ok,
        second.journal == first.journal,
    ensures
        ({
            let k = journal_at(m, first.journal).unwrap().entry_count;
            let m1 = create_entry_effect(m, first, c1, t1);
            let m2 = create_entry_effect(m1, second, c2, t2);
            &&& entry_at(m1, first.entry) == Some(
                EntryView { journal: first.journal, id: k, timestamp: t1, content: c1 },
            )
            &&& journal_at(m1, first.journal).unwrap().entry_count == k + 1
            &&& create_entry_outcome(m1, second, c2) is Ok ==> {
                &&& entry_at(m2, second.entry).unwrap().id == k + 1
                &&& journal_at(m2, second.journal).unwrap().entry_count == k + 2
            }
        }),
{
}

/// Entries of one journal with different ids are derived from different
/// seeds, and none of them from the seeds of a journal.
pub proof fn law_entry_seeds_are_distinct(journal: Address, id1: u8, id2: u8, owner: Address, title: Seq<char>)
    ensures
        id1 != id2 ==> entry_seeds(journal, id1) != entry_seeds(journal, id2),
        entry_seeds(journal, id1) != journal_seeds(owner, title),
{
    if id1 != id2 {
        assert(entry_seeds(journal, id1)[2][0] != entry_seeds(journal, id2)[2][0]);
    }
    assert(entry_seeds(journal, id1)[0].len() != journal_seeds(owner, title)[0].len());
}

/// Two entries found under the same journal with different ids live at
/// different addresses.
pub proof fn law_entries_with_distinct_ids_are_apart(
    m: LedgerView,
    journal: Address,
    a1: Address,
    a2: Address,
)
    requires
        linked_entry(m, journal, a1) is Ok,
        linked_entry(m, journal, a2) is Ok,
        linked_entry(m, journal, a1).unwrap().id != linked_entry(m, journal, a2).unwrap().id,
    ensures
        a1 != a2,
{
}

/// An update replaces content and timestamp, keeps id and journal, and what
/// is read back is the content written, unchanged.
pub proof fn law_update_round_trip(m: LedgerView, ctx: UpdateEntry, content: Seq<char>, now: i64)
    requires
        update_entry_outcome(m, ctx, content) is Ok,
    ensures
        ({
            let e = entry_at(m, ctx.entry).unwrap();
            entry_at(update_entry_effect(m, ctx, content, now), ctx.entry) == Some(
                EntryView { journal: e.journal, id: e.id, timestamp: now, content },
            )
        }),
{
}

/// After an entry is deleted, updating it fails with `NotFound`, and its
/// journal, counter included, is as it was.
pub proof fn law_deleted_entry_is_gone(
    m: LedgerView,
    ctx: DeleteEntry,
    later: UpdateEntry,
    content: Seq<char>,
)
    requires
        delete_entry_outcome(m, ctx) is Ok,
        later.owner == ctx.owner,
        later.journal == ctx.journal,
        later.entry == ctx.entry,
    ensures
        journal_at(delete_entry_effect(m, ctx), ctx.journal) == journal_at(m, ctx.journal),
        update_entry_outcome(delete_entry_effect(m, ctx), later, content) == Err::<
            (),
            JournalError,
        >(JournalError::NotFound),
{
    assert(ctx.entry != ctx.journal);
}

} // verus!
