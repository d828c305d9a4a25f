use journal::{
    create_journal, create_journal_entry, delete_journal, delete_journal_entry, entry_address,
    journal_address, update_journal_entry, Address, CreateEntry, CreateJournal, DeleteEntry,
    DeleteJournal, JournalError, Ledger, UpdateEntry, MAX_ENTRY_COUNT,
};

fn program() -> Address {
    Address::new([7u8; 32])
}

fn owner() -> Address {
    Address::new([1u8; 32])
}

fn stranger() -> Address {
    Address::new([2u8; 32])
}

fn journal_of(o: &Address, title: &str) -> Address {
    journal_address(&program(), o, title).unwrap()
}

fn entry_of(journal: &Address, id: u8) -> Address {
    entry_address(&program(), journal, id).unwrap()
}

fn ledger_with_journal(title: &str) -> (Ledger, Address) {
    let mut ledger = Ledger::new(program());
    let j = journal_of(&owner(), title);
    let ctx = CreateJournal { owner: owner(), journal: j };
    assert_eq!(create_journal(&mut ledger, &ctx, title.to_string()), Ok(()));
    (ledger, j)
}

fn add_entry(ledger: &mut Ledger, j: &Address, id: u8, content: &str, now: i64) -> Result<(), JournalError> {
    let ctx = CreateEntry { owner: owner(), journal: *j, entry: entry_of(j, id) };
    create_journal_entry(ledger, &ctx, content.to_string(), now)
}

#[test]
fn diary_scenario() {
    let (mut ledger, j) = ledger_with_journal("Diary");
    assert_eq!(ledger.journal(&j).unwrap().entry_count, 0);

    assert_eq!(add_entry(&mut ledger, &j, 0, "Day 1", 100), Ok(()));
    let e0 = entry_of(&j, 0);
    assert_eq!(ledger.entry(&e0).unwrap().id, 0);
    assert_eq!(ledger.journal(&j).unwrap().entry_count, 1);

    assert_eq!(add_entry(&mut ledger, &j, 1, "Day 2", 200), Ok(()));
    let e1 = entry_of(&j, 1);
    assert_eq!(ledger.entry(&e1).unwrap().id, 1);
    assert_eq!(ledger.journal(&j).unwrap().entry_count, 2);

    let upd = UpdateEntry { owner: owner(), journal: j, entry: e0 };
    assert_eq!(update_journal_entry(&mut ledger, &upd, "Day 1 revised".to_string(), 300), Ok(()));
    assert_eq!(ledger.entry(&e0).unwrap().content, "Day 1 revised");
    assert_eq!(ledger.entry(&e0).unwrap().id, 0);

    let del = DeleteEntry { owner: owner(), journal: j, entry: e1 };
    assert_eq!(delete_journal_entry(&mut ledger, &del), Ok(()));
    assert!(ledger.entry(&e1).is_none());
    assert_eq!(ledger.entry(&e0).unwrap().content, "Day 1 revised");
    assert_eq!(ledger.journal(&j).unwrap().entry_count, 2);

    let dj = DeleteJournal { owner: owner(), journal: j };
    assert_eq!(delete_journal(&mut ledger, &dj), Ok(()));
    assert!(ledger.journal(&j).is_none());
    assert!(!ledger.contains(&j));
    assert!(ledger.contains(&e0));
    assert_eq!(ledger.entry(&e0).unwrap().content, "Day 1 revised");
    assert_eq!(ledger.entry(&e0).unwrap().journal, j);
}

#[test]
fn created_journal_is_found_at_derived_address() {
    let (ledger, j) = ledger_with_journal("Travel notes");
    let found = ledger.journal(&journal_of(&owner(), "Travel notes")).unwrap();
    assert_eq!(found.owner, owner());
    assert_eq!(found.title, "Travel notes");
    assert_eq!(found.entry_count, 0);
    assert!(ledger.contains(&j));
}

#[test]
fn derived_addresses_differ_from_inputs_and_each_other() {
    let a = journal_of(&owner(), "Diary");
    assert_ne!(a, owner());
    assert_ne!(a, program());
    assert_eq!(a, journal_of(&owner(), "Diary"));
    assert_ne!(a, journal_of(&owner(), "Diarz"));
    assert_ne!(a, journal_of(&stranger(), "Diary"));
    let e = entry_of(&a, 0);
    assert_ne!(e, a);
    assert_ne!(e, entry_of(&a, 1));
    assert_ne!(e, entry_of(&journal_of(&owner(), "Other"), 0));
}

#[test]
fn entry_addresses_are_distinct_for_every_id() {
    let j = journal_of(&owner(), "Diary");
    let mut seen: Vec<Address> = Vec::new();
    for id in 0..=255u8 {
        let e = entry_of(&j, id);
        assert!(!seen.contains(&e));
        seen.push(e);
    }
}

#[test]
fn second_journal_with_same_title_already_exists() {
    let (mut ledger, j) = ledger_with_journal("Diary");
    let ctx = CreateJournal { owner: owner(), journal: j };
    assert_eq!(create_journal(&mut ledger, &ctx, "Diary".to_string()), Err(JournalError::AlreadyExists));
    assert_eq!(ledger.journal(&j).unwrap().entry_count, 0);
}

#[test]
fn same_title_for_another_owner_is_a_new_journal() {
    let (mut ledger, j) = ledger_with_journal("Diary");
    let other = journal_of(&stranger(), "Diary");
    let ctx = CreateJournal { owner: stranger(), journal: other };
    assert_eq!(create_journal(&mut ledger, &ctx, "Diary".to_string()), Ok(()));
    assert_ne!(other, j);
    assert_eq!(ledger.journal(&other).unwrap().owner, stranger());
    assert_eq!(ledger.journal(&j).unwrap().owner, owner());
}

#[test]
fn stranger_cannot_delete_journal() {
    let (mut ledger, j) = ledger_with_journal("Diary");
    let ctx = DeleteJournal { owner: stranger(), journal: j };
    assert_eq!(delete_journal(&mut ledger, &ctx), Err(JournalError::Unauthorized));
    assert!(ledger.journal(&j).is_some());
}

#[test]
fn title_of_thirty_bytes_fits_and_thirty_one_does_not() {
    let mut ledger = Ledger::new(program());
    let ok_title = "a".repeat(30);
    let ctx = CreateJournal { owner: owner(), journal: journal_of(&owner(), &ok_title) };
    assert_eq!(create_journal(&mut ledger, &ctx, ok_title), Ok(()));

    let long_title = "a".repeat(31);
    let ctx = CreateJournal { owner: owner(), journal: journal_of(&owner(), &long_title) };
    assert_eq!(create_journal(&mut ledger, &ctx, long_title), Err(JournalError::TitleTooLong));
}

#[test]
fn title_length_counts_bytes() {
    let mut ledger = Ledger::new(program());
    let title = "é".repeat(16);
    let ctx = CreateJournal { owner: owner(), journal: Address::new([9u8; 32]) };
    assert_eq!(create_journal(&mut ledger, &ctx, title), Err(JournalError::TitleTooLong));
}

#[test]
fn journal_at_wrong_address_is_refused() {
    let mut ledger = Ledger::new(program());
    let ctx = CreateJournal { owner: owner(), journal: journal_of(&owner(), "Other") };
    assert_eq!(create_journal(&mut ledger, &ctx, "Diary".to_string()), Err(JournalError::AddressMismatch));
    assert!(!ledger.contains(&ctx.journal));
}

#[test]
fn entry_ids_are_sequential() {
    let (mut ledger, j) = ledger_with_journal("Diary");
    for id in 0..5u8 {
        assert_eq!(add_entry(&mut ledger, &j, id, "x", 10), Ok(()));
        assert_eq!(ledger.entry(&entry_of(&j, id)).unwrap().id, id);
        assert_eq!(ledger.journal(&j).unwrap().entry_count, id + 1);
    }
}

#[test]
fn entry_at_wrong_id_is_refused() {
    let (mut ledger, j) = ledger_with_journal("Diary");
    assert_eq!(add_entry(&mut ledger, &j, 1, "skip", 10), Err(JournalError::AddressMismatch));
    assert_eq!(ledger.journal(&j).unwrap().entry_count, 0);
}

#[test]
fn content_of_280_bytes_fits_and_281_does_not() {
    let (mut ledger, j) = ledger_with_journal("Diary");
    assert_eq!(add_entry(&mut ledger, &j, 0, &"b".repeat(280), 10), Ok(()));
    assert_eq!(add_entry(&mut ledger, &j, 1, &"b".repeat(281), 10), Err(JournalError::ContentTooLong));
    let upd = UpdateEntry { owner: owner(), journal: j, entry: entry_of(&j, 0) };
    assert_eq!(update_journal_entry(&mut ledger, &upd, "c".repeat(281), 20), Err(JournalError::ContentTooLong));
    assert_eq!(ledger.entry(&entry_of(&j, 0)).unwrap().content, "b".repeat(280));
}

#[test]
fn stranger_cannot_add_update_or_delete_entries() {
    let (mut ledger, j) = ledger_with_journal("Diary");
    assert_eq!(add_entry(&mut ledger, &j, 0, "mine", 10), Ok(()));
    let e = entry_of(&j, 0);
    let add = CreateEntry { owner: stranger(), journal: j, entry: entry_of(&j, 1) };
    assert_eq!(create_journal_entry(&mut ledger, &add, "theirs".to_string(), 11), Err(JournalError::Unauthorized));
    let upd = UpdateEntry { owner: stranger(), journal: j, entry: e };
    assert_eq!(update_journal_entry(&mut ledger, &upd, "theirs".to_string(), 11), Err(JournalError::Unauthorized));
    let del = DeleteEntry { owner: stranger(), journal: j, entry: e };
    assert_eq!(delete_journal_entry(&mut ledger, &del), Err(JournalError::Unauthorized));
    assert_eq!(ledger.entry(&e).unwrap().content, "mine");
}

#[test]
fn update_keeps_id_and_journal_and_round_trips() {
    let (mut ledger, j) = ledger_with_journal("Diary");
    assert_eq!(add_entry(&mut ledger, &j, 0, "first", 10), Ok(()));
    let e = entry_of(&j, 0);
    let upd = UpdateEntry { owner: owner(), journal: j, entry: e };
    let text = "Ünïcödé ✓ text that is kept exactly";
    assert_eq!(update_journal_entry(&mut ledger, &upd, text.to_string(), 42), Ok(()));
    let got = ledger.entry(&e).unwrap();
    assert_eq!(got.content, text);
    assert_eq!(got.timestamp, 42);
    assert_eq!(got.id, 0);
    assert_eq!(got.journal, j);
}

#[test]
fn update_after_delete_is_not_found() {
    let (mut ledger, j) = ledger_with_journal("Diary");
    assert_eq!(add_entry(&mut ledger, &j, 0, "gone soon", 10), Ok(()));
    let e = entry_of(&j, 0);
    let del = DeleteEntry { owner: owner(), journal: j, entry: e };
    assert_eq!(delete_journal_entry(&mut ledger, &del), Ok(()));
    assert_eq!(ledger.journal(&j).unwrap().entry_count, 1);
    let upd = UpdateEntry { owner: owner(), journal: j, entry: e };
    assert_eq!(update_journal_entry(&mut ledger, &upd, "again".to_string(), 20), Err(JournalError::NotFound));
    assert_eq!(delete_journal_entry(&mut ledger, &del), Err(JournalError::NotFound));
    assert_eq!(add_entry(&mut ledger, &j, 1, "next", 30), Ok(()));
}

#[test]
fn deleting_missing_journal_is_not_found() {
    let mut ledger = Ledger::new(program());
    let ctx = DeleteJournal { owner: owner(), journal: journal_of(&owner(), "Diary") };
    assert_eq!(delete_journal(&mut ledger, &ctx), Err(JournalError::NotFound));
}

#[test]
fn entry_of_another_journal_is_refused() {
    let (mut ledger, j) = ledger_with_journal("Diary");
    let other = journal_of(&owner(), "Work");
    let ctx = CreateJournal { owner: owner(), journal: other };
    assert_eq!(create_journal(&mut ledger, &ctx, "Work".to_string()), Ok(()));
    assert_eq!(add_entry(&mut ledger, &other, 0, "work item", 10), Ok(()));
    let upd = UpdateEntry { owner: owner(), journal: j, entry: entry_of(&other, 0) };
    assert_eq!(update_journal_entry(&mut ledger, &upd, "moved".to_string(), 20), Err(JournalError::AddressMismatch));
}

#[test]
fn entry_counter_stops_at_its_bound() {
    let (mut ledger, j) = ledger_with_journal("Diary");
    for id in 0..MAX_ENTRY_COUNT {
        assert_eq!(add_entry(&mut ledger, &j, id, "e", 1), Ok(()));
    }
    assert_eq!(ledger.journal(&j).unwrap().entry_count, MAX_ENTRY_COUNT);
    assert_eq!(add_entry(&mut ledger, &j, MAX_ENTRY_COUNT, "one too many", 2), Err(JournalError::EntryLimitReached));
    assert_eq!(ledger.journal(&j).unwrap().entry_count, MAX_ENTRY_COUNT);
}
