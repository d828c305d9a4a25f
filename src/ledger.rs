use vstd::prelude::*;

use crate::address::Address;
use crate::records::{Account, AccountView, Journal, JournalEntry};

verus! {

/// What a ledger holds: the program that owns its accounts, and what lives
/// at each occupied address.
pub struct LedgerView {
    pub program_id: Address,
    pub accounts: Map<Address, AccountView>,
}

/// The journal stored at `addr`, if a journal is stored there.
pub open spec fn journal_at(m: LedgerView, addr: Address) -> Option<crate::records::JournalView> {
    if m.accounts.contains_key(addr) {
        match m.accounts[addr] {
            AccountView::Journal(j) => Some(j),
            AccountView::Entry(_) => None,
        }
    } else {
        None
    }
}

/// The entry stored at `addr`, if an entry is stored there.
pub open spec fn entry_at(m: LedgerView, addr: Address) -> Option<crate::records::EntryView> {
    if m.accounts.contains_key(addr) {
        match m.accounts[addr] {
            AccountView::Entry(e) => Some(e),
            AccountView::Journal(_) => None,
        }
    } else {
        None
    }
}

/// Account storage of one program: at most one account per address, each
/// allocated only where none lives and destroyed as a whole.
pub struct Ledger {
    program_id: Address,
    slots: Vec<(Address, Account)>,
    model: Ghost<Map<Address, AccountView>>,
}

impl View for Ledger {
    type V = LedgerView;

    closed spec fn view(&self) -> LedgerView {
        LedgerView { program_id: self.program_id, accounts: self.model@ }
    }
}

impl Ledger {
    /// Well-formedness: addresses are distinct and the slots hold exactly
    /// the accounts of the model.
    pub closed spec fn wf(&self) -> bool {
        &&& forall|i: int, j: int|
            0 <= i < j < self.slots@.len() ==> self.slots@[i].0 != self.slots@[j].0
        &&& forall|i: int|
            0 <= i < self.slots@.len() ==> {
                &&& self.model@.contains_key(#[trigger] self.slots@[i].0)
                &&& self.model@[self.slots@[i].0] == self.slots@[i].1@
            }
        &&& forall|a: Address|
            #[trigger] self.model@.contains_key(a) ==> exists|i: int|
                0 <= i < self.slots@.len() && self.slots@[i].0 == a
    }

    /// An empty ledger for the program `program_id`.
    pub fn new(program_id: Address) -> (r: Ledger)
        ensures
            r.wf(),
            r@.program_id == program_id,
            r@.accounts == Map::<Address, AccountView>::empty(),
    {
        Ledger { program_id, slots: Vec::new(), model: Ghost(Map::empty()) }
    }

    pub fn program_id(&self) -> (r: Address)
        ensures
            r == self@.program_id,
    {
        self.program_id
    }

    fn find(&self, addr: &Address) -> (r: Option<usize>)
        requires
            self.wf(),
        ensures
            match r {
                Some(i) => i < self.slots@.len() && self.slots@[i as int].0 == *addr,
                None => !self@.accounts.contains_key(*addr),
            },
    {
        let mut i: usize = 0;
        while i < self.slots.len()
            invariant
                self.wf(),
                0 <= i <= self.slots@.len(),
                forall|k: int| 0 <= k < i ==> self.slots@[k].0 != *addr,
            decreases self.slots@.len() - i,
        {
            if self.slots[i].0.same(addr) {
                return Some(i);
            }
            i = i + 1;
        }
        None
    }

    /// Whether an account lives at `addr`.
    pub fn contains(&self, addr: &Address) -> (r: bool)
        requires
            self.wf(),
        ensures
            r == self@.accounts.contains_key(*addr),
    {
        match self.find(addr) {
            Some(_) => true,
            None => false,
        }
    }

    /// The journal stored at `addr`.
    pub fn journal(&self, addr: &Address) -> (r: Option<&Journal>)
        requires
            self.wf(),
        ensures
            match r {
                Some(j) => journal_at(self@, *addr) == Some(j@),
                None => journal_at(self@, *addr) is None,
            },
    {
        match self.find(addr) {
            Some(i) => match &self.slots[i].1 {
                Account::Journal(j) => Some(j),
                Account::Entry(_) => None,
            },
            None => None,
        }
    }

    /// The entry stored at `addr`.
    pub fn entry(&self, addr: &Address) -> (r: Option<&JournalEntry>)
        requires
            self.wf(),
        ensures
            match r {
                Some(e) => entry_at(self@, *addr) == Some(e@),
                None => entry_at(self@, *addr) is None,
            },
    {
        match self.find(addr) {
            Some(i) => match &self.slots[i].1 {
                Account::Entry(e) => Some(e),
                Account::Journal(_) => None,
            },
            None => None,
        }
    }

    /// Allocates `account` at the free address `addr`.
    pub(crate) fn allocate(&mut self, addr: Address, account: Account)
        requires
            old(self).wf(),
            !old(self)@.accounts.contains_key(addr),
        ensures
            final(self).wf(),
            final(self)@.program_id == old(self)@.program_id,
            final(self)@.accounts == old(self)@.accounts.insert(addr, account@),
    {
        let ghost v = account@;
        self.slots.push((addr, account));
        self.model = Ghost(self.model@.insert(addr, v));
        assert forall|a: Address| #[trigger] self.model@.contains_key(a) implies exists|i: int|
            0 <= i < self.slots@.len() && self.slots@[i].0 == a by {
            if a != addr {
                let i = choose|i: int| 0 <= i < old(self).slots@.len() && old(self).slots@[i].0 == a;
                assert(self.slots@[i].0 == a);
            } else {
                assert(self.slots@[self.slots@.len() - 1].0 == a);
            }
        }
    }

    /// Overwrites the account that lives at `addr`.
    pub(crate) fn store(&mut self, addr: Address, account: Account)
        requires
            old(self).wf(),
            old(self)@.accounts.contains_key(addr),
        ensures
            final(self).wf(),
            final(self)@.program_id == old(self)@.program_id,
            final(self)@.accounts == old(self)@.accounts.insert(addr, account@),
    {
        let ghost v = account@;
        let i = self.find(&addr).unwrap();
        self.slots.set(i, (addr, account));
        self.model = Ghost(self.model@.insert(addr, v));
        assert forall|a: Address| #[trigger] self.model@.contains_key(a) implies exists|k: int|
            0 <= k < self.slots@.len() && self.slots@[k].0 == a by {
            let k = choose|k: int| 0 <= k < old(self).slots@.len() && old(self).slots@[k].0 == a;
            assert(self.slots@[k].0 == a);
        }
    }

    /// Destroys the account that lives at `addr`.
    pub(crate) fn destroy(&mut self, addr: &Address)
        requires
            old(self).wf(),
            old(self)@.accounts.contains_key(*addr),
        ensures
            final(self).wf(),
            final(self)@.program_id == old(self)@.program_id,
            final(self)@.accounts == old(self)@.accounts.remove(*addr),
    {
        let i = self.find(addr).unwrap();
        let ghost s0 = self.slots@;
        self.slots.remove(i);
        self.model = Ghost(self.model@.remove(*addr));
        assert forall|k: int| 0 <= k < self.slots@.len() implies #[trigger] self.slots@[k]
            == s0[if k < i { k } else { k + 1 }] by {}
        assert forall|a: Address| #[trigger] self.model@.contains_key(a) implies exists|k: int|
            0 <= k < self.slots@.len() && self.slots@[k].0 == a by {
            let k = choose|k: int| 0 <= k < s0.len() && s0[k].0 == a;
            if k < i {
                assert(self.slots@[k].0 == a);
            } else {
                assert(k != i);
                assert(self.slots@[k - 1].0 == a);
            }
        }
        assert forall|p: int, q: int| 0 <= p < q < self.slots@.len() implies self.slots@[p].0
            != self.slots@[q].0 by {
            assert(self.slots@[p] == s0[if p < i { p } else { p + 1 }]);
            assert(self.slots@[q] == s0[if q < i { q } else { q + 1 }]);
        }
        assert forall|k: int| 0 <= k < self.slots@.len() implies {
            &&& self.model@.contains_key(#[trigger] self.slots@[k].0)
            &&& self.model@[self.slots@[k].0] == self.slots@[k].1@
        } by {
            let o = if k < i { k } else { k + 1 };
            assert(self.slots@[k] == s0[o]);
            assert(s0[o].0 != s0[i as int].0);
        }
    }
}

} // verus!
