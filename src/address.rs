use vstd::prelude::*;
use vstd::string::StringSliceAdditionalSpecFns;
use vstd::utf8::encode_utf8;

verus! {

/// A 32-byte account address (a public key or a program-derived address).
#[derive(Clone, Copy, Debug)]
pub struct Address {
    pub bytes: [u8; 32],
}

impl Address {
    pub fn new(bytes: [u8; 32]) -> (r: Address)
        ensures
            r.bytes == bytes,
    {
        Address { bytes }
    }

    /// Byte-wise equality of two addresses.
    pub fn same(&self, other: &Address) -> (r: bool)
        ensures
            r == (*self == *other),
    {
        let mut i: usize = 0;
        while i < 32
            invariant
                0 <= i <= 32,
                forall|k: int| 0 <= k < i ==> self.bytes[k] == other.bytes[k],
            decreases 32 - i,
        {
            if self.bytes[i] != other.bytes[i] {
                return false;
            }
            i = i + 1;
        }
        assert(self.bytes =~= other.bytes);
        true
    }
}

impl PartialEq for Address {
    fn eq(&self, other: &Address) -> (r: bool) {
        self.same(other)
    }
}

impl vstd::std_specs::cmp::PartialEqSpecImpl for Address {
    open spec fn obeys_eq_spec() -> bool {
        true
    }

    open spec fn eq_spec(&self, other: &Address) -> bool {
        *self == *other
    }
}

impl Eq for Address {}

/// The address that the runtime derives for a program from a list of seeds,
/// with the bump seed that makes it fall off the curve; `None` where no bump
/// seed works or a seed is over-long.
pub uninterp spec fn program_address(seeds: Seq<Seq<u8>>, program: Seq<u8>) -> Option<Seq<u8>>;

/// Relies on `Pubkey::try_find_program_address` of anchor_lang's
/// solana_program: a pure function of the seeds and the program id, which
/// returns the derived address (the bump seed is dropped here).
#[verifier::external_body]
fn find_program_address(tag: &[u8], key: &[u8; 32], tail: &[u8], program: &[u8; 32]) -> (r: Option<[u8; 32]>)
    ensures
        match r {
            Some(b) => program_address(seq![tag@, key@, tail@], program@) == Some(b@),
            None => program_address(seq![tag@, key@, tail@], program@) is None,
        },
{
    let program_id = anchor_lang::prelude::Pubkey::new_from_array(*program);
    anchor_lang::prelude::Pubkey::try_find_program_address(&[tag, key, tail], &program_id)
        .map(|(k, _bump)| k.to_bytes())
}

/// Domain tag of journal addresses.
pub open spec fn journal_tag() -> Seq<u8> {
    seq![106u8, 111u8, 117u8, 114u8, 110u8, 97u8, 108u8]
}

/// Domain tag of entry addresses.
pub open spec fn entry_tag() -> Seq<u8> {
    seq![101u8, 110u8, 116u8, 114u8, 121u8]
}

/// Seeds of the journal that `owner` keeps under `title`.
pub open spec fn journal_seeds(owner: Address, title: Seq<char>) -> Seq<Seq<u8>> {
    seq![journal_tag(), owner.bytes@, encode_utf8(title)]
}

/// Seeds of the entry with identifier `id` in the journal at `journal`.
pub open spec fn entry_seeds(journal: Address, id: u8) -> Seq<Seq<u8>> {
    seq![entry_tag(), journal.bytes@, seq![id]]
}

/// `addr` is the address that `program` derives from `seeds`.
pub open spec fn derives_to(seeds: Seq<Seq<u8>>, program: Address, addr: Address) -> bool {
    program_address(seeds, program.bytes@) == Some(addr.bytes@)
}

/// `r` is what `program` derives from `seeds`, or `None` exactly when nothing is.
pub open spec fn derivation(seeds: Seq<Seq<u8>>, program: Address, r: Option<Address>) -> bool {
    match r {
        Some(a) => derives_to(seeds, program, a),
        None => program_address(seeds, program.bytes@) is None,
    }
}

fn wrap(r: Option<[u8; 32]>) -> (a: Option<Address>)
    ensures
        match r {
            Some(b) => a == Some(Address { bytes: b }),
            None => a is None,
        },
{
    match r {
        Some(b) => Some(Address { bytes: b }),
        None => None,
    }
}

/// The address of the journal that `owner` keeps under `title`.
pub fn journal_address(program: &Address, owner: &Address, title: &str) -> (r: Option<Address>)
    ensures
        derivation(journal_seeds(*owner, title@), *program, r),
{
    // "journal"
    let tag: [u8; 7] = [106, 111, 117, 114, 110, 97, 108];
    assert(tag@ =~= journal_tag());
    let found = find_program_address(tag.as_slice(), &owner.bytes, title.as_bytes(), &program.bytes);
    assert(seq![tag@, owner.bytes@, title.spec_bytes()] =~= journal_seeds(*owner, title@));
    wrap(found)
}

/// The address of the entry with identifier `id` in the journal at `journal`.
pub fn entry_address(program: &Address, journal: &Address, id: u8) -> (r: Option<Address>)
    ensures
        derivation(entry_seeds(*journal, id), *program, r),
{
    // "entry"
    let tag: [u8; 5] = [101, 110, 116, 114, 121];
    assert(tag@ =~= entry_tag());
    let idb: [u8; 1] = [id];
    assert(idb@ =~= seq![id]);
    let found = find_program_address(tag.as_slice(), &journal.bytes, idb.as_slice(), &program.bytes);
    assert(seq![tag@, journal.bytes@, idb@] =~= entry_seeds(*journal, id));
    wrap(found)
}

} // verus!
