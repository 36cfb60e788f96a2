//! Shared small utilities: byte-string comparison, decimal rendering,
//! and the record store that validators resolve content addresses
//! against.

use vstd::prelude::*;

use crate::validation::ValidationError;
use crate::EntryTypes;
use crate::EntryView;

verus! {

/// Byte-for-byte equality of two byte strings.
pub fn bytes_eq(a: &Vec<u8>, b: &Vec<u8>) -> (r: bool)
    ensures
        r == (a@ == b@),
{
    if a.len() != b.len() {
        return false;
    }
    let mut i: usize = 0;
    while i < a.len()
        invariant
            i <= a.len(),
            a@.len() == b@.len(),
            forall|j: int| 0 <= j < i ==> a@[j] == b@[j],
        decreases a.len() - i,
    {
        if a[i] != b[i] {
            return false;
        }
        i += 1;
    }
    assert(a@ =~= b@);
    true
}

/// Copy a byte string.
pub fn copy_bytes(v: &Vec<u8>) -> (r: Vec<u8>)
    ensures
        r@ == v@,
{
    let mut out: Vec<u8> = Vec::new();
    let mut i: usize = 0;
    while i < v.len()
        invariant
            i <= v@.len(),
            out@ == v@.take(i as int),
        decreases v.len() - i,
    {
        out.push(v[i]);
        proof {
            assert(out@ =~= v@.take(i + 1));
        }
        i += 1;
    }
    proof {
        assert(v@.take(v@.len() as int) =~= v@);
    }
    out
}

/// The decimal digits of a number, most significant first.
pub open spec fn dec_of(n: nat) -> Seq<u8>
    decreases n,
{
    if n < 10 {
        seq![(48 + n) as u8]
    } else {
        dec_of(n / 10).push((48 + n % 10) as u8)
    }
}

/// Render a number as decimal digits.
pub fn to_decimal(n: usize) -> (r: Vec<u8>)
    ensures
        r@ == dec_of(n as nat),
    decreases n,
{
    if n < 10 {
        let mut out: Vec<u8> = Vec::new();
        out.push(48 + n as u8);
        proof {
            assert(out@ =~= dec_of(n as nat));
        }
        out
    } else {
        let mut out = to_decimal(n / 10);
        out.push(48 + (n % 10) as u8);
        out
    }
}

/// Who performs a record creation, and whether it arrives as an update
/// in the record chain.
#[derive(Clone, Debug, PartialEq, Eq)]
pub enum EntryCreationAction {
    Create { author: Vec<u8> },
    Update { author: Vec<u8> },
}

impl EntryCreationAction {
    /// The identity that signed the creation.
    pub open spec fn author_spec(&self) -> Seq<u8> {
        match self {
            EntryCreationAction::Create { author } => author@,
            EntryCreationAction::Update { author } => author@,
        }
    }

    pub open spec fn is_update(&self) -> bool {
        self is Update
    }

    /// The identity that signed the creation.
    pub fn author(&self) -> (a: &Vec<u8>)
        ensures
            a@ == self.author_spec(),
    {
        match self {
            EntryCreationAction::Create { author } => author,
            EntryCreationAction::Update { author } => author,
        }
    }
}

/// One resolved record: its content address, its author's identity,
/// and the entry it deserialized to.
#[derive(Clone, Debug, PartialEq, Eq)]
pub struct StoredRecord {
    pub address: Vec<u8>,
    pub author: Vec<u8>,
    pub entry: EntryTypes,
}

pub ghost struct StoredRecordView {
    pub address: Seq<u8>,
    pub author: Seq<u8>,
    pub entry: EntryView,
}

impl View for StoredRecord {
    type V = StoredRecordView;

    open spec fn view(&self) -> StoredRecordView {
        StoredRecordView { address: self.address@, author: self.author@, entry: self.entry@ }
    }
}

/// The records a validation run may resolve by content address: the
/// already-validated context that the caller fetched for it. Validation
/// is a pure function of the record under judgment plus this store.
pub struct RecordStore {
    pub records: Vec<StoredRecord>,
}

impl View for RecordStore {
    type V = Seq<StoredRecordView>;

    open spec fn view(&self) -> Seq<StoredRecordView> {
        self.records@.map_values(|r: StoredRecord| r@)
    }
}

/// Resolution by content address: the first record carrying the
/// address, if any.
pub open spec fn store_lookup(s: Seq<StoredRecordView>, addr: Seq<u8>) -> Option<StoredRecordView>
    decreases s.len(),
{
    if s.len() == 0 {
        None
    } else if s[0].address == addr {
        Some(s[0])
    } else {
        store_lookup(s.skip(1), addr)
    }
}

/// Resolve a content address to its record and author, or fail hard:
/// a reference that cannot be resolved makes the referring record
/// unjudgeable.
pub fn must_get_valid_app_entry_and_author<'a>(store: &'a RecordStore, address: &Vec<u8>) -> (r:
    Result<&'a StoredRecord, ValidationError>)
    ensures
        r is Ok <==> store_lookup(store@, address@) is Some,
        r matches Ok(rec) ==> store_lookup(store@, address@) == Some(rec@),
        r matches Err(e) ==> e == ValidationError::MissingRecord,
{
    let ghost full = store@;
    proof {
        assert(store@.skip(0) =~= store@);
    }
    let mut i: usize = 0;
    while i < store.records.len()
        invariant
            i <= store.records@.len(),
            full == store@,
            store_lookup(full, address@) == store_lookup(store@.skip(i as int), address@),
        decreases store.records@.len() - i,
    {
        proof {
            assert(store@.skip(i as int)[0] == store@[i as int]);
            assert(store@[i as int] == store.records@[i as int]@);
        }
        if bytes_eq(&store.records[i].address, address) {
            return Ok(&store.records[i]);
        }
        proof {
            assert(store@.skip(i as int).skip(1) =~= store@.skip(i + 1));
        }
        i += 1;
    }
    proof {
        assert(store@.skip(i as int).len() == 0);
    }
    Err(ValidationError::MissingRecord)
}

/// The typed entry a resolved record holds.
pub fn get_entry_for_record(record: &StoredRecord) -> (e: &EntryTypes)
    ensures
        e@ == record@.entry,
{
    &record.entry
}

} // verus!
