//! The audit ledger: an append-only, hash-linked sequence of records.
//!
//! The ledger is strictly serial. An append must name the ledger's current
//! tip as its predecessor; one that does not is refused and changes nothing.

use vstd::prelude::*;
use crate::hashlink::{hash_verdict, verdict_digest};
use crate::verdict::CorridorVerdict;

verus! {

/// One entry of the ledger: a verdict, the hash of the record before it, and
/// its own hash.
#[derive(Debug, Clone, PartialEq, Eq)]
pub struct LedgerRecord {
    pub verdict: CorridorVerdict,
    pub prev_hash: String,
    pub self_hash: String,
}

impl LedgerRecord {
    /// The subject that the record is about.
    pub open spec fn subject(&self) -> u32 {
        self.verdict.primary_site
    }

    /// The digest that the record must carry: that of its verdict's fields
    /// and of the predecessor hash that it names.
    pub open spec fn expected_hash(&self) -> Seq<char> {
        verdict_digest(
            self.verdict.tick,
            self.verdict.primary_site,
            self.verdict.deed,
            self.verdict.scalars,
            self.verdict.justice,
            self.verdict.decision,
            self.verdict.reason,
            self.prev_hash@,
        )
    }

    /// The record is sealed: its own hash and its verdict's hash are both
    /// the digest of the verdict's fields and of the predecessor hash. A
    /// record that was changed after it was made is no longer sealed, unless
    /// the digest collides.
    pub open spec fn sealed(&self) -> bool {
        self.self_hash@ == self.expected_hash() && self.verdict.hash@ == self.expected_hash()
    }

    /// Seals a verdict into a record that names `prev_hash` as its
    /// predecessor. The record's own hash is the verdict's hash; the record
    /// is sealed exactly when the verdict was hashed over the same
    /// predecessor.
    pub fn new(verdict: CorridorVerdict, prev_hash: String) -> (record: LedgerRecord)
        ensures
            record.verdict == verdict,
            record.prev_hash == prev_hash,
            record.self_hash@ == verdict.hash@,
            record.sealed() <==> verdict.hash@ == record.expected_hash(),
    {
        let self_hash = verdict.hash.clone();
        LedgerRecord { verdict, prev_hash, self_hash }
    }

    /// Recomputes the digest of the record and compares it with the hashes
    /// that the record carries.
    pub fn is_sealed(&self) -> (res: bool)
        ensures
            res == self.sealed(),
    {
        let expected = hash_verdict(
            self.verdict.tick,
            self.verdict.primary_site,
            self.verdict.deed,
            &self.verdict.scalars,
            &self.verdict.justice,
            self.verdict.decision,
            self.verdict.reason,
            self.prev_hash.as_str(),
        );
        self.self_hash == expected && self.verdict.hash == expected
    }
}

/// The error of an append whose declared predecessor is not the ledger's tip.
#[derive(Debug, Clone, Copy, PartialEq, Eq, Structural)]
pub struct HashMismatch;

/// The predecessor hash of the first record of every ledger: the empty text.
pub open spec fn genesis_hash() -> Seq<char> {
    Seq::<char>::empty()
}

/// The tip hash of a sequence of records: the own hash of the last record,
/// or the genesis hash when there is none.
pub open spec fn tip_of(records: Seq<LedgerRecord>) -> Seq<char> {
    if records.len() == 0 {
        genesis_hash()
    } else {
        records.last().self_hash@
    }
}

/// Every record names the hash of the record before it, and the first one
/// names the genesis hash.
pub open spec fn chain_linked(records: Seq<LedgerRecord>) -> bool {
    forall|i: int|
        0 <= i < records.len() ==> (#[trigger] records[i]).prev_hash@ == tip_of(records.take(i))
}

/// The record at position `i` is sound: it is sealed, and it names the own
/// hash of the record before it (the genesis hash at position 0).
pub open spec fn sound_at(records: Seq<LedgerRecord>, i: int) -> bool {
    records[i].sealed() && records[i].prev_hash@ == tip_of(records.take(i))
}

/// Audits a sequence of records as an independent verifier would: every
/// digest is recomputed and every link is followed. Returns the position of
/// the first record that is not sound, or `None` when all are.
pub fn audit_chain(records: &[LedgerRecord]) -> (broken: Option<usize>)
    ensures
        broken.is_none() <==> (forall|i: int|
            0 <= i < records@.len() ==> #[trigger] sound_at(records@, i)),
        broken.is_none() ==> chain_linked(records@),
        broken.is_some() ==> {
            &&& broken.unwrap() < records@.len()
            &&& !sound_at(records@, broken.unwrap() as int)
            &&& forall|i: int| 0 <= i < broken.unwrap() ==> #[trigger] sound_at(records@, i)
        },
{
    let mut i: usize = 0;
    while i < records.len()
        invariant
            i <= records@.len(),
            forall|k: int| 0 <= k < i ==> #[trigger] sound_at(records@, k),
        decreases records@.len() - i,
    {
        let linked = if i == 0 {
            records[i].prev_hash.as_str().is_empty()
        } else {
            records[i].prev_hash == records[i - 1].self_hash
        };
        proof {
            let before = records@.take(i as int);
            if i == 0 {
                assert(tip_of(before) == genesis_hash());
                assert(records@[0].prev_hash@.len() == 0 ==> records@[0].prev_hash@
                    =~= genesis_hash());
            } else {
                assert(before.last() == records@[i - 1]);
            }
            assert(linked == (records@[i as int].prev_hash@ == tip_of(before)));
        }
        if !linked || !records[i].is_sealed() {
            assert(!sound_at(records@, i as int));
            return Some(i);
        }
        i += 1;
    }
    proof {
        assert forall|k: int| 0 <= k < records@.len() implies (#[trigger] records@[k]).prev_hash@
            == tip_of(records@.take(k)) by {
            assert(sound_at(records@, k));
        }
    }
    None
}

/// The records about `subject`, in the order in which they stand in
/// `records`.
pub open spec fn records_of(records: Seq<LedgerRecord>, subject: u32) -> Seq<LedgerRecord>
    decreases records.len(),
{
    if records.len() == 0 {
        Seq::<LedgerRecord>::empty()
    } else if records.last().subject() == subject {
        records_of(records.drop_last(), subject).push(records.last())
    } else {
        records_of(records.drop_last(), subject)
    }
}

/// Append-only store of hash-linked records.
#[derive(Debug)]
pub struct Ledger {
    events: Vec<LedgerRecord>,
    last_hash: String,
}

impl Ledger {
    /// The records of the ledger, in insertion order.
    pub closed spec fn records(&self) -> Seq<LedgerRecord> {
        self.events@
    }

    /// The hash that the next record must name as its predecessor.
    pub closed spec fn tip(&self) -> Seq<char> {
        self.last_hash@
    }

    /// The ledger's invariant: the tip is the own hash of the last record
    /// (the genesis hash while the ledger is empty), and the records are
    /// linked.
    #[verifier::type_invariant]
    spec fn linked(&self) -> bool {
        &&& self.last_hash@ == tip_of(self.events@)
        &&& chain_linked(self.events@)
    }

    /// An empty ledger, whose tip is the genesis hash.
    pub fn new() -> (ledger: Ledger)
        ensures
            ledger.records() == Seq::<LedgerRecord>::empty(),
            ledger.tip() == genesis_hash(),
    {
        Ledger { events: Vec::new(), last_hash: String::new() }
    }

    /// Appends `record` if it names the current tip as its predecessor, and
    /// makes its own hash the new tip. Otherwise the append fails with
    /// `HashMismatch` and the ledger is left as it was. Records already in the
    /// ledger are never changed or removed.
    pub fn append(&mut self, record: LedgerRecord) -> (res: Result<(), HashMismatch>)
        ensures
            res.is_ok() <==> record.prev_hash@ == old(self).tip(),
            res.is_ok() ==> final(self).records() == old(self).records().push(record),
            res.is_ok() ==> final(self).tip() == record.self_hash@,
            res.is_err() ==> final(self).records() == old(self).records(),
            res.is_err() ==> final(self).tip() == old(self).tip(),
            chain_linked(final(self).records()),
            final(self).tip() == tip_of(final(self).records()),
    {
        proof {
            use_type_invariant(&*self);
        }
        if !(record.prev_hash == self.last_hash) {
            return Err(HashMismatch);
        }
        let tip = record.self_hash.clone();
        let mut taken = Ledger::new();
        core::mem::swap(self, &mut taken);
        let mut events = taken.events;
        events.push(record);
        proof {
            let before = old(self).records();
            let after = events@;
            assert(after == before.push(record));
            assert forall|i: int| 0 <= i < after.len() implies (#[trigger] after[i]).prev_hash@
                == tip_of(after.take(i)) by {
                if i < before.len() {
                    assert(after.take(i) =~= before.take(i));
                    assert(after[i] == before[i]);
                } else {
                    assert(after.take(i) =~= before);
                }
            }
        }
        *self = Ledger { events, last_hash: tip };
        Ok(())
    }

    /// The current tip hash.
    pub fn last_hash(&self) -> (tip: &str)
        ensures
            tip@ == self.tip(),
            tip@ == tip_of(self.records()),
    {
        proof {
            use_type_invariant(self);
        }
        self.last_hash.as_str()
    }

    /// The number of records.
    pub fn len(&self) -> (n: usize)
        ensures
            n == self.records().len(),
    {
        self.events.len()
    }

    /// The records about `actor_id`, in insertion order.
    pub fn events_for_actor(&self, actor_id: u32) -> (found: Vec<&LedgerRecord>)
        ensures
            found@.len() == records_of(self.records(), actor_id).len(),
            forall|k: int|
                0 <= k < found@.len() ==> *(#[trigger] found@[k]) == records_of(
                    self.records(),
                    actor_id,
                )[k],
    {
        let mut found: Vec<&LedgerRecord> = Vec::new();
        let mut i: usize = 0;
        while i < self.events.len()
            invariant
                i <= self.events@.len(),
                found@.len() == records_of(self.events@.take(i as int), actor_id).len(),
                forall|k: int|
                    0 <= k < found@.len() ==> *(#[trigger] found@[k]) == records_of(
                        self.events@.take(i as int),
                        actor_id,
                    )[k],
            decreases self.events@.len() - i,
        {
            proof {
                assert(self.events@.take(i + 1).drop_last() =~= self.events@.take(i as int));
            }
            if self.events[i].verdict.primary_site == actor_id {
                found.push(&self.events[i]);
            }
            i += 1;
        }
        proof {
            assert(self.events@.take(i as int) =~= self.events@);
        }
        found
    }

    /// The full sequence of records, in insertion order.
    pub fn all_events(&self) -> (all: &[LedgerRecord])
        ensures
            all@ == self.records(),
            chain_linked(all@),
    {
        proof {
            use_type_invariant(self);
        }
        self.events.as_slice()
    }
}

impl Default for Ledger {
    /// An empty ledger, as `Ledger::new` gives it.
    fn default() -> (ledger: Ledger)
        ensures
            ledger.records() == Seq::<LedgerRecord>::empty(),
            ledger.tip() == genesis_hash(),
    {
        Ledger::new()
    }
}

/// Hash-chain integrity: in a linked sequence every record after the first
/// names the own hash of the record just before it, and the first names the
/// genesis hash. Every ledger holds a linked sequence at all times.
pub proof fn lemma_chain_integrity(records: Seq<LedgerRecord>)
    requires
        chain_linked(records),
    ensures
        forall|i: int|
            0 < i < records.len() ==> (#[trigger] records[i]).prev_hash@ == records[i
                - 1].self_hash@,
        records.len() > 0 ==> records[0].prev_hash@ == genesis_hash(),
{
    assert forall|i: int| 0 < i < records.len() implies (#[trigger] records[i]).prev_hash@
        == records[i - 1].self_hash@ by {
        assert(records.take(i).last() == records[i - 1]);
    }
    if records.len() > 0 {
        assert(records[0].prev_hash@ == tip_of(records.take(0)));
    }
}

/// What `records_of` holds: every record of it is about `subject`, and it is
/// as long as `records` when every record is about `subject`.
pub proof fn lemma_records_of_subject(records: Seq<LedgerRecord>, subject: u32)
    ensures
        records_of(records, subject).len() <= records.len(),
        forall|k: int|
            0 <= k < records_of(records, subject).len() ==> (#[trigger] records_of(
                records,
                subject,
            )[k]).subject() == subject && records.contains(records_of(records, subject)[k]),
    decreases records.len(),
{
    if records.len() > 0 {
        lemma_records_of_subject(records.drop_last(), subject);
        let rest = records_of(records.drop_last(), subject);
        assert forall|k: int| 0 <= k < records_of(records, subject).len() implies (
        #[trigger] records_of(records, subject)[k]).subject() == subject && records.contains(
            records_of(records, subject)[k],
        ) by {
            if k < rest.len() {
                let w = choose|w: int|
                    0 <= w < records.drop_last().len() && records.drop_last()[w] == rest[k];
                assert(records[w] == rest[k]);
            } else {
                assert(records[records.len() - 1] == records.last());
            }
        }
    }
}

} // verus!
