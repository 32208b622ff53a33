//! The records of all batch proofs, each found by its batch id.
use crate::proofs::{
    current_time, BatchProofRecord, BatchProofRecordView, UpdateProofStatusMessage,
};
use std::time::SystemTime;
use vstd::hash_map::StringHashMap;
use vstd::prelude::*;

verus! {

/// Batch proof records, in the order in which their ids first came, and the position of each id.
pub struct ProofTable {
    records: Vec<BatchProofRecord>,
    positions: StringHashMap<usize>,
}

/// Whether `records` lists, each once, exactly those records of `table` that `picked` picks.
pub open spec fn lists_picked(
    records: Seq<BatchProofRecordView>,
    table: Map<Seq<char>, BatchProofRecordView>,
    picked: spec_fn(BatchProofRecordView) -> bool,
) -> bool {
    &&& forall|i: int|
        0 <= i < records.len() ==> {
            let record = #[trigger] records[i];
            &&& table.contains_key(record.batch_id)
            &&& table[record.batch_id] == record
            &&& picked(record)
        }
    &&& forall|id: Seq<char>|
        #[trigger] table.contains_key(id) && picked(table[id]) ==> records.contains(table[id])
    &&& records.no_duplicates()
}

/// Whether `after` is `before` with every retriable record, and no other, reset at some time.
pub open spec fn all_retried(
    before: Map<Seq<char>, BatchProofRecordView>,
    after: Map<Seq<char>, BatchProofRecordView>,
) -> bool {
    &&& after.dom() == before.dom()
    &&& forall|id: Seq<char>| #[trigger]
        before.contains_key(id) ==> after[id] == if before[id].is_retriable() {
            before[id].reset(after[id].updated_at)
        } else {
            before[id]
        }
}

/// Whether `retried` lists, each once, exactly the ids of the retriable records of `table`, each
/// with the count of its failures.
pub open spec fn lists_retried(
    retried: Seq<(Seq<char>, u32)>,
    table: Map<Seq<char>, BatchProofRecordView>,
) -> bool {
    &&& retried.no_duplicates()
    &&& forall|id: Seq<char>, count: u32| #[trigger]
        retried.contains((id, count)) <==> {
            &&& table.contains_key(id)
            &&& table[id].is_retriable()
            &&& table[id].retry_count == count
        }
}

impl View for ProofTable {
    type V = Map<Seq<char>, BatchProofRecordView>;

    closed spec fn view(&self) -> Map<Seq<char>, BatchProofRecordView> {
        Map::new(
            |id: Seq<char>| self.positions@.contains_key(id),
            |id: Seq<char>| self.records@[self.positions@[id] as int]@,
        )
    }
}

impl ProofTable {
    /// Every record stands at the position of its own batch id, and every position holds one.
    pub closed spec fn wf(self) -> bool {
        &&& forall|id: Seq<char>| #[trigger]
            self.positions@.contains_key(id) ==> {
                &&& self.positions@[id] < self.records@.len()
                &&& self.records@[self.positions@[id] as int].batch_id@ == id
            }
        &&& forall|i: int|
            0 <= i < self.records@.len() ==> {
                let id = (#[trigger] self.records@[i]).batch_id@;
                &&& self.positions@.contains_key(id)
                &&& self.positions@[id] == i
            }
    }

    /// Every record is filed under its own batch id.
    pub proof fn lemma_filed_under_own_id(self)
        requires
            self.wf(),
        ensures
            forall|id: Seq<char>| #[trigger] self@.contains_key(id) ==> self@[id].batch_id == id,
    {
    }

    /// A table without records.
    pub fn new() -> (table: Self)
        ensures
            table.wf(),
            table@ == Map::<Seq<char>, BatchProofRecordView>::empty(),
    {
        let table = ProofTable { records: Vec::new(), positions: StringHashMap::new() };
        assert(table@ =~= Map::<Seq<char>, BatchProofRecordView>::empty());
        table
    }

    /// How many records there are.
    pub fn len(&self) -> (count: usize)
        requires
            self.wf(),
        ensures
            count == self@.len(),
    {
        proof {
            let n = self.records@.len() as int;
            let indices = vstd::set_lib::set_int_range(0, n);
            let id_at = |i: int| self.records@[i].batch_id@;
            vstd::set_lib::lemma_int_range(0, n);
            assert forall|id: Seq<char>| indices.map(id_at).contains(id) <==> self@.dom().contains(
                id,
            ) by {
                if self@.dom().contains(id) {
                    let i = self.positions@[id] as int;
                    assert(indices.contains(i) && id == id_at(i));
                }
            }
            assert(indices.map(id_at) =~= self@.dom());
            vstd::set_lib::lemma_map_size(indices, self@.dom(), id_at);
        }
        self.records.len()
    }

    /// Files `record` under its batch id, in place of what was there.
    pub fn insert(&mut self, record: BatchProofRecord)
        requires
            old(self).wf(),
        ensures
            final(self).wf(),
            final(self)@ == old(self)@.insert(record@.batch_id, record@),
    {
        let known = match self.positions.get(record.batch_id.as_str()) {
            Some(position) => Some(*position),
            None => None,
        };
        match known {
            Some(position) => {
                self.records[position] = record;
            },
            None => {
                let id = record.batch_id.clone();
                self.positions.insert(id, self.records.len());
                self.records.push(record);
            },
        }
        assert(self@ =~= old(self)@.insert(record@.batch_id, record@));
    }

    /// The record of the batch `batch_id`, if there is one.
    pub fn get(&self, batch_id: &str) -> (found: Option<&BatchProofRecord>)
        requires
            self.wf(),
        ensures
            match found {
                Some(record) => self@.contains_key(batch_id@) && self@[batch_id@] == record@,
                None => !self@.contains_key(batch_id@),
            },
    {
        match self.positions.get(batch_id) {
            Some(position) => Some(&self.records[*position]),
            None => None,
        }
    }

    /// Takes in a report that comes at `now`, if it is on a batch that is known.
    pub fn report_at(&mut self, message: UpdateProofStatusMessage, now: SystemTime) -> (found: bool)
        requires
            old(self).wf(),
            old(self)@.contains_key(message@.batch_id) ==> old(
                self,
            )@[message@.batch_id].can_report(message@.new_status),
        ensures
            final(self).wf(),
            found == old(self)@.contains_key(message@.batch_id),
            final(self)@ == if found {
                old(self)@.insert(
                    message@.batch_id,
                    old(self)@[message@.batch_id].reported(
                        message@.new_status,
                        message@.error_message,
                        now,
                    ),
                )
            } else {
                old(self)@
            },
    {
        let known = match self.positions.get(message.batch_id.as_str()) {
            Some(position) => Some(*position),
            None => None,
        };
        match known {
            Some(position) => {
                self.records[position].report(message.new_status, message.error_message, now);
                assert(self@ =~= old(self)@.insert(
                    message@.batch_id,
                    old(self)@[message@.batch_id].reported(
                        message@.new_status,
                        message@.error_message,
                        now,
                    ),
                ));
                true
            },
            None => false,
        }
    }

    /// The records of the proofs that are not yet verified.
    pub fn unsettled(&self) -> (records: Vec<&BatchProofRecord>)
        requires
            self.wf(),
        ensures
            lists_picked(
                records.deep_view(),
                self@,
                |record: BatchProofRecordView| record.is_unsettled(),
            ),
    {
        let mut picked: Vec<&BatchProofRecord> = Vec::new();
        let mut i: usize = 0;
        while i < self.records.len()
            invariant
                i <= self.records@.len(),
                self.wf(),
                forall|k: int|
                    0 <= k < picked@.len() ==> {
                        let id = (#[trigger] picked@[k])@.batch_id;
                        &&& picked@[k]@.is_unsettled()
                        &&& self.positions@.contains_key(id)
                        &&& self.positions@[id] < i
                        &&& self.records@[self.positions@[id] as int]@ == picked@[k]@
                    },
                forall|k: int, l: int|
                    0 <= k < l < picked@.len() ==> (#[trigger] picked@[k])@.batch_id != (
                    #[trigger] picked@[l])@.batch_id,
                forall|j: int|
                    0 <= j < i && (#[trigger] self.records@[j])@.is_unsettled()
                        ==> picked.deep_view().contains(self.records@[j]@),
            decreases self.records@.len() - i,
        {
            let ghost before = picked.deep_view();
            if self.records[i].is_unsettled() {
                picked.push(&self.records[i]);
                proof {
                    assert(picked.deep_view() =~= before.push(self.records@[i as int]@));
                    assert(picked.deep_view()[before.len() as int] == self.records@[i as int]@);
                    assert forall|j: int|
                        0 <= j < i && (#[trigger] self.records@[j])@.is_unsettled()
                    implies picked.deep_view().contains(self.records@[j]@) by {
                        let k = before.index_of(self.records@[j]@);
                        assert(picked.deep_view()[k] == self.records@[j]@);
                    }
                }
            }
            i = i + 1;
        }
        picked
    }

    /// Takes every failed proof up again that has not failed too often, each at the time of the
    /// clock, and gives the ids of their batches, each with the count of its failures.
    pub fn retry_failed(&mut self) -> (retried: Vec<(String, u32)>)
        requires
            old(self).wf(),
        ensures
            final(self).wf(),
            all_retried(old(self)@, final(self)@),
            lists_retried(retried.deep_view(), old(self)@),
    {
        let mut retried: Vec<(String, u32)> = Vec::new();
        let mut i: usize = 0;
        while i < self.records.len()
            invariant
                i <= self.records@.len(),
                self.records@.len() == old(self).records@.len(),
                self.positions@ == old(self).positions@,
                old(self).wf(),
                forall|j: int|
                    0 <= j < i ==> (#[trigger] self.records@[j])@ == if old(
                        self,
                    ).records@[j]@.is_retriable() {
                        old(self).records@[j]@.reset(self.records@[j]@.updated_at)
                    } else {
                        old(self).records@[j]@
                    },
                forall|j: int|
                    i <= j < self.records@.len() ==> #[trigger] self.records@[j] == old(
                        self,
                    ).records@[j],
                forall|k: int|
                    0 <= k < retried@.len() ==> {
                        let id = (#[trigger] retried@[k]).0@;
                        &&& self.positions@.contains_key(id)
                        &&& self.positions@[id] < i
                        &&& old(self).records@[self.positions@[id] as int]@.is_retriable()
                        &&& old(self).records@[self.positions@[id] as int].retry_count
                            == retried@[k].1
                    },
                forall|k: int, l: int|
                    0 <= k < l < retried@.len() ==> (#[trigger] retried@[k]).0@ != (
                    #[trigger] retried@[l]).0@,
                forall|j: int|
                    0 <= j < i && (#[trigger] old(self).records@[j])@.is_retriable()
                        ==> retried.deep_view().contains(
                        (old(self).records@[j]@.batch_id, old(self).records@[j]@.retry_count),
                    ),
            decreases self.records@.len() - i,
        {
            if self.records[i].is_retriable() {
                let ghost before = retried.deep_view();
                let id = self.records[i].batch_id.clone();
                let count: u32 = self.records[i].retry_count;
                let now = current_time();
                self.records[i].reset(now);
                retried.push((id, count));
                proof {
                    assert(retried.deep_view() =~= before.push((id@, count)));
                    assert(retried.deep_view()[before.len() as int] == (id@, count));
                    assert forall|j: int|
                        0 <= j < i && (#[trigger] old(self).records@[j])@.is_retriable()
                    implies retried.deep_view().contains(
                        (old(self).records@[j]@.batch_id, old(self).records@[j]@.retry_count),
                    ) by {
                        let entry = (
                            old(self).records@[j]@.batch_id,
                            old(self).records@[j]@.retry_count,
                        );
                        let k = before.index_of(entry);
                        assert(retried.deep_view()[k] == entry);
                    }
                }
            }
            i = i + 1;
        }
        assert(self@.dom() =~= old(self)@.dom());
        proof {
            let listed = retried.deep_view();
            assert forall|id: Seq<char>, count: u32| #[trigger]
                listed.contains((id, count)) <==> {
                    &&& old(self)@.contains_key(id)
                    &&& old(self)@[id].is_retriable()
                    &&& old(self)@[id].retry_count == count
                } by {
                if listed.contains((id, count)) {
                    let k = listed.index_of((id, count));
                    assert(retried@[k].0@ == id);
                }
                if old(self)@.contains_key(id) {
                    assert(old(self).records@[old(self).positions@[id] as int].batch_id@ == id);
                }
            }
        }
        retried
    }
}

} // verus!
