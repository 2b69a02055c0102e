//! Keyed tables with first-write-wins inserts.
//!
//! A table holds records in the order in which they arrived and never holds
//! two records with the same key. Writing a record whose key is already there
//! changes nothing: the record that came first stays.

use vstd::prelude::*;

verus! {

/// What a record holds, as far as it says which key identifies the record
/// within its table.
pub trait Keyed {
    /// The values that identify records.
    type Key;

    /// The key of this record.
    spec fn key(self) -> Self::Key;
}

/// A record that a table can hold: it stands for a keyed value, and two
/// records can be asked whether they share a key.
pub trait Record: Sized {
    /// What a record holds.
    type Data: Keyed;

    /// What this record holds.
    spec fn data(&self) -> Self::Data;

    /// Whether two records have the same key.
    fn same_key(&self, other: &Self) -> (r: bool)
        ensures
            r == (self.data().key() == other.data().key()),
    ;
}

/// What each of the records holds.
pub open spec fn data_of<R: Record>(records: Seq<R>) -> Seq<R::Data> {
    Seq::new(records.len(), |i: int| records[i].data())
}

/// Whether some record among `rows` has the key `k`.
pub open spec fn has_key<D: Keyed>(rows: Seq<D>, k: D::Key) -> bool {
    exists|i: int| 0 <= i < rows.len() && (#[trigger] rows[i]).key() == k
}

/// The first position at or after `from` of a record with the key `k` among
/// `rows`, if there is one.
pub open spec fn first_with_key<D: Keyed>(rows: Seq<D>, k: D::Key, from: int) -> Option<int>
    decreases rows.len() - from,
{
    if from < 0 || from >= rows.len() {
        None
    } else if rows[from].key() == k {
        Some(from)
    } else {
        first_with_key(rows, k, from + 1)
    }
}

/// A key has a first position exactly where some record has it, and that
/// position holds a record with the key.
pub proof fn lemma_first_with_key<D: Keyed>(rows: Seq<D>, k: D::Key, from: int)
    requires
        0 <= from,
    ensures
        first_with_key(rows, k, from) is Some <==> exists|i: int|
            from <= i < rows.len() && (#[trigger] rows[i]).key() == k,
        first_with_key(rows, k, from) matches Some(i) ==> from <= i < rows.len() && rows[i].key()
            == k,
    decreases rows.len() - from,
{
    if from < rows.len() && rows[from].key() != k {
        lemma_first_with_key(rows, k, from + 1);
    }
}

/// Whether no two records among `rows` share a key.
pub open spec fn distinct_keys<D: Keyed>(rows: Seq<D>) -> bool {
    forall|i: int, j: int|
        0 <= i < rows.len() && 0 <= j < rows.len() && i != j ==> (#[trigger] rows[i]).key() != (
        #[trigger] rows[j]).key()
}

/// The table after one write: a record whose key is new goes to the end, any
/// other is dropped.
pub open spec fn upsert<D: Keyed>(rows: Seq<D>, row: D) -> Seq<D> {
    if has_key(rows, row.key()) {
        rows
    } else {
        rows.push(row)
    }
}

/// The table after a batch of writes, made in the order of the batch.
pub open spec fn upsert_all<D: Keyed>(rows: Seq<D>, batch: Seq<D>) -> Seq<D>
    decreases batch.len(),
{
    if batch.len() == 0 {
        rows
    } else {
        upsert(upsert_all(rows, batch.drop_last()), batch.last())
    }
}

/// A write keeps every key that was there, and adds the key that was written.
pub proof fn lemma_upsert_keys<D: Keyed>(rows: Seq<D>, row: D, k: D::Key)
    ensures
        has_key(upsert(rows, row), k) <==> has_key(rows, k) || k == row.key(),
{
    let after = upsert(rows, row);
    if has_key(rows, k) {
        let i = choose|i: int| 0 <= i < rows.len() && (#[trigger] rows[i]).key() == k;
        assert(after[i].key() == k);
    }
    if k == row.key() && !has_key(rows, row.key()) {
        assert(after[rows.len() as int].key() == k);
    }
}

/// A write keeps the keys of a table distinct.
pub proof fn lemma_upsert_distinct<D: Keyed>(rows: Seq<D>, row: D)
    requires
        distinct_keys(rows),
    ensures
        distinct_keys(upsert(rows, row)),
{
    let after = upsert(rows, row);
    if !has_key(rows, row.key()) {
        assert forall|i: int, j: int|
            0 <= i < after.len() && 0 <= j < after.len() && i != j implies (
        #[trigger] after[i]).key() != (#[trigger] after[j]).key() by {}
    }
}

/// A batch of writes keeps every key that was there, adds the keys of the
/// batch, and never shortens the table.
pub proof fn lemma_upsert_all_keys<D: Keyed>(rows: Seq<D>, batch: Seq<D>, k: D::Key)
    ensures
        has_key(upsert_all(rows, batch), k) <==> has_key(rows, k) || has_key(batch, k),
        upsert_all(rows, batch).len() >= rows.len(),
        upsert_all(rows, batch).len() <= rows.len() + batch.len(),
    decreases batch.len(),
{
    if batch.len() > 0 {
        let head = batch.drop_last();
        lemma_upsert_all_keys(rows, head, k);
        lemma_upsert_keys(upsert_all(rows, head), batch.last(), k);
        if has_key(batch, k) {
            let i = choose|i: int| 0 <= i < batch.len() && (#[trigger] batch[i]).key() == k;
            if i < head.len() {
                assert(head[i].key() == k);
            }
        }
    }
}

/// A batch of writes keeps the keys of a table distinct.
pub proof fn lemma_upsert_all_distinct<D: Keyed>(rows: Seq<D>, batch: Seq<D>)
    requires
        distinct_keys(rows),
    ensures
        distinct_keys(upsert_all(rows, batch)),
    decreases batch.len(),
{
    if batch.len() > 0 {
        lemma_upsert_all_distinct(rows, batch.drop_last());
        lemma_upsert_distinct(upsert_all(rows, batch.drop_last()), batch.last());
    }
}

/// A batch all of whose keys are in the table already changes nothing.
pub proof fn lemma_upsert_all_present<D: Keyed>(rows: Seq<D>, batch: Seq<D>)
    requires
        forall|i: int| 0 <= i < batch.len() ==> has_key(rows, (#[trigger] batch[i]).key()),
    ensures
        upsert_all(rows, batch) == rows,
    decreases batch.len(),
{
    if batch.len() > 0 {
        let head = batch.drop_last();
        assert forall|i: int| 0 <= i < head.len() implies has_key(
            rows,
            (#[trigger] head[i]).key(),
        ) by {}
        lemma_upsert_all_present(rows, head);
    }
}

/// Writing the same batch a second time changes nothing: neither the records
/// nor their number.
pub proof fn lemma_upsert_all_idempotent<D: Keyed>(rows: Seq<D>, batch: Seq<D>)
    ensures
        upsert_all(upsert_all(rows, batch), batch) == upsert_all(rows, batch),
{
    let once = upsert_all(rows, batch);
    assert forall|i: int| 0 <= i < batch.len() implies has_key(
        once,
        (#[trigger] batch[i]).key(),
    ) by {
        lemma_upsert_all_keys(rows, batch, batch[i].key());
    }
    lemma_upsert_all_present(once, batch);
}

/// A record that belongs to a document, and can be asked to which.
pub trait OwnedRecord: Record {
    /// The identity of the document that a record with this content belongs
    /// to.
    spec fn owner_of(data: Self::Data) -> u128;

    /// Whether this record belongs to the document `sbom_id`.
    fn owned_by(&self, sbom_id: u128) -> (r: bool)
        ensures
            r == (Self::owner_of(self.data()) == sbom_id),
    ;
}

/// The first `n` of `rows` without the records of the document `sbom_id`, in
/// their order.
pub open spec fn without_within<R: OwnedRecord>(rows: Seq<R::Data>, sbom_id: u128, n: nat) -> Seq<
    R::Data,
>
    decreases n,
{
    if n == 0 {
        Seq::empty()
    } else {
        let before = without_within::<R>(rows, sbom_id, (n - 1) as nat);
        if R::owner_of(rows[n - 1]) == sbom_id {
            before
        } else {
            before.push(rows[n - 1])
        }
    }
}

/// The table without the records of the document `sbom_id`: every other
/// record stays, in its place among the others.
pub open spec fn without<R: OwnedRecord>(rows: Seq<R::Data>, sbom_id: u128) -> Seq<R::Data> {
    without_within::<R>(rows, sbom_id, rows.len())
}

/// What is left of a table without the records of a document holds no record
/// of that document, holds only records of the table, and has distinct keys
/// if the table has.
pub proof fn lemma_without<R: OwnedRecord>(rows: Seq<R::Data>, sbom_id: u128, n: nat)
    requires
        n <= rows.len(),
    ensures
        forall|i: int|
            0 <= i < without_within::<R>(rows, sbom_id, n).len() ==> R::owner_of(
                #[trigger] without_within::<R>(rows, sbom_id, n)[i],
            ) != sbom_id,
        forall|i: int|
            0 <= i < without_within::<R>(rows, sbom_id, n).len() ==> exists|j: int|
                0 <= j < n && rows[j] == #[trigger] without_within::<R>(rows, sbom_id, n)[i],
        without_within::<R>(rows, sbom_id, n).len() <= n,
        distinct_keys(rows) ==> distinct_keys(without_within::<R>(rows, sbom_id, n)),
    decreases n,
{
    if n > 0 {
        let now = without_within::<R>(rows, sbom_id, n);
        lemma_without::<R>(rows, sbom_id, (n - 1) as nat);
        assert forall|i: int| 0 <= i < now.len() implies exists|j: int|
            0 <= j < n && rows[j] == #[trigger] now[i] by {}
        if distinct_keys(rows) && R::owner_of(rows[n - 1]) != sbom_id {
            assert forall|i: int, j: int|
                0 <= i < now.len() && 0 <= j < now.len() && i != j implies (#[trigger] now[i]).key()
                != (#[trigger] now[j]).key() by {}
        }
    }
}

/// A table of records with distinct keys, in the order of their arrival.
pub struct Table<R: Record> {
    rows: Vec<R>,
}

impl<R: Record> View for Table<R> {
    type V = Seq<R::Data>;

    closed spec fn view(&self) -> Seq<R::Data> {
        data_of(self.rows@)
    }
}

impl<R: Record> Table<R> {
    /// Whether the keys of the table are distinct. An empty table is, and
    /// writing keeps it so.
    pub open spec fn wf(&self) -> bool {
        distinct_keys(self@)
    }

    /// An empty table.
    pub fn new() -> (t: Self)
        ensures
            t@ == Seq::<R::Data>::empty(),
            t.wf(),
    {
        let t = Table { rows: Vec::new() };
        t
    }

    /// The number of records.
    pub fn len(&self) -> (n: usize)
        ensures
            n == self@.len(),
    {
        self.rows.len()
    }

    /// The record at position `i`.
    pub fn get(&self, i: usize) -> (r: &R)
        requires
            i < self@.len(),
        ensures
            r.data() == self@[i as int],
    {
        &self.rows[i]
    }

    /// The first position of a record that shares its key with `probe`, if
    /// there is one.
    pub fn position(&self, probe: &R) -> (r: Option<usize>)
        ensures
            r is Some <==> has_key(self@, probe.data().key()),
            r matches Some(i) ==> i < self@.len() && self@[i as int].key() == probe.data().key(),
            match r {
                Some(i) => first_with_key(self@, probe.data().key(), 0) == Some(i as int),
                None => first_with_key(self@, probe.data().key(), 0) is None,
            },
    {
        let mut i: usize = 0;
        while i < self.rows.len()
            invariant
                i <= self.rows@.len(),
                self@.len() == self.rows@.len(),
                forall|j: int| 0 <= j < i ==> (#[trigger] self@[j]).key() != probe.data().key(),
                first_with_key(self@, probe.data().key(), 0) == first_with_key(
                    self@,
                    probe.data().key(),
                    i as int,
                ),
            decreases self.rows@.len() - i,
        {
            if self.rows[i].same_key(probe) {
                return Some(i);
            }
            i += 1;
        }
        None
    }

    /// Writes one record: it is added at the end if its key is new, and
    /// dropped if the table holds a record with that key. Returns whether it
    /// was added.
    pub fn insert(&mut self, row: R) -> (added: bool)
        ensures
            final(self)@ == upsert(old(self)@, row.data()),
            added == !has_key(old(self)@, row.data().key()),
            old(self).wf() ==> final(self).wf(),
    {
        proof {
            if self.wf() {
                lemma_upsert_distinct(self@, row.data());
            }
        }
        match self.position(&row) {
            Some(_) => false,
            None => {
                self.rows.push(row);
                true
            },
        }
    }

    /// Writes a batch of records in its order, each as [`Table::insert`] does.
    pub fn insert_all(&mut self, batch: Vec<R>)
        ensures
            final(self)@ == upsert_all(old(self)@, data_of(batch@)),
            old(self).wf() ==> final(self).wf(),
    {
        let ghost all = data_of(batch@);
        for row in it: batch
            invariant
                data_of(it.seq()) == all,
                self@ == upsert_all(old(self)@, all.take(it.index() as int)),
                old(self).wf() ==> self.wf(),
        {
            proof {
                let now = all.take(it.index() + 1);
                assert(now.drop_last() =~= all.take(it.index() as int));
            }
            self.insert(row);
        }
        assert(all.take(all.len() as int) =~= all);
    }

    /// Hands out the records in their order.
    pub fn into_rows(self) -> (rows: Vec<R>)
        ensures
            data_of(rows@) == self@,
    {
        self.rows
    }
}

impl<R: OwnedRecord> Table<R> {
    /// Removes the records of the document `sbom_id`. Every other record
    /// stays, in its place among the others.
    pub fn delete_owned(&mut self, sbom_id: u128)
        ensures
            final(self)@ == without::<R>(old(self)@, sbom_id),
            old(self).wf() ==> final(self).wf(),
    {
        let ghost all = self@;
        let mut rows: Vec<R> = Vec::new();
        std::mem::swap(&mut self.rows, &mut rows);
        for row in it: rows
            invariant
                data_of(it.seq()) == all,
                self@ == without_within::<R>(all, sbom_id, it.index() as nat),
        {
            if !row.owned_by(sbom_id) {
                self.rows.push(row);
            }
        }
        proof {
            lemma_without::<R>(all, sbom_id, all.len());
        }
    }
}

} // verus!
