//! A keyed table in memory, the storage behind the in-memory repositories.

use vstd::prelude::*;
use crate::data_type::id::Id;

verus! {

/// A record that a [`Table`] can keep: its mathematical value determines
/// the key it is filed under.
pub trait Record: View + Sized {
    /// The key of a record with the given value: the printed form of an
    /// identifier.
    spec fn key_of(value: Self::V) -> Seq<char>;

    fn key(&self) -> (id: &Id)
        ensures
            id@ == Self::key_of(self@),
    ;

    fn duplicate(&self) -> (copy: Self)
        ensures
            copy@ == self@,
    ;
}

/// No key occurs in two rows.
pub open spec fn distinct_keys<R: Record>(rows: Seq<R::V>) -> bool {
    forall|i: int, j: int|
        0 <= i < rows.len() && 0 <= j < rows.len() && R::key_of(#[trigger] rows[i]) == R::key_of(
            #[trigger] rows[j],
        ) ==> i == j
}

/// Whether some row is filed under `key`.
pub open spec fn has_key<R: Record>(rows: Seq<R::V>, key: Seq<char>) -> bool {
    exists|i: int| 0 <= i < rows.len() && R::key_of(#[trigger] rows[i]) == key
}

/// The position of a row filed under `key`, where there is one.
pub open spec fn position_of<R: Record>(rows: Seq<R::V>, key: Seq<char>) -> int {
    choose|i: int| 0 <= i < rows.len() && R::key_of(#[trigger] rows[i]) == key
}

/// The rows as a map from key to value.
pub open spec fn filed<R: Record>(rows: Seq<R::V>) -> Map<Seq<char>, R::V> {
    Map::new(
        |key: Seq<char>| has_key::<R>(rows, key),
        |key: Seq<char>| rows[position_of::<R>(rows, key)],
    )
}

/// With distinct keys, the map holds each row under the row's own key.
pub proof fn lemma_filed_row<R: Record>(rows: Seq<R::V>, i: int)
    requires
        distinct_keys::<R>(rows),
        0 <= i < rows.len(),
    ensures
        filed::<R>(rows).contains_key(R::key_of(rows[i])),
        filed::<R>(rows)[R::key_of(rows[i])] == rows[i],
{
    let key = R::key_of(rows[i]);
    let j = position_of::<R>(rows, key);
    assert(i == j);
}

/// Every value of the map is one of the rows, filed under its own key.
pub proof fn lemma_filed_value<R: Record>(rows: Seq<R::V>, key: Seq<char>)
    requires
        filed::<R>(rows).contains_key(key),
    ensures
        exists|i: int|
            0 <= i < rows.len() && #[trigger] rows[i] == filed::<R>(rows)[key] && R::key_of(rows[i])
                == key,
{
    assert(has_key::<R>(rows, key));
    let i = position_of::<R>(rows, key);
    assert(rows[i] == filed::<R>(rows)[key]);
}

/// Writing a value over the row that has its key is an insertion.
proof fn lemma_filed_update<R: Record>(rows: Seq<R::V>, i: int, value: R::V)
    requires
        distinct_keys::<R>(rows),
        0 <= i < rows.len(),
        R::key_of(rows[i]) == R::key_of(value),
    ensures
        distinct_keys::<R>(rows.update(i, value)),
        filed::<R>(rows.update(i, value)) == filed::<R>(rows).insert(R::key_of(value), value),
{
    let after = rows.update(i, value);
    assert forall|a: int, b: int|
        0 <= a < after.len() && 0 <= b < after.len() && R::key_of(#[trigger] after[a]) == R::key_of(
            #[trigger] after[b],
        ) implies a == b by {
        assert(R::key_of(after[a]) == R::key_of(rows[a]));
        assert(R::key_of(after[b]) == R::key_of(rows[b]));
    }
    let wanted = filed::<R>(rows).insert(R::key_of(value), value);
    assert forall|key: Seq<char>| filed::<R>(after).contains_key(key) <==> wanted.contains_key(
        key,
    ) by {
        if filed::<R>(after).contains_key(key) {
            let a = position_of::<R>(after, key);
            assert(R::key_of(rows[a]) == key);
        }
        if wanted.contains_key(key) {
            if key == R::key_of(value) {
                assert(R::key_of(after[i]) == key);
            } else {
                let a = position_of::<R>(rows, key);
                assert(R::key_of(after[a]) == key);
            }
        }
    }
    assert forall|key: Seq<char>| filed::<R>(after).contains_key(key) implies filed::<R>(
        after,
    )[key] == wanted[key] by {
        let a = position_of::<R>(after, key);
        lemma_filed_row::<R>(after, a);
        if a != i {
            assert(after[a] == rows[a]);
            lemma_filed_row::<R>(rows, a);
        }
    }
    assert(filed::<R>(after) =~= wanted);
}

/// Adding a row under a key that no row has is an insertion.
proof fn lemma_filed_push<R: Record>(rows: Seq<R::V>, value: R::V)
    requires
        distinct_keys::<R>(rows),
        !has_key::<R>(rows, R::key_of(value)),
    ensures
        distinct_keys::<R>(rows.push(value)),
        filed::<R>(rows.push(value)) == filed::<R>(rows).insert(R::key_of(value), value),
{
    let after = rows.push(value);
    let last = rows.len() as int;
    assert forall|a: int, b: int|
        0 <= a < after.len() && 0 <= b < after.len() && R::key_of(#[trigger] after[a]) == R::key_of(
            #[trigger] after[b],
        ) implies a == b by {
        if a < last {
            assert(after[a] == rows[a]);
        }
        if b < last {
            assert(after[b] == rows[b]);
        }
    }
    let wanted = filed::<R>(rows).insert(R::key_of(value), value);
    assert forall|key: Seq<char>| filed::<R>(after).contains_key(key) <==> wanted.contains_key(
        key,
    ) by {
        if filed::<R>(after).contains_key(key) {
            let a = position_of::<R>(after, key);
            if a < last {
                assert(R::key_of(rows[a]) == key);
            }
        }
        if wanted.contains_key(key) {
            if key == R::key_of(value) {
                assert(R::key_of(after[last]) == key);
            } else {
                let a = position_of::<R>(rows, key);
                assert(R::key_of(after[a]) == key);
            }
        }
    }
    assert forall|key: Seq<char>| filed::<R>(after).contains_key(key) implies filed::<R>(
        after,
    )[key] == wanted[key] by {
        let a = position_of::<R>(after, key);
        lemma_filed_row::<R>(after, a);
        if a < last {
            assert(after[a] == rows[a]);
            lemma_filed_row::<R>(rows, a);
        }
    }
    assert(filed::<R>(after) =~= wanted);
}

/// Taking a row out removes its key.
proof fn lemma_filed_remove<R: Record>(rows: Seq<R::V>, i: int)
    requires
        distinct_keys::<R>(rows),
        0 <= i < rows.len(),
    ensures
        distinct_keys::<R>(rows.remove(i)),
        filed::<R>(rows.remove(i)) == filed::<R>(rows).remove(R::key_of(rows[i])),
{
    let after = rows.remove(i);
    let origin = |a: int| if a < i { a } else { a + 1 };
    assert forall|a: int| 0 <= a < after.len() implies #[trigger] after[a] == rows[origin(a)] by {
    }
    assert forall|a: int, b: int|
        0 <= a < after.len() && 0 <= b < after.len() && R::key_of(#[trigger] after[a]) == R::key_of(
            #[trigger] after[b],
        ) implies a == b by {
        assert(R::key_of(rows[origin(a)]) == R::key_of(rows[origin(b)]));
    }
    let wanted = filed::<R>(rows).remove(R::key_of(rows[i]));
    assert forall|key: Seq<char>| filed::<R>(after).contains_key(key) <==> wanted.contains_key(
        key,
    ) by {
        if filed::<R>(after).contains_key(key) {
            let a = position_of::<R>(after, key);
            assert(R::key_of(rows[origin(a)]) == key);
        }
        if wanted.contains_key(key) {
            let a = position_of::<R>(rows, key);
            if a < i {
                assert(R::key_of(after[a]) == key);
            } else {
                assert(a > i);
                assert(after[a - 1] == rows[origin(a - 1)]);
                assert(R::key_of(after[a - 1]) == key);
            }
        }
    }
    assert forall|key: Seq<char>| filed::<R>(after).contains_key(key) implies filed::<R>(
        after,
    )[key] == wanted[key] by {
        let a = position_of::<R>(after, key);
        lemma_filed_row::<R>(after, a);
        lemma_filed_row::<R>(rows, origin(a));
    }
    assert(filed::<R>(after) =~= wanted);
}

/// Records filed by key, at most one per key.
pub struct Table<R: Record> {
    rows: Vec<R>,
}

impl<R: Record> Table<R> {
    #[verifier::type_invariant]
    spec fn well_formed(&self) -> bool {
        distinct_keys::<R>(self.rows())
    }

    /// The values of the records, in the order in which the table holds
    /// them.
    pub closed spec fn rows(&self) -> Seq<R::V> {
        self.rows@.map_values(|record: R| record@)
    }

    /// The table as a map from key to value.
    pub open spec fn map(&self) -> Map<Seq<char>, R::V> {
        filed::<R>(self.rows())
    }

    pub fn new() -> (table: Table<R>)
        ensures
            table.rows() == Seq::<R::V>::empty(),
            table.map() == Map::<Seq<char>, R::V>::empty(),
    {
        let table = Table { rows: Vec::new() };
        assert(table.rows() =~= Seq::<R::V>::empty());
        assert(table.map() =~= Map::<Seq<char>, R::V>::empty());
        table
    }

    /// The number of rows.
    pub fn len(&self) -> (n: usize)
        ensures
            n == self.rows().len(),
    {
        self.rows.len()
    }

    /// The row at position `i`: the record that the map holds under its key.
    pub fn row(&self, i: usize) -> (record: &R)
        requires
            i < self.rows().len(),
        ensures
            record@ == self.rows()[i as int],
            self.map().contains_key(R::key_of(record@)),
            self.map()[R::key_of(record@)] == record@,
    {
        proof {
            use_type_invariant(self);
            lemma_filed_row::<R>(self.rows(), i as int);
        }
        &self.rows[i]
    }

    /// The position of the record filed under `id`, if there is one.
    fn position(&self, id: &Id) -> (found: Option<usize>)
        ensures
            match found {
                Some(i) => i < self.rows().len() && R::key_of(self.rows()[i as int]) == id@,
                None => !has_key::<R>(self.rows(), id@),
            },
    {
        let mut i: usize = 0;
        while i < self.rows.len()
            invariant
                i <= self.rows.len(),
                self.rows().len() == self.rows@.len(),
                forall|j: int| 0 <= j < i ==> R::key_of(#[trigger] self.rows()[j]) != id@,
            decreases self.rows.len() - i,
        {
            if *self.rows[i].key() == *id {
                return Some(i);
            }
            i += 1;
        }
        None
    }

    /// A copy of the record filed under `id`, if there is one.
    pub fn get(&self, id: &Id) -> (found: Option<R>)
        ensures
            match found {
                Some(record) => self.map().contains_key(id@) && record@ == self.map()[id@]
                    && R::key_of(record@) == id@,
                None => !self.map().contains_key(id@),
            },
    {
        match self.position(id) {
            Some(i) => {
                let record = self.row(i);
                Some(record.duplicate())
            },
            None => None,
        }
    }

    /// Files `record` under its key, in place of the record that was filed
    /// there, if there was one.
    pub fn put(&mut self, record: R)
        ensures
            final(self).map() == old(self).map().insert(R::key_of(record@), record@),
    {
        proof {
            use_type_invariant(&*self);
        }
        let found = self.position(record.key());
        let mut rows: Vec<R> = Vec::new();
        std::mem::swap(&mut rows, &mut self.rows);
        proof {
            match found {
                Some(i) => {
                    lemma_filed_update::<R>(old(self).rows(), i as int, record@);
                    assert(rows@.update(i as int, record).map_values(|r: R| r@) =~= old(
                        self,
                    ).rows().update(i as int, record@));
                },
                None => {
                    lemma_filed_push::<R>(old(self).rows(), record@);
                    assert(rows@.push(record).map_values(|r: R| r@) =~= old(self).rows().push(
                        record@,
                    ));
                },
            }
        }
        match found {
            Some(i) => {
                rows[i] = record;
            },
            None => {
                rows.push(record);
            },
        }
        self.rows = rows;
    }

    /// Takes out the row at position `i`.
    pub fn discard(&mut self, i: usize)
        requires
            i < old(self).rows().len(),
        ensures
            final(self).rows() == old(self).rows().remove(i as int),
            final(self).map() == old(self).map().remove(R::key_of(old(self).rows()[i as int])),
    {
        proof {
            use_type_invariant(&*self);
            lemma_filed_remove::<R>(self.rows(), i as int);
        }
        let mut rows: Vec<R> = Vec::new();
        std::mem::swap(&mut rows, &mut self.rows);
        assert(rows@.remove(i as int).map_values(|r: R| r@) =~= old(self).rows().remove(i as int));
        rows.remove(i);
        self.rows = rows;
    }

    /// Takes out the record filed under `id`, if there is one.
    pub fn remove(&mut self, id: &Id)
        ensures
            final(self).map() == old(self).map().remove(id@),
    {
        match self.position(id) {
            Some(i) => {
                self.discard(i);
            },
            None => {
                assert(self.map() =~= old(self).map().remove(id@));
            },
        }
    }
}

} // verus!
