//! The records of one section, in the order of the file, with an index from
//! their numbers to their places.

use std::collections::HashMap;
use vstd::arithmetic::div_mod::{lemma_fundamental_div_mod_converse, lemma_mod_multiples_basic};
use vstd::prelude::*;

use crate::data::record::Record;
use crate::to_bytes::{lemma_concat_cancel, put_bytes};

verus! {

broadcast use vstd::std_specs::hash::group_hash_axioms;

/// The place of the last of `rows` that has the number `id`.
pub open spec fn last_with_key<T: Record>(rows: Seq<T>, id: i32) -> Option<int>
    decreases rows.len(),
{
    if rows.len() == 0 {
        None
    } else if rows.last().key() == id {
        Some(rows.len() - 1)
    } else {
        last_with_key(rows.drop_last(), id)
    }
}

/// The record that the number `id` refers to: the last of `rows` that has
/// it.
pub open spec fn lookup<T: Record>(rows: Seq<T>, id: i32) -> Option<T> {
    match last_with_key(rows, id) {
        Some(j) => Some(rows[j]),
        None => None,
    }
}

/// The bytes of a section: those of its records, one after the other.
pub open spec fn encode_rows<T: Record>(rows: Seq<T>) -> Seq<u8>
    decreases rows.len(),
{
    if rows.len() == 0 {
        Seq::empty()
    } else {
        encode_rows(rows.drop_last()) + rows.last().encoding()
    }
}

/// The records of one section.
#[derive(Clone, Debug)]
pub struct Table<T: Record> {
    pub rows: Vec<T>,
    pub index: HashMap<i32, usize>,
}

impl<T: Record> View for Table<T> {
    type V = Seq<T>;

    open spec fn view(&self) -> Seq<T> {
        self.rows@
    }
}

impl<T: Record> Table<T> {
    /// The index knows the last record of every number, and no other number.
    pub open spec fn wf(&self) -> bool {
        forall|id: i32|
            match #[trigger] last_with_key(self.rows@, id) {
                Some(j) => self.index@.contains_key(id) && self.index@[id] == j,
                None => !self.index@.contains_key(id),
            }
    }

    pub fn new() -> (t: Table<T>)
        ensures
            t.wf(),
            t@ == Seq::<T>::empty(),
    {
        Table { rows: Vec::new(), index: HashMap::new() }
    }

    pub fn len(&self) -> (n: usize)
        ensures
            n == self@.len(),
    {
        self.rows.len()
    }

    /// Adds a record at the end. From now on its number refers to it, also
    /// where an earlier record has the same number.
    pub fn push(&mut self, rec: T)
        requires
            old(self).wf(),
        ensures
            final(self).wf(),
            final(self)@ == old(self)@.push(rec),
    {
        let id = rec.id();
        let place = self.rows.len();
        self.rows.push(rec);
        self.index.insert(id, place);
        proof {
            assert(self.rows@.drop_last() =~= old(self).rows@);
            assert forall|k: i32|
                match #[trigger] last_with_key(self.rows@, k) {
                    Some(j) => self.index@.contains_key(k) && self.index@[k] == j,
                    None => !self.index@.contains_key(k),
                } by {
                if k != id {
                    assert(last_with_key(self.rows@, k) == last_with_key(old(self).rows@, k));
                }
            }
        }
    }

    /// The record that `id` refers to.
    pub fn get(&self, id: i32) -> (r: Option<&T>)
        requires
            self.wf(),
        ensures
            r == match lookup(self@, id) {
                Some(rec) => Some(&rec),
                None => None,
            },
    {
        proof {
            lemma_last_with_key(self.rows@, id);
        }
        match self.index.get(&id) {
            Some(place) => Some(&self.rows[*place]),
            None => None,
        }
    }

    /// Whether the record at a place is the one that its number refers to:
    /// whether no later record has the same number.
    pub fn is_current(&self, place: usize) -> (b: bool)
        requires
            self.wf(),
            place < self@.len(),
        ensures
            b == (last_with_key(self@, self@[place as int].key()) == Some(place as int)),
    {
        match self.index.get(&self.rows[place].id()) {
            Some(j) => *j == place,
            None => false,
        }
    }

    /// The place of the record that `id` refers to.
    pub fn place(&self, id: i32) -> (r: Option<usize>)
        requires
            self.wf(),
        ensures
            match r {
                Some(j) => last_with_key(self@, id) == Some(j as int) && j < self@.len(),
                None => last_with_key(self@, id) is None,
            },
    {
        proof {
            lemma_last_with_key(self.rows@, id);
        }
        match self.index.get(&id) {
            Some(place) => Some(*place),
            None => None,
        }
    }

    /// Puts a record in the place of another with the same number.
    pub fn replace(&mut self, place: usize, rec: T)
        requires
            old(self).wf(),
            place < old(self)@.len(),
            rec.key() == old(self)@[place as int].key(),
        ensures
            final(self).wf(),
            final(self)@ == old(self)@.update(place as int, rec),
            forall|id: i32| #[trigger]
                last_with_key(final(self)@, id) == last_with_key(old(self)@, id),
    {
        self.rows[place] = rec;
        proof {
            lemma_same_keys(old(self).rows@, self.rows@);
            assert forall|id: i32|
                match #[trigger] last_with_key(self.rows@, id) {
                    Some(j) => self.index@.contains_key(id) && self.index@[id] == j,
                    None => !self.index@.contains_key(id),
                } by {
                assert(last_with_key(old(self).rows@, id) == last_with_key(self.rows@, id));
            }
        }
    }

    /// The record at a place in the section.
    pub fn row(&self, place: usize) -> (r: &T)
        requires
            place < self@.len(),
        ensures
            *r == self@[place as int],
    {
        &self.rows[place]
    }

    /// The bytes of the section.
    pub fn to_bytes(&self) -> (out: Vec<u8>)
        ensures
            out@ == encode_rows(self@),
    {
        let mut out: Vec<u8> = Vec::new();
        let mut i: usize = 0;
        assert(self.rows@.subrange(0, 0) =~= Seq::<T>::empty());
        while i < self.rows.len()
            invariant
                i <= self.rows@.len(),
                out@ == encode_rows(self.rows@.subrange(0, i as int)),
            decreases self.rows@.len() - i,
        {
            let one = self.rows[i].to_bytes();
            put_bytes(&mut out, one.as_slice());
            proof {
                let next = self.rows@.subrange(0, i + 1);
                assert(next.drop_last() =~= self.rows@.subrange(0, i as int));
            }
            i += 1;
        }
        assert(self.rows@.subrange(0, i as int) =~= self.rows@);
        out
    }

    /// Decodes a section to its end. Fails where bytes are left over that
    /// make up no record, and says how many.
    pub fn parse(bytes: &[u8]) -> (r: Result<Table<T>, usize>)
        ensures
            r.is_ok() <==> bytes@.len() % T::stride() == 0,
            r matches Ok(t) ==> t.wf() && encode_rows(t@) == bytes@,
            r matches Err(left) ==> left == bytes@.len() % T::stride(),
    {
        let width = T::width();
        let total = bytes.len();
        let mut table: Table<T> = Table::new();
        let mut at: usize = 0;
        let ghost mut n: int = 0;
        assert(bytes@.subrange(0, 0) =~= encode_rows(table@));
        loop
            invariant
                width == T::stride(),
                total == bytes@.len(),
                table.wf(),
                at <= bytes@.len(),
                at == n * width,
                n == table@.len(),
                encode_rows(table@) == bytes@.subrange(0, at as int),
            ensures
                bytes@.len() - at < width,
            decreases bytes@.len() - at,
        {
            let parsed = T::parse(bytes, at);
            match parsed {
                Some(rec) => {
                    assert(at + width <= bytes@.len());
                    let ghost before = table@;
                    proof {
                        rec.lemma_stride();
                    }
                    table.push(rec);
                    proof {
                        assert(table@.drop_last() =~= before);
                        assert(bytes@.subrange(0, at as int) + bytes@.subrange(
                            at as int,
                            at + width,
                        ) =~= bytes@.subrange(0, at + width));
                        assert((n + 1) * width == n * width + width) by (nonlinear_arith);
                        n = n + 1;
                    }
                    at = at + width;
                },
                None => {
                    break ;
                },
            }
        }
        let left = total - at;
        proof {
            lemma_stride_positive::<T>();
            lemma_fundamental_div_mod_converse(
                bytes@.len() as int,
                width as int,
                n,
                left as int,
            );
        }
        if left == 0 {
            assert(bytes@.subrange(0, at as int) =~= bytes@);
            Ok(table)
        } else {
            Err(left)
        }
    }
}

/// Where the records of two lists have the same numbers, place by place,
/// every number refers to the same place in both.
pub proof fn lemma_same_keys<T: Record>(a: Seq<T>, b: Seq<T>)
    requires
        a.len() == b.len(),
        forall|i: int| 0 <= i < a.len() ==> #[trigger] a[i].key() == b[i].key(),
    ensures
        forall|id: i32| #[trigger] last_with_key(a, id) == last_with_key(b, id),
    decreases a.len(),
{
    if a.len() > 0 {
        assert(a.last().key() == b.last().key());
        assert forall|i: int| 0 <= i < a.len() - 1 implies #[trigger] a.drop_last()[i].key()
            == b.drop_last()[i].key() by {
            assert(a[i].key() == b[i].key());
        }
        lemma_same_keys(a.drop_last(), b.drop_last());
        assert forall|id: i32| #[trigger] last_with_key(a, id) == last_with_key(b, id) by {
            assert(last_with_key(a.drop_last(), id) == last_with_key(b.drop_last(), id));
        }
    }
}

/// No record is empty.
pub proof fn lemma_stride_positive<T: Record>()
    ensures
        0 < T::stride() < 0x1_0000,
{
    let any: T = arbitrary();
    any.lemma_stride();
}

/// What a number refers to has that number and stands in the section, and
/// a number that refers to nothing stands on no record.
pub proof fn lemma_last_with_key<T: Record>(rows: Seq<T>, id: i32)
    ensures
        match last_with_key(rows, id) {
            Some(j) => 0 <= j < rows.len() && rows[j].key() == id && forall|k: int|
                j < k < rows.len() ==> rows[k].key() != id,
            None => forall|k: int| 0 <= k < rows.len() ==> rows[k].key() != id,
        },
    decreases rows.len(),
{
    if rows.len() > 0 {
        let front = rows.drop_last();
        lemma_last_with_key(front, id);
        assert(forall|k: int| 0 <= k < front.len() ==> front[k] == rows[k]);
        if rows.last().key() != id {
            match last_with_key(front, id) {
                Some(j) => {
                    assert forall|k: int| j < k < rows.len() implies rows[k].key() != id by {
                        if k < front.len() {
                            assert(front[k].key() != id);
                        }
                    }
                },
                None => {
                    assert forall|k: int| 0 <= k < rows.len() implies rows[k].key() != id by {
                        if k < front.len() {
                            assert(front[k].key() != id);
                        }
                    }
                },
            }
        }
    }
}

pub proof fn lemma_encode_rows_len<T: Record>(rows: Seq<T>)
    ensures
        encode_rows(rows).len() == rows.len() * T::stride(),
    decreases rows.len(),
{
    if rows.len() > 0 {
        lemma_encode_rows_len(rows.drop_last());
        rows.last().lemma_stride();
        assert(rows.len() * T::stride() == (rows.len() - 1) * T::stride() + T::stride())
            by (nonlinear_arith);
    }
}

/// The records of a section are known by its bytes.
pub proof fn lemma_encode_rows_injective<T: Record>(a: Seq<T>, b: Seq<T>)
    requires
        encode_rows(a) == encode_rows(b),
    ensures
        a == b,
    decreases a.len(),
{
    lemma_encode_rows_len(a);
    lemma_encode_rows_len(b);
    lemma_stride_positive::<T>();
    assert(a.len() == b.len()) by (nonlinear_arith)
        requires
            a.len() * T::stride() == b.len() * T::stride(),
            T::stride() > 0,
    ;
    if a.len() > 0 {
        a.last().lemma_stride();
        b.last().lemma_stride();
        lemma_concat_cancel(
            encode_rows(a.drop_last()),
            a.last().encoding(),
            encode_rows(b.drop_last()),
            b.last().encoding(),
        );
        T::lemma_injective(a.last(), b.last());
        lemma_encode_rows_injective(a.drop_last(), b.drop_last());
        assert(a =~= a.drop_last().push(a.last()));
        assert(b =~= b.drop_last().push(b.last()));
    } else {
        assert(a =~= b);
    }
}

/// Encoding a section and decoding it again gives the records back: the
/// bytes of any records make a whole number of records, and only those
/// records have these bytes.
pub proof fn lemma_rows_round_trip<T: Record>(rows: Seq<T>, decoded: Seq<T>)
    requires
        encode_rows(decoded) == encode_rows(rows),
    ensures
        encode_rows(rows).len() % T::stride() == 0,
        decoded == rows,
{
    lemma_encode_rows_len(rows);
    lemma_stride_positive::<T>();
    lemma_mod_multiples_basic(rows.len() as int, T::stride() as int);
    lemma_encode_rows_injective(decoded, rows);
}

} // verus!
