//! Records: the cells of one data row, keyed by the header's field identifiers.

use vstd::prelude::*;
use vstd::string::*;
use crate::header::texts;

verus! {

/// The text of the cell in column `i` of a row; a row that is too short has the
/// empty text there.
pub open spec fn cell_at(row: Seq<Seq<char>>, i: int) -> Seq<char> {
    if 0 <= i < row.len() {
        row[i]
    } else {
        Seq::empty()
    }
}

/// The record of a row under a header: each identifier mapped to the cell of its
/// column. Where an identifier stands in two columns, the later column counts.
/// Cells beyond the header are left out.
pub open spec fn record_of(ids: Seq<Seq<char>>, row: Seq<Seq<char>>) -> Map<Seq<char>, Seq<char>>
    decreases ids.len(),
{
    if ids.len() == 0 {
        Map::empty()
    } else {
        record_of(ids.drop_last(), row).insert(ids.last(), cell_at(row, ids.len() - 1))
    }
}

/// The keys of a record are the identifiers of the header.
pub proof fn lemma_record_keys(ids: Seq<Seq<char>>, row: Seq<Seq<char>>)
    ensures
        record_of(ids, row).dom() == ids.to_set(),
    decreases ids.len(),
{
    if ids.len() > 0 {
        lemma_record_keys(ids.drop_last(), row);
        assert forall|k: Seq<char>| ids.contains(k) <==> (ids.drop_last().contains(k) || k
            == ids.last()) by {
            if ids.contains(k) {
                let i = choose|i: int| 0 <= i < ids.len() && ids[i] == k;
                if i < ids.len() - 1 {
                    assert(ids.drop_last()[i] == k);
                }
            }
            if ids.drop_last().contains(k) {
                let i = choose|i: int| 0 <= i < ids.drop_last().len() && ids.drop_last()[i] == k;
                assert(ids[i] == k);
            }
            if k == ids.last() {
                assert(ids[ids.len() - 1] == k);
            }
        }
    }
    assert(record_of(ids, row).dom() =~= ids.to_set());
}

/// A record gives for an identifier the cell of the last column that bears it.
pub proof fn lemma_record_value(ids: Seq<Seq<char>>, row: Seq<Seq<char>>, i: int)
    requires
        0 <= i < ids.len(),
        forall|j: int| i < j < ids.len() ==> ids[j] != ids[i],
    ensures
        record_of(ids, row).contains_key(ids[i]),
        record_of(ids, row)[ids[i]] == cell_at(row, i),
    decreases ids.len(),
{
    if i < ids.len() - 1 {
        assert(ids.last() != ids[i]);
        assert(ids.drop_last()[i] == ids[i]);
        assert forall|j: int| i < j < ids.drop_last().len() implies ids.drop_last()[j]
            != ids.drop_last()[i] by {
            assert(ids.drop_last()[j] == ids[j]);
        }
        lemma_record_value(ids.drop_last(), row, i);
    }
}

/// The cells of a row under a header of `width` columns: the row cut or filled
/// with empty cells to that width.
pub open spec fn cells_under(row: Seq<Seq<char>>, width: nat) -> Seq<Seq<char>> {
    Seq::new(width, |k: int| cell_at(row, k))
}

/// A record depends on the cells under the header only.
pub proof fn lemma_record_same_cells(ids: Seq<Seq<char>>, a: Seq<Seq<char>>, b: Seq<Seq<char>>)
    requires
        forall|i: int| 0 <= i < ids.len() ==> cell_at(a, i) == cell_at(b, i),
    ensures
        record_of(ids, a) == record_of(ids, b),
    decreases ids.len(),
{
    if ids.len() > 0 {
        lemma_record_same_cells(ids.drop_last(), a, b);
    }
}

/// One data row: the header's identifiers and, column by column, the row's cells.
#[derive(Debug)]
pub struct Record {
    pub fields: Vec<String>,
    pub values: Vec<String>,
}

impl View for Record {
    type V = Map<Seq<char>, Seq<char>>;

    open spec fn view(&self) -> Map<Seq<char>, Seq<char>> {
        record_of(texts(self.fields@), texts(self.values@))
    }
}

impl Record {
    /// The record of `row` under the header `ids`: a cell that the row lacks is
    /// empty, a cell beyond the header is dropped.
    pub fn from_row(ids: &Vec<String>, row: &Vec<String>) -> (r: Record)
        ensures
            r@ == record_of(texts(ids@), texts(row@)),
            texts(r.fields@) == texts(ids@),
            texts(r.values@) == cells_under(texts(row@), ids@.len()),
    {
        let mut fields: Vec<String> = Vec::new();
        let mut values: Vec<String> = Vec::new();
        let mut i: usize = 0;
        while i < ids.len()
            invariant
                i <= ids.len(),
                fields.len() == i,
                values.len() == i,
                forall|k: int| 0 <= k < i ==> #[trigger] fields@[k]@ == ids@[k]@,
                forall|k: int| 0 <= k < i ==> #[trigger] values@[k]@ == cell_at(texts(row@), k),
            decreases ids.len() - i,
        {
            fields.push(ids[i].clone());
            if i < row.len() {
                values.push(row[i].clone());
            } else {
                values.push(String::new());
            }
            i += 1;
        }
        proof {
            assert(texts(fields@) =~= texts(ids@));
            assert(texts(values@) =~= cells_under(texts(row@), ids@.len()));
            lemma_record_same_cells(texts(ids@), texts(values@), texts(row@));
        }
        Record { fields, values }
    }

    /// The value of a field, or `None` where the record has no such field.
    pub fn get(&self, field: &str) -> (r: Option<String>)
        ensures
            match r {
                Some(v) => self@.contains_key(field@) && v@ == self@[field@],
                None => !self@.contains_key(field@),
            },
    {
        let key: String = field.to_owned();
        let ghost ids = texts(self.fields@);
        let mut i: usize = self.fields.len();
        while i > 0
            invariant
                i <= self.fields.len(),
                key@ == field@,
                ids == texts(self.fields@),
                forall|j: int| i <= j < ids.len() ==> ids[j] != field@,
            decreases i,
        {
            i -= 1;
            if self.fields[i] == key {
                proof {
                    assert(ids[i as int] == field@);
                    lemma_record_value(ids, texts(self.values@), i as int);
                }
                if i < self.values.len() {
                    return Some(self.values[i].clone());
                } else {
                    return Some(String::new());
                }
            }
        }
        proof {
            lemma_record_keys(ids, texts(self.values@));
            assert(!ids.contains(field@));
        }
        None
    }
}

} // verus!
