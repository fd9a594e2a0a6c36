use vstd::prelude::*;

use crate::text::str_eq;
use crate::value::{value_view, DataValue, ValueView};

verus! {

/// One key/value entry of a row.
pub struct RowEntry {
    pub key: String,
    pub value: DataValue,
}

#[verifier::ext_equal]
pub struct RowEntryView {
    pub key: Seq<char>,
    pub value: ValueView,
}

impl View for RowEntry {
    type V = RowEntryView;

    open spec fn view(&self) -> RowEntryView {
        RowEntryView { key: self.key@, value: self.value@ }
    }
}

impl Clone for RowEntry {
    fn clone(&self) -> (r: Self)
        ensures
            r@ == self@,
    {
        let r = RowEntry { key: self.key.clone(), value: self.value.clone() };
        proof {
            assert(r@ =~= self@);
        }
        r
    }
}

/// An insertion-ordered mapping from column name to value. Lookups find the
/// first entry with the given key; the entry order is the order of the
/// source document and is preserved into every output.
pub struct Row {
    pub entries: Vec<RowEntry>,
}

impl View for Row {
    type V = Seq<RowEntryView>;

    open spec fn view(&self) -> Seq<RowEntryView> {
        Seq::new(self.entries@.len(), |i: int| self.entries@[i]@)
    }
}

/// The value of the first entry of `row` whose key is `key`, if any.
pub open spec fn spec_lookup(row: Seq<RowEntryView>, key: Seq<char>) -> Option<ValueView>
    decreases row.len(),
{
    if row.len() == 0 {
        None
    } else if row[0].key == key {
        Some(row[0].value)
    } else {
        spec_lookup(row.drop_first(), key)
    }
}

impl Row {
    /// Finds the value stored under the column name `name`, if any.
    pub fn get<'a>(&'a self, name: &str) -> (r: Option<&'a DataValue>)
        ensures
            match r {
                Some(v) => spec_lookup(self@, name@) == Some(value_view(*v)),
                None => spec_lookup(self@, name@) is None,
            },
    {
        let n = self.entries.len();
        let mut i: usize = 0;
        proof {
            assert(self@.skip(0) =~= self@);
        }
        while i < n
            invariant
                n == self.entries@.len(),
                i <= n,
                spec_lookup(self@, name@) == spec_lookup(self@.skip(i as int), name@),
            decreases n - i,
        {
            proof {
                assert(self@.skip(i as int)[0] == self@[i as int]);
            }
            if str_eq(self.entries[i].key.as_str(), name) {
                return Some(&self.entries[i].value);
            }
            proof {
                assert(self@.skip(i as int).drop_first() =~= self@.skip(i as int + 1));
            }
            i = i + 1;
        }
        proof {
            assert(self@.skip(n as int).len() == 0);
        }
        None
    }
}

impl Clone for Row {
    fn clone(&self) -> (r: Self)
        ensures
            r@ == self@,
    {
        let mut entries: Vec<RowEntry> = Vec::new();
        let n = self.entries.len();
        for k in 0..n
            invariant
                n == self.entries@.len(),
                entries@.len() == k,
                forall|j: int| 0 <= j < k ==> entries@[j]@ == self.entries@[j]@,
        {
            entries.push(self.entries[k].clone());
        }
        let r = Row { entries };
        proof {
            assert(r@ =~= self@);
        }
        r
    }
}

/// Models of a sequence of rows, in order.
pub open spec fn rows_view(rows: Seq<Row>) -> Seq<Seq<RowEntryView>> {
    Seq::new(rows.len(), |i: int| rows[i]@)
}

/// Clones every row of `rows`, preserving each row's model.
pub fn clone_rows(rows: &Vec<Row>) -> (r: Vec<Row>)
    ensures
        rows_view(r@) == rows_view(rows@),
{
    let mut r: Vec<Row> = Vec::new();
    let n = rows.len();
    for k in 0..n
        invariant
            n == rows@.len(),
            r@.len() == k,
            forall|j: int| 0 <= j < k ==> r@[j]@ == rows@[j]@,
    {
        r.push(rows[k].clone());
    }
    proof {
        assert(rows_view(r@) =~= rows_view(rows@));
    }
    r
}

} // verus!
