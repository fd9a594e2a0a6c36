use vstd::prelude::*;

use crate::row::{rows_view, Row, RowEntryView};
use crate::types::DataSqlType;

verus! {

/// One declared column of a table in the source document.
pub struct DataColumnModel {
    pub name: String,
    pub sql_type: DataSqlType,
}

#[verifier::ext_equal]
pub struct DataColumnView {
    pub name: Seq<char>,
    pub sql_type: DataSqlType,
}

impl View for DataColumnModel {
    type V = DataColumnView;

    open spec fn view(&self) -> DataColumnView {
        DataColumnView { name: self.name@, sql_type: self.sql_type }
    }
}

impl Clone for DataColumnModel {
    fn clone(&self) -> (r: Self)
        ensures
            r@ == self@,
    {
        let r = DataColumnModel { name: self.name.clone(), sql_type: self.sql_type };
        proof {
            assert(r@ =~= self@);
        }
        r
    }
}

/// The declared columns and the ordered rows of one table.
pub struct DataInsertModel {
    pub columns: Vec<DataColumnModel>,
    pub inserts: Vec<Row>,
}

#[verifier::ext_equal]
pub struct DataInsertView {
    pub columns: Seq<DataColumnView>,
    pub inserts: Seq<Seq<RowEntryView>>,
}

impl View for DataInsertModel {
    type V = DataInsertView;

    open spec fn view(&self) -> DataInsertView {
        DataInsertView {
            columns: Seq::new(self.columns@.len(), |i: int| self.columns@[i]@),
            inserts: rows_view(self.inserts@),
        }
    }
}

/// One table of the dataset: its name and its rows, in document order.
pub struct DataTableEntry {
    pub name: String,
    pub model: DataInsertModel,
}

#[verifier::ext_equal]
pub struct DataTableView {
    pub name: Seq<char>,
    pub model: DataInsertView,
}

impl View for DataTableEntry {
    type V = DataTableView;

    open spec fn view(&self) -> DataTableView {
        DataTableView { name: self.name@, model: self.model@ }
    }
}

/// The whole parsed dataset: an insertion-ordered mapping from table name
/// to that table's columns and rows. The order of `data` is the order of
/// the source document and fixes the order of every output artifact.
pub struct RawDataModel {
    pub data: Vec<DataTableEntry>,
}

impl View for RawDataModel {
    type V = Seq<DataTableView>;

    open spec fn view(&self) -> Seq<DataTableView> {
        Seq::new(self.data@.len(), |i: int| self.data@[i]@)
    }
}

} // verus!
