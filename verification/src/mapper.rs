use vstd::prelude::*;

use crate::data::{DataInsertModel, DataTableView, RawDataModel};
use crate::json::{JsonRawModel, JsonTableEntry, JsonTableView};
use crate::row::clone_rows;
use crate::sqlizer::{models_view, SqlColumn, SqlColumnView, SqlInsertModel, SqlModelView, SqlType};
use crate::types::DataSqlType;

verus! {

/// The composer's `SqlType` of a declared `DataSqlType`, variant for
/// variant.
pub open spec fn spec_sql_type(t: DataSqlType) -> SqlType {
    match t {
        DataSqlType::UUID => SqlType::UUID,
        DataSqlType::Text => SqlType::Text,
        DataSqlType::Array => SqlType::Array,
    }
}

/// Translates one declared column type for the composer.
pub fn sql_type_of(t: DataSqlType) -> (r: SqlType)
    ensures
        r == spec_sql_type(t),
{
    match t {
        DataSqlType::UUID => SqlType::UUID,
        DataSqlType::Text => SqlType::Text,
        DataSqlType::Array => SqlType::Array,
    }
}

/// The insert set one table turns into: the same name, the columns with
/// their types translated, the same rows in the same order.
pub open spec fn spec_insert_model_of(t: DataTableView) -> SqlModelView {
    SqlModelView {
        table_name: t.name,
        columns: Seq::new(
            t.model.columns.len(),
            |i: int|
                SqlColumnView {
                    name: t.model.columns[i].name,
                    sql_type: spec_sql_type(t.model.columns[i].sql_type),
                },
        ),
        inserts: t.model.inserts,
    }
}

/// The insert sets of the whole dataset, in document order.
pub open spec fn spec_map_to_inserts(d: Seq<DataTableView>) -> Seq<SqlModelView> {
    Seq::new(d.len(), |i: int| spec_insert_model_of(d[i]))
}

/// Walks the dataset once and builds one insert set per table, preserving
/// the document's table order and each table's row order; column types
/// are translated here, once per column.
pub fn map_data_to_inserts(model: &RawDataModel) -> (r: Vec<SqlInsertModel>)
    ensures
        models_view(r@) == spec_map_to_inserts(model@),
{
    let mut r: Vec<SqlInsertModel> = Vec::new();
    let n = model.data.len();
    for i in 0..n
        invariant
            n == model.data@.len(),
            r@.len() == i,
            forall|k: int| 0 <= k < i ==> r@[k]@ == spec_insert_model_of(model@[k]),
    {
        let entry = &model.data[i];
        let mut columns: Vec<SqlColumn> = Vec::new();
        let m = entry.model.columns.len();
        for j in 0..m
            invariant
                m == entry.model.columns@.len(),
                columns@.len() == j,
                forall|k: int|
                    0 <= k < j ==> columns@[k]@ == (SqlColumnView {
                        name: entry.model.columns@[k]@.name,
                        sql_type: spec_sql_type(entry.model.columns@[k]@.sql_type),
                    }),
        {
            let c = &entry.model.columns[j];
            columns.push(SqlColumn { name: c.name.clone(), sql_type: sql_type_of(c.sql_type) });
        }
        let sm = SqlInsertModel {
            table_name: entry.name.clone(),
            columns,
            inserts: clone_rows(&entry.model.inserts),
        };
        proof {
            assert(sm@ =~~= spec_insert_model_of(model@[i as int]));
        }
        r.push(sm);
    }
    proof {
        assert(models_view(r@) =~= spec_map_to_inserts(model@));
    }
    r
}

/// The echo of the whole dataset: each table's name with its rows,
/// untransformed, in document order.
pub open spec fn spec_echo(d: Seq<DataTableView>) -> Seq<JsonTableView> {
    Seq::new(d.len(), |i: int| JsonTableView { name: d[i].name, rows: d[i].model.inserts })
}

/// The echo of one table alone, under its name.
pub fn map_insert_to_json(key: &String, insert_model: &DataInsertModel) -> (r: JsonRawModel)
    ensures
        r@.len() == 1,
        r@[0].name == key@,
        r@[0].rows == insert_model@.inserts,
{
    let mut data: Vec<JsonTableEntry> = Vec::new();
    data.push(JsonTableEntry { name: key.clone(), rows: clone_rows(&insert_model.inserts) });
    let r = JsonRawModel { data };
    proof {
        assert(r@[0].rows =~= insert_model@.inserts);
    }
    r
}

/// The echo of the whole dataset, table order and row order preserved.
pub fn map_data_to_json(model: &RawDataModel) -> (r: JsonRawModel)
    ensures
        r@ == spec_echo(model@),
{
    let mut data: Vec<JsonTableEntry> = Vec::new();
    let n = model.data.len();
    for i in 0..n
        invariant
            n == model.data@.len(),
            data@.len() == i,
            forall|k: int| 0 <= k < i ==> data@[k]@ == spec_echo(model@)[k],
    {
        let entry = &model.data[i];
        let je = JsonTableEntry { name: entry.name.clone(), rows: clone_rows(&entry.model.inserts) };
        proof {
            assert(je@ =~~= spec_echo(model@)[i as int]);
        }
        data.push(je);
    }
    let r = JsonRawModel { data };
    proof {
        assert(r@ =~= spec_echo(model@));
    }
    r
}

} // verus!
