use vstd::prelude::*;

use crate::text::str_eq;

verus! {

/// The key role a column can declare in the source document. The role is
/// parsed and kept, but no encoding or ordering rule consumes it.
#[derive(Clone, Copy, PartialEq, Eq, Structural, Debug)]
pub enum DataSqlKey {
    PKey,
    FKey,
}

/// The column types the source document can declare.
#[derive(Clone, Copy, PartialEq, Eq, Structural, Debug)]
pub enum DataSqlType {
    UUID,
    Text,
    Array,
}

pub open spec fn spec_sql_type_of_tag(tag: Seq<char>) -> Option<DataSqlType> {
    if tag == "uuid"@ {
        Some(DataSqlType::UUID)
    } else if tag == "text"@ {
        Some(DataSqlType::Text)
    } else if tag == "array"@ {
        Some(DataSqlType::Array)
    } else {
        None
    }
}

/// Translates a column type tag of the source document into its
/// `DataSqlType`. The `array` tag maps to the dedicated `Array` variant;
/// every unrecognized tag is a parse-time error of the caller, signalled
/// here by `None`.
pub fn sql_type_of_tag(tag: &str) -> (r: Option<DataSqlType>)
    ensures
        r == spec_sql_type_of_tag(tag@),
{
    if str_eq(tag, "uuid") {
        Some(DataSqlType::UUID)
    } else if str_eq(tag, "text") {
        Some(DataSqlType::Text)
    } else if str_eq(tag, "array") {
        Some(DataSqlType::Array)
    } else {
        None
    }
}

pub open spec fn spec_sql_key_of_tag(tag: Seq<char>) -> Option<DataSqlKey> {
    if tag == "pKey"@ {
        Some(DataSqlKey::PKey)
    } else if tag == "fKey"@ {
        Some(DataSqlKey::FKey)
    } else {
        None
    }
}

/// Translates a key role tag of the source document into its `DataSqlKey`.
pub fn sql_key_of_tag(tag: &str) -> (r: Option<DataSqlKey>)
    ensures
        r == spec_sql_key_of_tag(tag@),
{
    if str_eq(tag, "pKey") {
        Some(DataSqlKey::PKey)
    } else if str_eq(tag, "fKey") {
        Some(DataSqlKey::FKey)
    } else {
        None
    }
}

} // verus!
