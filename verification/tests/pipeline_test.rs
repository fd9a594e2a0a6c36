use tesql::data::{DataColumnModel, DataInsertModel, DataTableEntry, RawDataModel};
use tesql::json::{json_row, JsonRawModel, JsonTableEntry};
use tesql::mapper::{map_data_to_inserts, map_data_to_json, map_insert_to_json};
use tesql::row::{Row, RowEntry};
use tesql::types::{sql_key_of_tag, sql_type_of_tag, DataSqlKey, DataSqlType};
use tesql::value::DataValue;
use tesql::{gen_insert_artifacts, GenInsertOptions, GenInsertsFromFileError};

fn entry(key: &str, value: DataValue) -> RowEntry {
    RowEntry { key: String::from(key), value }
}

fn user_dataset() -> RawDataModel {
    RawDataModel {
        data: vec![DataTableEntry {
            name: String::from("user"),
            model: DataInsertModel {
                columns: vec![
                    DataColumnModel { name: String::from("id"), sql_type: DataSqlType::UUID },
                    DataColumnModel {
                        name: String::from("username"),
                        sql_type: DataSqlType::Text,
                    },
                ],
                inserts: vec![Row {
                    entries: vec![
                        entry("id", DataValue::Str(String::from("abc"))),
                        entry("username", DataValue::Str(String::from("alice"))),
                    ],
                }],
            },
        }],
    }
}

fn two_table_dataset() -> RawDataModel {
    let mut d = user_dataset();
    d.data.push(DataTableEntry {
        name: String::from("visitor"),
        model: DataInsertModel {
            columns: vec![DataColumnModel {
                name: String::from("id"),
                sql_type: DataSqlType::UUID,
            }],
            inserts: vec![Row { entries: vec![entry("id", DataValue::Str(String::from("v1")))] }],
        },
    });
    d
}

#[test]
fn test_end_to_end_combined() {
    let model = user_dataset();
    let opts = GenInsertOptions::default();
    let arts = gen_insert_artifacts(&model, &opts).unwrap();
    assert_eq!(2, arts.len());
    assert_eq!("./out.sql", arts[0].path.as_str());
    assert_eq!(
        "INSERT INTO \"user\" (id, username)\nVALUES ('abc', 'alice');",
        arts[0].content.as_str()
    );
    assert_eq!("./out/out.json", arts[1].path.as_str());
    assert_eq!(
        "{\"user\":[{\"id\":\"abc\",\"username\":\"alice\"}]}",
        arts[1].content.as_str()
    );
}

#[test]
fn test_split_mode() {
    let model = user_dataset();
    let opts = GenInsertOptions { split_data_files: true, ..Default::default() };
    let arts = gen_insert_artifacts(&model, &opts).unwrap();
    assert_eq!(2, arts.len());
    assert_eq!("./out/user.sql", arts[0].path.as_str());
    assert_eq!(
        "INSERT INTO \"user\" (id, username)\nVALUES ('abc', 'alice');",
        arts[0].content.as_str()
    );
    assert_eq!("./out/json/user.json", arts[1].path.as_str());
    assert_eq!(
        "{\"user\":[{\"id\":\"abc\",\"username\":\"alice\"}]}",
        arts[1].content.as_str()
    );
}

#[test]
fn test_order_preserved_across_outputs() {
    let model = two_table_dataset();
    let opts = GenInsertOptions::default();
    let arts = gen_insert_artifacts(&model, &opts).unwrap();
    let sql = arts[0].content.as_str();
    let user_at = sql.find("INSERT INTO \"user\"").unwrap();
    let visitor_at = sql.find("INSERT INTO \"visitor\"").unwrap();
    assert!(user_at < visitor_at);
    assert_eq!(
        "{\"user\":[{\"id\":\"abc\",\"username\":\"alice\"}],\"visitor\":[{\"id\":\"v1\"}]}",
        arts[1].content.as_str()
    );

    let split = GenInsertOptions { split_data_files: true, ..Default::default() };
    let arts = gen_insert_artifacts(&model, &split).unwrap();
    assert_eq!(4, arts.len());
    assert_eq!("./out/user.sql", arts[0].path.as_str());
    assert_eq!("./out/visitor.sql", arts[1].path.as_str());
    assert_eq!("./out/json/user.json", arts[2].path.as_str());
    assert_eq!("./out/json/visitor.json", arts[3].path.as_str());
    assert_eq!("{\"visitor\":[{\"id\":\"v1\"}]}", arts[3].content.as_str());
}

#[test]
fn test_missing_column_aborts_run() {
    let mut model = user_dataset();
    model.data[0].model.inserts[0].entries.remove(1);
    let opts = GenInsertOptions::default();
    match gen_insert_artifacts(&model, &opts) {
        Err(GenInsertsFromFileError::StringifyError(
            tesql::sqlizer::StringifyInsertError::ValueNotFoundForColumn(name),
        )) => assert_eq!("username", name.as_str()),
        _ => panic!("a missing column must abort the run"),
    }
}

#[test]
fn test_unsupported_value_in_echo_aborts_run() {
    // the extra key is not a declared column, so only the echo sees it
    let mut model = user_dataset();
    model.data[0].model.inserts[0].entries.push(entry("extra", DataValue::Other));
    let opts = GenInsertOptions::default();
    assert!(matches!(
        gen_insert_artifacts(&model, &opts),
        Err(GenInsertsFromFileError::JsonSerializeError)
    ));
}

#[test]
fn test_type_mapper_tags() {
    assert_eq!(Some(DataSqlType::UUID), sql_type_of_tag("uuid"));
    assert_eq!(Some(DataSqlType::Text), sql_type_of_tag("text"));
    assert_eq!(Some(DataSqlType::Array), sql_type_of_tag("array"));
    assert_eq!(None, sql_type_of_tag("integer"));
    assert_eq!(None, sql_type_of_tag(""));
    assert_eq!(Some(DataSqlKey::PKey), sql_key_of_tag("pKey"));
    assert_eq!(Some(DataSqlKey::FKey), sql_key_of_tag("fKey"));
    assert_eq!(None, sql_key_of_tag("key"));
}

#[test]
fn test_row_lookup() {
    let row = Row {
        entries: vec![entry("a", DataValue::Bool(true)), entry("b", DataValue::Null)],
    };
    assert!(matches!(row.get("a"), Some(DataValue::Bool(true))));
    assert!(matches!(row.get("b"), Some(DataValue::Null)));
    assert!(row.get("c").is_none());
}

#[test]
fn test_json_row_escaping() {
    let row = Row {
        entries: vec![
            entry("k", DataValue::Str(String::from("a\"b\\c\nd"))),
            entry("u", DataValue::Str(String::from("\u{1}"))),
        ],
    };
    let js = json_row(&row).unwrap();
    assert_eq!("{\"k\":\"a\\\"b\\\\c\\nd\",\"u\":\"\\u0001\"}", js.as_str());
}

#[test]
fn test_json_row_value_kinds() {
    let row = Row {
        entries: vec![
            entry("b", DataValue::Bool(false)),
            entry("n", DataValue::Null),
            entry("i", DataValue::Int(-12)),
            entry("l", DataValue::List(vec![DataValue::Int(1), DataValue::Int(2)])),
        ],
    };
    let js = json_row(&row).unwrap();
    assert_eq!("{\"b\":false,\"n\":null,\"i\":-12,\"l\":[1,2]}", js.as_str());
}

#[test]
fn test_map_data_to_inserts_preserves_order() {
    let model = two_table_dataset();
    let sql_models = map_data_to_inserts(&model);
    assert_eq!(2, sql_models.len());
    assert_eq!("user", sql_models[0].table_name.as_str());
    assert_eq!("visitor", sql_models[1].table_name.as_str());
    assert_eq!("id", sql_models[0].columns[0].name.as_str());
    assert_eq!(1, sql_models[0].inserts.len());
}

#[test]
fn test_map_data_to_json_keeps_rows() {
    let model = two_table_dataset();
    let echo: JsonRawModel = map_data_to_json(&model);
    assert_eq!(2, echo.data.len());
    let first: &JsonTableEntry = &echo.data[0];
    assert_eq!("user", first.name.as_str());
    assert_eq!(1, first.rows.len());
    assert_eq!("id", first.rows[0].entries[0].key.as_str());
}

#[test]
fn test_map_insert_to_json_single_table() {
    let model = user_dataset();
    let single = map_insert_to_json(&model.data[0].name, &model.data[0].model);
    assert_eq!(1, single.data.len());
    assert_eq!("user", single.data[0].name.as_str());
    assert_eq!(1, single.data[0].rows.len());
}

#[test]
fn test_empty_dataset() {
    let model = RawDataModel { data: vec![] };
    let opts = GenInsertOptions::default();
    let arts = gen_insert_artifacts(&model, &opts).unwrap();
    assert_eq!(2, arts.len());
    assert_eq!("", arts[0].content.as_str());
    assert_eq!("{}", arts[1].content.as_str());

    let split = GenInsertOptions { split_data_files: true, ..Default::default() };
    let arts = gen_insert_artifacts(&model, &split).unwrap();
    assert!(arts.is_empty());
}

#[test]
fn test_default_options() {
    let opts = GenInsertOptions::default();
    assert!(!opts.split_data_files);
    assert_eq!("./out", opts.sql_out_dir_path);
    assert_eq!("./out/json", opts.json_out_dir_path);
    assert_eq!("./out.sql", opts.sql_out_file_path);
    assert_eq!("./out/out.json", opts.json_out_file_path);
}
