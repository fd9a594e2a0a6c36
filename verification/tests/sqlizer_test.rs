use tesql::row::{Row, RowEntry};
use tesql::sqlizer::{
    compose_inserts, encode_value, sqlize_insert, stringify_vec, SqlColumn, SqlInsertModel,
    SqlType, StringifyInsertError,
};
use tesql::value::DataValue;

fn entry(key: &str, value: DataValue) -> RowEntry {
    RowEntry { key: String::from(key), value }
}

fn user_model() -> SqlInsertModel {
    SqlInsertModel {
        table_name: String::from("user"),
        columns: vec![
            SqlColumn { name: String::from("id"), sql_type: SqlType::UUID },
            SqlColumn { name: String::from("username"), sql_type: SqlType::Text },
        ],
        inserts: vec![Row {
            entries: vec![
                entry("id", DataValue::Str(String::from("abc"))),
                entry("username", DataValue::Str(String::from("alice"))),
            ],
        }],
    }
}

#[test]
fn test_stringify_vec() {
    let vec: Vec<DataValue> = vec![DataValue::Int(1), DataValue::Int(2), DataValue::Int(3)];
    let str = stringify_vec(&vec).unwrap();
    assert_eq!(String::from("{1, 2, 3}"), str);

    // nested arrays
    let vec: Vec<DataValue> = vec![
        DataValue::List(vec![DataValue::Str(String::from("hello"))]),
        DataValue::List(vec![DataValue::Str(String::from("world"))]),
    ];
    let str = stringify_vec(&vec).unwrap();
    assert_eq!(String::from("{{'hello'}, {'world'}}"), str);
}

#[test]
fn test_stringify_vec_int_edges() {
    let vec: Vec<DataValue> = vec![
        DataValue::Int(-5),
        DataValue::Int(0),
        DataValue::Int(i64::MIN),
        DataValue::Int(i64::MAX),
    ];
    let str = stringify_vec(&vec).unwrap();
    assert_eq!(
        "{-5, 0, -9223372036854775808, 9223372036854775807}",
        str.as_str()
    );
}

#[test]
fn test_stringify_vec_escapes_quotes() {
    let vec: Vec<DataValue> = vec![DataValue::Str(String::from("a'b"))];
    let str = stringify_vec(&vec).unwrap();
    assert_eq!("{'a''b'}", str.as_str());
}

#[test]
fn test_stringify_vec_unsupported_element() {
    let vec: Vec<DataValue> = vec![DataValue::Int(1), DataValue::Other];
    match stringify_vec(&vec) {
        Err(StringifyInsertError::Invalid) => {}
        _ => panic!("an unsupported element must fail the whole list"),
    }
}

#[test]
fn test_encode_value_kinds() {
    assert_eq!("true", encode_value(&DataValue::Bool(true)).unwrap().as_str());
    assert_eq!("false", encode_value(&DataValue::Bool(false)).unwrap().as_str());
    assert_eq!("NULL", encode_value(&DataValue::Null).unwrap().as_str());
    assert_eq!(
        "'alice'",
        encode_value(&DataValue::Str(String::from("alice"))).unwrap().as_str()
    );
    assert_eq!(
        "{true, NULL}",
        encode_value(&DataValue::List(vec![DataValue::Bool(true), DataValue::Null]))
            .unwrap()
            .as_str()
    );
    assert!(matches!(
        encode_value(&DataValue::Int(7)),
        Err(StringifyInsertError::Invalid)
    ));
    assert!(matches!(
        encode_value(&DataValue::Other),
        Err(StringifyInsertError::Invalid)
    ));
}

#[test]
fn test_encode_value_escapes_quote() {
    let s = encode_value(&DataValue::Str(String::from("O'Brien"))).unwrap();
    assert_eq!("'O''Brien'", s.as_str());
}

#[test]
fn test_sqlize_insert_basic() {
    let sql = sqlize_insert(&user_model()).unwrap();
    assert_eq!(
        "INSERT INTO \"user\" (id, username)\nVALUES ('abc', 'alice');",
        sql.as_str()
    );
}

#[test]
fn test_sqlize_insert_shape() {
    // three rows by two columns: three tuples of two slots each, ending in `;`
    let row = |a: bool, b: bool| Row {
        entries: vec![entry("a", DataValue::Bool(a)), entry("b", DataValue::Bool(b))],
    };
    let m = SqlInsertModel {
        table_name: String::from("t"),
        columns: vec![
            SqlColumn { name: String::from("a"), sql_type: SqlType::Text },
            SqlColumn { name: String::from("b"), sql_type: SqlType::Text },
        ],
        inserts: vec![row(true, false), row(false, false), row(true, true)],
    };
    let sql = sqlize_insert(&m).unwrap();
    assert_eq!(
        "INSERT INTO \"t\" (a, b)\nVALUES (true, false), (false, false), (true, true);",
        sql.as_str()
    );
    assert!(sql.ends_with(';'));
}

#[test]
fn test_sqlize_insert_empty_rows() {
    let m = SqlInsertModel {
        table_name: String::from("t"),
        columns: vec![SqlColumn { name: String::from("a"), sql_type: SqlType::Text }],
        inserts: vec![],
    };
    let sql = sqlize_insert(&m).unwrap();
    assert_eq!("INSERT INTO \"t\" (a)\nVALUES ", sql.as_str());
}

#[test]
fn test_sqlize_insert_missing_column() {
    let m = SqlInsertModel {
        table_name: String::from("t"),
        columns: vec![
            SqlColumn { name: String::from("a"), sql_type: SqlType::Text },
            SqlColumn { name: String::from("b"), sql_type: SqlType::Text },
        ],
        inserts: vec![Row { entries: vec![entry("a", DataValue::Bool(true))] }],
    };
    match sqlize_insert(&m) {
        Err(StringifyInsertError::ValueNotFoundForColumn(name)) => {
            assert_eq!("b", name.as_str());
        }
        _ => panic!("a missing column must fail the compose with its name"),
    }
}

#[test]
fn test_compose_single_table_has_no_separator() {
    let sql = compose_inserts(vec![user_model()]).unwrap();
    assert_eq!(
        "INSERT INTO \"user\" (id, username)\nVALUES ('abc', 'alice');",
        sql.as_str()
    );
    assert!(!sql.contains("\n\n"));
}

#[test]
fn test_compose_two_tables_one_blank_line() {
    let mut second = user_model();
    second.table_name = String::from("visitor");
    let sql = compose_inserts(vec![user_model(), second]).unwrap();
    assert_eq!(
        "INSERT INTO \"user\" (id, username)\nVALUES ('abc', 'alice');\n\n\
         INSERT INTO \"visitor\" (id, username)\nVALUES ('abc', 'alice');",
        sql.as_str()
    );
    assert_eq!(1, sql.matches("\n\n").count());
}
