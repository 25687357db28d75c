use clickhouse_rs::column::{Column, TupleColumnData};
use clickhouse_rs::from_sql::FromSql;

fn sample() -> TupleColumnData {
    TupleColumnData::load(
        vec![
            Column::Int32(vec![10, 20, 30]),
            Column::String(vec![b"x".to_vec(), b"y".to_vec(), b"z".to_vec()]),
        ],
        3,
    )
    .unwrap()
}

#[test]
fn row_of_composite_column() {
    let c = sample();
    assert_eq!(c.len(), 3);
    let row = c.at(1);
    let r = <(i32, String)>::from_sql(&row).unwrap();
    assert_eq!(r, (20, "y".to_string()));
}

#[test]
fn declared_type_of_composite_column() {
    let c = sample();
    assert_eq!(c.sql_type().name(), "Tuple(Int32, String)");
}

#[test]
fn load_rejects_uneven_sub_columns() {
    let r = TupleColumnData::load(
        vec![Column::Int32(vec![10, 20, 30]), Column::UInt8(vec![1, 2])],
        3,
    );
    assert!(r.is_none());
}

#[test]
fn clone_has_same_rows() {
    let c = sample();
    let d = c.clone_instance();
    drop(c);
    assert_eq!(d.len(), 3);
    let r = <(i32, String)>::from_sql(&d.at(2)).unwrap();
    assert_eq!(r, (30, "z".to_string()));
}

#[test]
fn nested_tuple_column() {
    let inner = sample();
    let outer = TupleColumnData::load(
        vec![Column::UInt8(vec![1, 2, 3]), Column::Tuple(inner)],
        3,
    )
    .unwrap();
    let r = <(u8, (i32, String))>::from_sql(&outer.at(0)).unwrap();
    assert_eq!(r, (1, (10, "x".to_string())));
    assert_eq!(outer.sql_type().name(), "Tuple(UInt8, Tuple(Int32, String))");
}
