use chrono_tz::Tz;
use clickhouse_rs::from_sql::{Enum8, FromSql, Ipv4, LocalDate, LocalDateTime};
use clickhouse_rs::sql_type::SqlType;
use clickhouse_rs::value::{Decimal, FromSqlError, Nullable, Precision, ValueRef};

fn parts(e: &FromSqlError) -> (String, String) {
    match e {
        FromSqlError::InvalidType { src, dst } => (src.clone(), dst.clone()),
    }
}

#[test]
fn test_u8() {
    let v = ValueRef::UInt8(42_u8);
    let actual = u8::from_sql(&v).unwrap();
    assert_eq!(actual, 42_u8);
}

#[test]
fn test_bad_convert() {
    let v = ValueRef::UInt16(42_u16);
    match u32::from_sql(&v) {
        Ok(_) => panic!("should fail"),
        Err(e) => assert_eq!(
            "From SQL error: `SqlType::UInt16 cannot be cast to u32.`".to_string(),
            e.message()
        ),
    }
}

#[test]
fn mismatch_names_source_and_destination() {
    let e = u32::from_sql(&ValueRef::UInt16(42)).unwrap_err();
    assert_eq!(parts(&e), ("UInt16".to_string(), "u32".to_string()));
    let e = i8::from_sql(&ValueRef::UInt8(1)).unwrap_err();
    assert_eq!(parts(&e), ("UInt8".to_string(), "i8".to_string()));
    assert_eq!(i64::from_sql(&ValueRef::Int64(-5)).unwrap(), -5);
    assert_eq!(u64::from_sql(&ValueRef::UInt64(u64::MAX)).unwrap(), u64::MAX);
}

#[test]
fn nullable_absent_and_present() {
    let absent = ValueRef::Nullable(Nullable::Absent(SqlType::UInt8));
    assert_eq!(Option::<u8>::from_sql(&absent).unwrap(), None);
    let present = ValueRef::Nullable(Nullable::Present(Box::new(ValueRef::UInt8(7))));
    assert_eq!(Option::<u8>::from_sql(&present).unwrap(), Some(7));
}

#[test]
fn nullable_inner_error_unchanged() {
    let present = ValueRef::Nullable(Nullable::Present(Box::new(ValueRef::UInt16(7))));
    let e = Option::<u8>::from_sql(&present).unwrap_err();
    assert_eq!(parts(&e), ("UInt16".to_string(), "u8".to_string()));
    let e = Option::<u8>::from_sql(&ValueRef::UInt8(7)).unwrap_err();
    assert_eq!(parts(&e), ("UInt8".to_string(), "Option<u8>".to_string()));
}

#[test]
fn array_of_text() {
    let v = ValueRef::Array(
        SqlType::String,
        vec![ValueRef::String("a".as_bytes()), ValueRef::String("b".as_bytes()), ValueRef::String("c".as_bytes())],
    );
    let r = Vec::<String>::from_sql(&v).unwrap();
    assert_eq!(r, vec!["a".to_string(), "b".to_string(), "c".to_string()]);
    let borrowed = Vec::<&str>::from_sql(&v).unwrap();
    assert_eq!(borrowed, vec!["a", "b", "c"]);
}

#[test]
fn array_stops_at_first_bad_element() {
    let v = ValueRef::Array(
        SqlType::String,
        vec![ValueRef::String("a".as_bytes()), ValueRef::UInt8(1), ValueRef::Int16(2)],
    );
    let e = Vec::<String>::from_sql(&v).unwrap_err();
    assert_eq!(parts(&e), ("UInt8".to_string(), "String".to_string()));
}

#[test]
fn array_with_wrong_element_tag() {
    let v = ValueRef::Array(SqlType::UInt16, vec![ValueRef::UInt16(1)]);
    let e = Vec::<u8>::from_sql(&v).unwrap_err();
    assert_eq!(parts(&e), ("Array(UInt16)".to_string(), "Vec<u8>".to_string()));
    let empty = ValueRef::Array(SqlType::UInt8, vec![]);
    assert_eq!(Vec::<u8>::from_sql(&empty).unwrap(), Vec::<u8>::new());
}

#[test]
fn tuple_to_pair() {
    let v = ValueRef::Tuple(vec![ValueRef::UInt8(5), ValueRef::String("hi".as_bytes())]);
    let r = <(u8, String)>::from_sql(&v).unwrap();
    assert_eq!(r, (5, "hi".to_string()));
}

#[test]
fn tuple_of_wrong_length() {
    let v = ValueRef::Tuple(vec![
        ValueRef::UInt8(5),
        ValueRef::String("hi".as_bytes()),
        ValueRef::UInt8(6),
    ]);
    let e = <(u8, String)>::from_sql(&v).unwrap_err();
    assert_eq!(
        parts(&e),
        ("Tuple(UInt8, String, UInt8)".to_string(), "(u8, String)".to_string())
    );
}

#[test]
fn tuple_field_error_is_first_failing_field() {
    let v = ValueRef::Tuple(vec![ValueRef::UInt8(5), ValueRef::UInt8(6), ValueRef::UInt8(7)]);
    let e = <(u8, String, i8)>::from_sql(&v).unwrap_err();
    assert_eq!(parts(&e), ("UInt8".to_string(), "String".to_string()));
    let one = ValueRef::Tuple(vec![ValueRef::Int32(3)]);
    assert_eq!(<(i32,)>::from_sql(&one).unwrap(), (3,));
    assert_eq!(<(i32,)>::dst_name(), "(i32,)");
}

#[test]
fn array_of_tuples() {
    let v = ValueRef::Array(
        SqlType::Tuple(vec![SqlType::UInt8, SqlType::String]),
        vec![
            ValueRef::Tuple(vec![ValueRef::UInt8(1), ValueRef::String("x".as_bytes())]),
            ValueRef::Tuple(vec![ValueRef::UInt8(2), ValueRef::String("y".as_bytes())]),
        ],
    );
    let r = Vec::<(u8, String)>::from_sql(&v).unwrap();
    assert_eq!(r, vec![(1, "x".to_string()), (2, "y".to_string())]);
}

#[test]
fn twelve_field_tuple() {
    let v = ValueRef::Tuple((0..12).map(|i| ValueRef::UInt8(i)).collect());
    let r = <(u8, u8, u8, u8, u8, u8, u8, u8, u8, u8, u8, u8)>::from_sql(&v).unwrap();
    assert_eq!(r, (0, 1, 2, 3, 4, 5, 6, 7, 8, 9, 10, 11));
}

#[test]
fn text_and_bytes() {
    let v = ValueRef::String("héllo".as_bytes());
    assert_eq!(<&str>::from_sql(&v).unwrap(), "héllo");
    assert_eq!(String::from_sql(&v).unwrap(), "héllo".to_string());
    assert_eq!(<&[u8]>::from_sql(&v).unwrap(), "héllo".as_bytes());
    let e = String::from_sql(&ValueRef::Int8(1)).unwrap_err();
    assert_eq!(parts(&e), ("Int8".to_string(), "String".to_string()));
}

#[test]
fn identifiers_and_decimal_and_enum() {
    let ip = Ipv4::from_sql(&ValueRef::Ipv4([127, 0, 0, 1])).unwrap();
    assert_eq!(ip.octets, [127, 0, 0, 1]);
    let bytes: [u8; 16] = [1, 2, 3, 4, 5, 6, 7, 8, 9, 10, 11, 12, 13, 14, 15, 16];
    let id = uuid::Uuid::from_sql(&ValueRef::Uuid(bytes)).unwrap();
    assert_eq!(id.as_bytes(), &bytes);
    let d = Decimal { underlying: 12345, precision: 10, scale: 2 };
    assert_eq!(Decimal::from_sql(&ValueRef::Decimal(d)).unwrap(), d);
    let table = vec![("a".to_string(), 1_i8), ("b".to_string(), 2_i8)];
    let e = Enum8::from_sql(&ValueRef::Enum8(&table, 2)).unwrap();
    assert_eq!(e.value, 2);
    assert_eq!(e.values.len(), 2);
    let err = Enum8::from_sql(&ValueRef::Int8(2)).unwrap_err();
    assert_eq!(parts(&err), ("Int8".to_string(), "Enum8".to_string()));
}

#[test]
fn dates_and_times() {
    let d = LocalDate::from_sql(&ValueRef::Date(2, Tz::UTC)).unwrap();
    assert_eq!(d.secs, 172_800);
    let t = LocalDateTime::from_sql(&ValueRef::DateTime(1_000, Tz::UTC)).unwrap();
    assert_eq!((t.secs, t.nanos), (1_000, 0));
    let p = Precision::new(3).unwrap();
    let t = LocalDateTime::from_sql(&ValueRef::DateTime64(1_500, p, Tz::UTC)).unwrap();
    assert_eq!((t.secs, t.nanos), (1, 500_000_000));
    let t = LocalDateTime::from_sql(&ValueRef::DateTime64(-1_500, p, Tz::UTC)).unwrap();
    assert_eq!((t.secs, t.nanos), (-2, 500_000_000));
    assert!(Precision::new(10).is_none());
    let e = LocalDateTime::from_sql(&ValueRef::Date(2, Tz::UTC)).unwrap_err();
    assert_eq!(parts(&e), ("Date".to_string(), "DateTime<Tz>".to_string()));
}

#[test]
fn type_names() {
    let t = SqlType::Array(Box::new(SqlType::Nullable(Box::new(SqlType::Tuple(vec![
        SqlType::UInt8,
        SqlType::String,
    ])))));
    assert_eq!(t.name(), "Array(Nullable(Tuple(UInt8, String)))");
    let v = ValueRef::Nullable(Nullable::Absent(SqlType::Int32));
    assert_eq!(v.tag(), "Nullable(Int32)");
}

#[test]
fn owned_bytes_from_text() {
    let v = ValueRef::String(b"abc");
    assert_eq!(Vec::<u8>::from_sql(&v).unwrap(), vec![97, 98, 99]);
    let raw: [u8; 3] = [0xff, 0x00, 0xfe];
    let v = ValueRef::String(&raw);
    assert_eq!(Vec::<u8>::from_sql(&v).unwrap(), raw.to_vec());
    assert_eq!(<&[u8]>::from_sql(&v).unwrap(), &raw[..]);
    let e = Vec::<u16>::from_sql(&v).unwrap_err();
    assert_eq!(parts(&e), ("String".to_string(), "Vec<u16>".to_string()));
}

#[test]
fn invalid_utf8_is_not_text() {
    let raw: [u8; 2] = [0xc3, 0x28];
    let v = ValueRef::String(&raw);
    let e = <&str>::from_sql(&v).unwrap_err();
    assert_eq!(parts(&e), ("String".to_string(), "&str".to_string()));
    let e = String::from_sql(&v).unwrap_err();
    assert_eq!(parts(&e), ("String".to_string(), "String".to_string()));
}
