//! Extraction of typed native values from tagged values.
//!
//! Every conversion is exact: a value converts only from the tag that belongs
//! to the requested type, and composite shapes (nullable, arrays, tuples)
//! convert part by part, stopping at the first part that fails.
use crate::sql_type::SqlType;
use crate::value::{value_tag_name, Decimal, FromSqlError, Nullable, ValueRef};
use vstd::prelude::*;
use vstd::string::StringSliceAdditionalSpecFns;

verus! {

/// Conversion of a tagged value into `Self`.
pub trait FromSql<'a>: Sized {
    /// Whether array elements declared with tag `t` may convert to `Self`.
    spec fn element_ok(t: SqlType) -> bool;

    /// The name of `Self` in errors.
    spec fn dst() -> Seq<char>;

    /// Whether a text value converts to a vector of `Self` byte by byte.
    spec fn byte_elements() -> bool;

    /// Whether `v` converts to `Self`.
    spec fn converts(v: ValueRef<'a>) -> bool;

    /// Whether `r` is the conversion of `v`.
    spec fn denotes(v: ValueRef<'a>, r: Self) -> bool;

    /// The error of a conversion of `v` that fails.
    spec fn error_of(v: ValueRef<'a>) -> (Seq<char>, Seq<char>);

    fn accepts_element(t: &SqlType) -> (r: bool)
        ensures
            r == Self::element_ok(*t),
    ;

    fn dst_name() -> (r: String)
        ensures
            r@ == Self::dst(),
    ;

    fn takes_bytes() -> (r: bool)
        ensures
            r == Self::byte_elements(),
    ;

    fn from_sql(v: &ValueRef<'a>) -> (r: Result<Self, FromSqlError>)
        ensures
            r is Ok <==> Self::converts(*v),
            r matches Ok(x) ==> Self::denotes(*v, x),
            r matches Err(e) ==> e@ == Self::error_of(*v),
    ;
}

impl<'a> FromSql<'a> for u8 {
    open spec fn element_ok(t: SqlType) -> bool {
        t is UInt8
    }

    open spec fn dst() -> Seq<char> {
        "u8"@
    }

    open spec fn byte_elements() -> bool {
        true
    }

    open spec fn converts(v: ValueRef<'a>) -> bool {
        v is UInt8
    }

    open spec fn denotes(v: ValueRef<'a>, r: u8) -> bool {
        v == ValueRef::UInt8(r)
    }

    open spec fn error_of(v: ValueRef<'a>) -> (Seq<char>, Seq<char>) {
        (value_tag_name(v), "u8"@)
    }

    fn accepts_element(t: &SqlType) -> (r: bool) {
        match t {
            SqlType::UInt8 => true,
            _ => false,
        }
    }

    fn dst_name() -> (r: String) {
        String::from_str("u8")
    }

    fn takes_bytes() -> (r: bool) {
        true
    }

    fn from_sql(v: &ValueRef<'a>) -> (r: Result<u8, FromSqlError>) {
        match v {
            ValueRef::UInt8(x) => Ok(*x),
            _ => Err(FromSqlError::mismatch(v, Self::dst_name())),
        }
    }
}

impl<'a> FromSql<'a> for u16 {
    open spec fn element_ok(t: SqlType) -> bool {
        t is UInt16
    }

    open spec fn dst() -> Seq<char> {
        "u16"@
    }

    open spec fn byte_elements() -> bool {
        false
    }

    open spec fn converts(v: ValueRef<'a>) -> bool {
        v is UInt16
    }

    open spec fn denotes(v: ValueRef<'a>, r: u16) -> bool {
        v == ValueRef::UInt16(r)
    }

    open spec fn error_of(v: ValueRef<'a>) -> (Seq<char>, Seq<char>) {
        (value_tag_name(v), "u16"@)
    }

    fn accepts_element(t: &SqlType) -> (r: bool) {
        match t {
            SqlType::UInt16 => true,
            _ => false,
        }
    }

    fn dst_name() -> (r: String) {
        String::from_str("u16")
    }

    fn takes_bytes() -> (r: bool) {
        false
    }

    fn from_sql(v: &ValueRef<'a>) -> (r: Result<u16, FromSqlError>) {
        match v {
            ValueRef::UInt16(x) => Ok(*x),
            _ => Err(FromSqlError::mismatch(v, Self::dst_name())),
        }
    }
}

impl<'a> FromSql<'a> for u32 {
    open spec fn element_ok(t: SqlType) -> bool {
        t is UInt32
    }

    open spec fn dst() -> Seq<char> {
        "u32"@
    }

    open spec fn byte_elements() -> bool {
        false
    }

    open spec fn converts(v: ValueRef<'a>) -> bool {
        v is UInt32
    }

    open spec fn denotes(v: ValueRef<'a>, r: u32) -> bool {
        v == ValueRef::UInt32(r)
    }

    open spec fn error_of(v: ValueRef<'a>) -> (Seq<char>, Seq<char>) {
        (value_tag_name(v), "u32"@)
    }

    fn accepts_element(t: &SqlType) -> (r: bool) {
        match t {
            SqlType::UInt32 => true,
            _ => false,
        }
    }

    fn dst_name() -> (r: String) {
        String::from_str("u32")
    }

    fn takes_bytes() -> (r: bool) {
        false
    }

    fn from_sql(v: &ValueRef<'a>) -> (r: Result<u32, FromSqlError>) {
        match v {
            ValueRef::UInt32(x) => Ok(*x),
            _ => Err(FromSqlError::mismatch(v, Self::dst_name())),
        }
    }
}

impl<'a> FromSql<'a> for u64 {
    open spec fn element_ok(t: SqlType) -> bool {
        t is UInt64
    }

    open spec fn dst() -> Seq<char> {
        "u64"@
    }

    open spec fn byte_elements() -> bool {
        false
    }

    open spec fn converts(v: ValueRef<'a>) -> bool {
        v is UInt64
    }

    open spec fn denotes(v: ValueRef<'a>, r: u64) -> bool {
        v == ValueRef::UInt64(r)
    }

    open spec fn error_of(v: ValueRef<'a>) -> (Seq<char>, Seq<char>) {
        (value_tag_name(v), "u64"@)
    }

    fn accepts_element(t: &SqlType) -> (r: bool) {
        match t {
            SqlType::UInt64 => true,
            _ => false,
        }
    }

    fn dst_name() -> (r: String) {
        String::from_str("u64")
    }

    fn takes_bytes() -> (r: bool) {
        false
    }

    fn from_sql(v: &ValueRef<'a>) -> (r: Result<u64, FromSqlError>) {
        match v {
            ValueRef::UInt64(x) => Ok(*x),
            _ => Err(FromSqlError::mismatch(v, Self::dst_name())),
        }
    }
}

impl<'a> FromSql<'a> for i8 {
    open spec fn element_ok(t: SqlType) -> bool {
        t is Int8
    }

    open spec fn dst() -> Seq<char> {
        "i8"@
    }

    open spec fn byte_elements() -> bool {
        false
    }

    open spec fn converts(v: ValueRef<'a>) -> bool {
        v is Int8
    }

    open spec fn denotes(v: ValueRef<'a>, r: i8) -> bool {
        v == ValueRef::Int8(r)
    }

    open spec fn error_of(v: ValueRef<'a>) -> (Seq<char>, Seq<char>) {
        (value_tag_name(v), "i8"@)
    }

    fn accepts_element(t: &SqlType) -> (r: bool) {
        match t {
            SqlType::Int8 => true,
            _ => false,
        }
    }

    fn dst_name() -> (r: String) {
        String::from_str("i8")
    }

    fn takes_bytes() -> (r: bool) {
        false
    }

    fn from_sql(v: &ValueRef<'a>) -> (r: Result<i8, FromSqlError>) {
        match v {
            ValueRef::Int8(x) => Ok(*x),
            _ => Err(FromSqlError::mismatch(v, Self::dst_name())),
        }
    }
}

impl<'a> FromSql<'a> for i16 {
    open spec fn element_ok(t: SqlType) -> bool {
        t is Int16
    }

    open spec fn dst() -> Seq<char> {
        "i16"@
    }

    open spec fn byte_elements() -> bool {
        false
    }

    open spec fn converts(v: ValueRef<'a>) -> bool {
        v is Int16
    }

    open spec fn denotes(v: ValueRef<'a>, r: i16) -> bool {
        v == ValueRef::Int16(r)
    }

    open spec fn error_of(v: ValueRef<'a>) -> (Seq<char>, Seq<char>) {
        (value_tag_name(v), "i16"@)
    }

    fn accepts_element(t: &SqlType) -> (r: bool) {
        match t {
            SqlType::Int16 => true,
            _ => false,
        }
    }

    fn dst_name() -> (r: String) {
        String::from_str("i16")
    }

    fn takes_bytes() -> (r: bool) {
        false
    }

    fn from_sql(v: &ValueRef<'a>) -> (r: Result<i16, FromSqlError>) {
        match v {
            ValueRef::Int16(x) => Ok(*x),
            _ => Err(FromSqlError::mismatch(v, Self::dst_name())),
        }
    }
}

impl<'a> FromSql<'a> for i32 {
    open spec fn element_ok(t: SqlType) -> bool {
        t is Int32
    }

    open spec fn dst() -> Seq<char> {
        "i32"@
    }

    open spec fn byte_elements() -> bool {
        false
    }

    open spec fn converts(v: ValueRef<'a>) -> bool {
        v is Int32
    }

    open spec fn denotes(v: ValueRef<'a>, r: i32) -> bool {
        v == ValueRef::Int32(r)
    }

    open spec fn error_of(v: ValueRef<'a>) -> (Seq<char>, Seq<char>) {
        (value_tag_name(v), "i32"@)
    }

    fn accepts_element(t: &SqlType) -> (r: bool) {
        match t {
            SqlType::Int32 => true,
            _ => false,
        }
    }

    fn dst_name() -> (r: String) {
        String::from_str("i32")
    }

    fn takes_bytes() -> (r: bool) {
        false
    }

    fn from_sql(v: &ValueRef<'a>) -> (r: Result<i32, FromSqlError>) {
        match v {
            ValueRef::Int32(x) => Ok(*x),
            _ => Err(FromSqlError::mismatch(v, Self::dst_name())),
        }
    }
}

impl<'a> FromSql<'a> for i64 {
    open spec fn element_ok(t: SqlType) -> bool {
        t is Int64
    }

    open spec fn dst() -> Seq<char> {
        "i64"@
    }

    open spec fn byte_elements() -> bool {
        false
    }

    open spec fn converts(v: ValueRef<'a>) -> bool {
        v is Int64
    }

    open spec fn denotes(v: ValueRef<'a>, r: i64) -> bool {
        v == ValueRef::Int64(r)
    }

    open spec fn error_of(v: ValueRef<'a>) -> (Seq<char>, Seq<char>) {
        (value_tag_name(v), "i64"@)
    }

    fn accepts_element(t: &SqlType) -> (r: bool) {
        match t {
            SqlType::Int64 => true,
            _ => false,
        }
    }

    fn dst_name() -> (r: String) {
        String::from_str("i64")
    }

    fn takes_bytes() -> (r: bool) {
        false
    }

    fn from_sql(v: &ValueRef<'a>) -> (r: Result<i64, FromSqlError>) {
        match v {
            ValueRef::Int64(x) => Ok(*x),
            _ => Err(FromSqlError::mismatch(v, Self::dst_name())),
        }
    }
}

impl<'a> FromSql<'a> for Decimal {
    open spec fn element_ok(t: SqlType) -> bool {
        t is Decimal
    }

    open spec fn dst() -> Seq<char> {
        "Decimal"@
    }

    open spec fn byte_elements() -> bool {
        false
    }

    open spec fn converts(v: ValueRef<'a>) -> bool {
        v is Decimal
    }

    open spec fn denotes(v: ValueRef<'a>, r: Decimal) -> bool {
        v == ValueRef::Decimal(r)
    }

    open spec fn error_of(v: ValueRef<'a>) -> (Seq<char>, Seq<char>) {
        (value_tag_name(v), "Decimal"@)
    }

    fn accepts_element(t: &SqlType) -> (r: bool) {
        match t {
            SqlType::Decimal => true,
            _ => false,
        }
    }

    fn dst_name() -> (r: String) {
        String::from_str("Decimal")
    }

    fn takes_bytes() -> (r: bool) {
        false
    }

    fn from_sql(v: &ValueRef<'a>) -> (r: Result<Decimal, FromSqlError>) {
        match v {
            ValueRef::Decimal(x) => Ok(*x),
            _ => Err(FromSqlError::mismatch(v, Self::dst_name())),
        }
    }
}

impl<'a> FromSql<'a> for &'a [u8] {
    open spec fn element_ok(t: SqlType) -> bool {
        t is String
    }

    open spec fn dst() -> Seq<char> {
        "&[u8]"@
    }

    open spec fn byte_elements() -> bool {
        false
    }

    open spec fn converts(v: ValueRef<'a>) -> bool {
        v is String
    }

    open spec fn denotes(v: ValueRef<'a>, r: &'a [u8]) -> bool {
        v matches ValueRef::String(b) && r@ == b@
    }

    open spec fn error_of(v: ValueRef<'a>) -> (Seq<char>, Seq<char>) {
        (value_tag_name(v), "&[u8]"@)
    }

    fn accepts_element(t: &SqlType) -> (r: bool) {
        match t {
            SqlType::String => true,
            _ => false,
        }
    }

    fn dst_name() -> (r: String) {
        String::from_str("&[u8]")
    }

    fn takes_bytes() -> (r: bool) {
        false
    }

    fn from_sql(v: &ValueRef<'a>) -> (r: Result<&'a [u8], FromSqlError>) {
        match v {
            ValueRef::String(b) => Ok(*b),
            _ => Err(FromSqlError::mismatch(v, Self::dst_name())),
        }
    }
}

impl<'a> FromSql<'a> for Enum8<'a> {
    open spec fn element_ok(t: SqlType) -> bool {
        t is Enum8
    }

    open spec fn dst() -> Seq<char> {
        "Enum8"@
    }

    open spec fn byte_elements() -> bool {
        false
    }

    open spec fn converts(v: ValueRef<'a>) -> bool {
        v is Enum8
    }

    open spec fn denotes(v: ValueRef<'a>, r: Enum8<'a>) -> bool {
        v == ValueRef::Enum8(r.values, r.value)
    }

    open spec fn error_of(v: ValueRef<'a>) -> (Seq<char>, Seq<char>) {
        (value_tag_name(v), "Enum8"@)
    }

    fn accepts_element(t: &SqlType) -> (r: bool) {
        match t {
            SqlType::Enum8 => true,
            _ => false,
        }
    }

    fn dst_name() -> (r: String) {
        String::from_str("Enum8")
    }

    fn takes_bytes() -> (r: bool) {
        false
    }

    fn from_sql(v: &ValueRef<'a>) -> (r: Result<Enum8<'a>, FromSqlError>) {
        match v {
            ValueRef::Enum8(t, x) => Ok(Enum8 { values: *t, value: *x }),
            _ => Err(FromSqlError::mismatch(v, Self::dst_name())),
        }
    }
}

impl<'a> FromSql<'a> for Enum16<'a> {
    open spec fn element_ok(t: SqlType) -> bool {
        t is Enum16
    }

    open spec fn dst() -> Seq<char> {
        "Enum16"@
    }

    open spec fn byte_elements() -> bool {
        false
    }

    open spec fn converts(v: ValueRef<'a>) -> bool {
        v is Enum16
    }

    open spec fn denotes(v: ValueRef<'a>, r: Enum16<'a>) -> bool {
        v == ValueRef::Enum16(r.values, r.value)
    }

    open spec fn error_of(v: ValueRef<'a>) -> (Seq<char>, Seq<char>) {
        (value_tag_name(v), "Enum16"@)
    }

    fn accepts_element(t: &SqlType) -> (r: bool) {
        match t {
            SqlType::Enum16 => true,
            _ => false,
        }
    }

    fn dst_name() -> (r: String) {
        String::from_str("Enum16")
    }

    fn takes_bytes() -> (r: bool) {
        false
    }

    fn from_sql(v: &ValueRef<'a>) -> (r: Result<Enum16<'a>, FromSqlError>) {
        match v {
            ValueRef::Enum16(t, x) => Ok(Enum16 { values: *t, value: *x }),
            _ => Err(FromSqlError::mismatch(v, Self::dst_name())),
        }
    }
}

impl<'a> FromSql<'a> for Ipv4 {
    open spec fn element_ok(t: SqlType) -> bool {
        t is Ipv4
    }

    open spec fn dst() -> Seq<char> {
        "Ipv4"@
    }

    open spec fn byte_elements() -> bool {
        false
    }

    open spec fn converts(v: ValueRef<'a>) -> bool {
        v is Ipv4
    }

    open spec fn denotes(v: ValueRef<'a>, r: Ipv4) -> bool {
        v == ValueRef::Ipv4(r.octets)
    }

    open spec fn error_of(v: ValueRef<'a>) -> (Seq<char>, Seq<char>) {
        (value_tag_name(v), "Ipv4"@)
    }

    fn accepts_element(t: &SqlType) -> (r: bool) {
        match t {
            SqlType::Ipv4 => true,
            _ => false,
        }
    }

    fn dst_name() -> (r: String) {
        String::from_str("Ipv4")
    }

    fn takes_bytes() -> (r: bool) {
        false
    }

    fn from_sql(v: &ValueRef<'a>) -> (r: Result<Ipv4, FromSqlError>) {
        match v {
            ValueRef::Ipv4(b) => Ok(Ipv4 { octets: *b }),
            _ => Err(FromSqlError::mismatch(v, Self::dst_name())),
        }
    }
}

impl<'a> FromSql<'a> for Ipv6 {
    open spec fn element_ok(t: SqlType) -> bool {
        t is Ipv6
    }

    open spec fn dst() -> Seq<char> {
        "Ipv6"@
    }

    open spec fn byte_elements() -> bool {
        false
    }

    open spec fn converts(v: ValueRef<'a>) -> bool {
        v is Ipv6
    }

    open spec fn denotes(v: ValueRef<'a>, r: Ipv6) -> bool {
        v == ValueRef::Ipv6(r.octets)
    }

    open spec fn error_of(v: ValueRef<'a>) -> (Seq<char>, Seq<char>) {
        (value_tag_name(v), "Ipv6"@)
    }

    fn accepts_element(t: &SqlType) -> (r: bool) {
        match t {
            SqlType::Ipv6 => true,
            _ => false,
        }
    }

    fn dst_name() -> (r: String) {
        String::from_str("Ipv6")
    }

    fn takes_bytes() -> (r: bool) {
        false
    }

    fn from_sql(v: &ValueRef<'a>) -> (r: Result<Ipv6, FromSqlError>) {
        match v {
            ValueRef::Ipv6(b) => Ok(Ipv6 { octets: *b }),
            _ => Err(FromSqlError::mismatch(v, Self::dst_name())),
        }
    }
}

impl<'a> FromSql<'a> for uuid::Uuid {
    open spec fn element_ok(t: SqlType) -> bool {
        t is Uuid
    }

    open spec fn dst() -> Seq<char> {
        "Uuid"@
    }

    open spec fn byte_elements() -> bool {
        false
    }

    open spec fn converts(v: ValueRef<'a>) -> bool {
        v is Uuid
    }

    open spec fn denotes(v: ValueRef<'a>, r: uuid::Uuid) -> bool {
        v matches ValueRef::Uuid(b) && r == uuid_of(b@)
    }

    open spec fn error_of(v: ValueRef<'a>) -> (Seq<char>, Seq<char>) {
        (value_tag_name(v), "Uuid"@)
    }

    fn accepts_element(t: &SqlType) -> (r: bool) {
        match t {
            SqlType::Uuid => true,
            _ => false,
        }
    }

    fn dst_name() -> (r: String) {
        String::from_str("Uuid")
    }

    fn takes_bytes() -> (r: bool) {
        false
    }

    fn from_sql(v: &ValueRef<'a>) -> (r: Result<uuid::Uuid, FromSqlError>) {
        match v {
            ValueRef::Uuid(b) => Ok(uuid_from_bytes(*b)),
            _ => Err(FromSqlError::mismatch(v, Self::dst_name())),
        }
    }
}

impl<'a> FromSql<'a> for LocalDate {
    open spec fn element_ok(t: SqlType) -> bool {
        t is Date
    }

    open spec fn dst() -> Seq<char> {
        "Date<Tz>"@
    }

    open spec fn byte_elements() -> bool {
        false
    }

    open spec fn converts(v: ValueRef<'a>) -> bool {
        v is Date
    }

    open spec fn denotes(v: ValueRef<'a>, r: LocalDate) -> bool {
        v matches ValueRef::Date(d, tz) && r.secs == d * 86400 && r.tz == tz
    }

    open spec fn error_of(v: ValueRef<'a>) -> (Seq<char>, Seq<char>) {
        (value_tag_name(v), "Date<Tz>"@)
    }

    fn accepts_element(t: &SqlType) -> (r: bool) {
        match t {
            SqlType::Date => true,
            _ => false,
        }
    }

    fn dst_name() -> (r: String) {
        String::from_str("Date<Tz>")
    }

    fn takes_bytes() -> (r: bool) {
        false
    }

    fn from_sql(v: &ValueRef<'a>) -> (r: Result<LocalDate, FromSqlError>) {
        match v {
            ValueRef::Date(d, tz) => Ok(LocalDate { secs: (*d as i64) * 86400, tz: *tz }),
            _ => Err(FromSqlError::mismatch(v, Self::dst_name())),
        }
    }
}

/// The value of an 8-bit enumeration, with the symbol table it is read against.
#[derive(Debug, PartialEq, Eq)]
pub struct Enum8<'a> {
    pub values: &'a [(String, i8)],
    pub value: i8,
}

/// The value of a 16-bit enumeration, with the symbol table it is read against.
#[derive(Debug, PartialEq, Eq)]
pub struct Enum16<'a> {
    pub values: &'a [(String, i16)],
    pub value: i16,
}

/// An IPv4 address, most significant octet first.
#[derive(Clone, Copy, Debug, PartialEq, Eq)]
pub struct Ipv4 {
    pub octets: [u8; 4],
}

/// An IPv6 address, most significant octet first.
#[derive(Clone, Copy, Debug, PartialEq, Eq)]
pub struct Ipv6 {
    pub octets: [u8; 16],
}

/// Day number `d` of a `Date` value, held as the instant `d * 86400` seconds
/// after the epoch (midnight UTC of that day), with the zone it is read in.
#[derive(Clone, Copy, Debug)]
pub struct LocalDate {
    pub secs: i64,
    pub tz: chrono_tz::Tz,
}

/// An instant read in a time zone.
#[derive(Clone, Copy, Debug)]
pub struct LocalDateTime {
    pub secs: i64,
    pub nanos: u32,
    pub tz: chrono_tz::Tz,
}

/// Declares uuid::Uuid, the result of converting a UUID value.
#[verifier::external_type_specification]
#[verifier::external_body]
pub struct ExUuid(uuid::Uuid);

/// The text that `bytes` encode as UTF-8, or none where they are not valid UTF-8.
pub uninterp spec fn utf8_decode(bytes: Seq<u8>) -> Option<Seq<char>>;

/// Relies on std::str::from_utf8: it succeeds exactly on valid UTF-8, and the
/// text it returns is the given bytes, borrowed, not a copy.
#[verifier::external_body]
fn utf8_text<'b>(b: &'b [u8]) -> (r: Option<&'b str>)
    ensures
        r is Some <==> utf8_decode(b@) is Some,
        r matches Some(s) ==> utf8_decode(b@) == Some(s@) && s.spec_bytes() == b@,
{
    std::str::from_utf8(b).ok()
}

/// Text borrowed from a text value: a view of its bytes, no copy.
impl<'a> FromSql<'a> for &'a str {
    open spec fn element_ok(t: SqlType) -> bool {
        t is String
    }

    open spec fn dst() -> Seq<char> {
        "&str"@
    }

    open spec fn byte_elements() -> bool {
        false
    }

    open spec fn converts(v: ValueRef<'a>) -> bool {
        v matches ValueRef::String(b) && utf8_decode(b@) is Some
    }

    open spec fn denotes(v: ValueRef<'a>, r: &'a str) -> bool {
        v matches ValueRef::String(b) && utf8_decode(b@) == Some(r@) && r.spec_bytes() == b@
    }

    open spec fn error_of(v: ValueRef<'a>) -> (Seq<char>, Seq<char>) {
        (value_tag_name(v), "&str"@)
    }

    fn accepts_element(t: &SqlType) -> (r: bool) {
        match t {
            SqlType::String => true,
            _ => false,
        }
    }

    fn dst_name() -> (r: String) {
        String::from_str("&str")
    }

    fn takes_bytes() -> (r: bool) {
        false
    }

    fn from_sql(v: &ValueRef<'a>) -> (r: Result<&'a str, FromSqlError>) {
        match v {
            ValueRef::String(b) => match utf8_text(*b) {
                Some(s) => Ok(s),
                None => Err(FromSqlError::mismatch(v, Self::dst_name())),
            },
            _ => Err(FromSqlError::mismatch(v, Self::dst_name())),
        }
    }
}

/// Text copied out of a text value.
impl<'a> FromSql<'a> for String {
    open spec fn element_ok(t: SqlType) -> bool {
        t is String
    }

    open spec fn dst() -> Seq<char> {
        "String"@
    }

    open spec fn byte_elements() -> bool {
        false
    }

    open spec fn converts(v: ValueRef<'a>) -> bool {
        v matches ValueRef::String(b) && utf8_decode(b@) is Some
    }

    open spec fn denotes(v: ValueRef<'a>, r: String) -> bool {
        v matches ValueRef::String(b) && utf8_decode(b@) == Some(r@)
    }

    open spec fn error_of(v: ValueRef<'a>) -> (Seq<char>, Seq<char>) {
        (value_tag_name(v), "String"@)
    }

    fn accepts_element(t: &SqlType) -> (r: bool) {
        match t {
            SqlType::String => true,
            _ => false,
        }
    }

    fn dst_name() -> (r: String) {
        String::from_str("String")
    }

    fn takes_bytes() -> (r: bool) {
        false
    }

    fn from_sql(v: &ValueRef<'a>) -> (r: Result<String, FromSqlError>) {
        match v {
            ValueRef::String(b) => match utf8_text(*b) {
                Some(s) => Ok(String::from_str(s)),
                None => Err(FromSqlError::mismatch(v, Self::dst_name())),
            },
            _ => Err(FromSqlError::mismatch(v, Self::dst_name())),
        }
    }
}

/// The identifier made of sixteen bytes.
pub uninterp spec fn uuid_of(bytes: Seq<u8>) -> uuid::Uuid;

/// Relies on uuid::Uuid::from_bytes: the identifier of the sixteen bytes as given.
#[verifier::external_body]
fn uuid_from_bytes(b: [u8; 16]) -> (r: uuid::Uuid)
    ensures
        r == uuid_of(b@),
{
    uuid::Uuid::from_bytes(b)
}

pub open spec fn pow10(n: nat) -> int
    decreases n,
{
    if n == 0 {
        1
    } else {
        10 * pow10((n - 1) as nat)
    }
}

proof fn lemma_pow10_add(a: nat, b: nat)
    ensures
        pow10(a + b) == pow10(a) * pow10(b),
    decreases a,
{
    if a > 0 {
        lemma_pow10_add((a - 1) as nat, b);
        assert(pow10(a + b) == 10 * pow10((a - 1 + b) as nat));
        assert(pow10(a) == 10 * pow10((a - 1) as nat));
        assert(10 * (pow10((a - 1) as nat) * pow10(b)) == (10 * pow10((a - 1) as nat)) * pow10(b))
            by (nonlinear_arith);
    }
}

/// `10^d` for `d` up to nine.
fn pow10_exec(d: u32) -> (r: i64)
    requires
        d <= 9,
    ensures
        r == pow10(d as nat),
        r >= 1,
{
    reveal_with_fuel(pow10, 10);
    match d {
        0 => 1,
        1 => 10,
        2 => 100,
        3 => 1000,
        4 => 10000,
        5 => 100000,
        6 => 1000000,
        7 => 10000000,
        8 => 100000000,
        _ => 1000000000,
    }
}

/// Whole seconds of `ticks` units of `10^-d` seconds (rounded down).
pub open spec fn tick_secs(ticks: int, d: nat) -> int {
    ticks / pow10(d)
}

/// Nanoseconds past the whole second of `ticks` units of `10^-d` seconds.
pub open spec fn tick_nanos(ticks: int, d: nat) -> int {
    (ticks % pow10(d)) * pow10((9 - d) as nat)
}

/// Splits `ticks` units of `10^-d` seconds into seconds and nanoseconds.
pub fn split_ticks(ticks: i64, d: u32) -> (r: (i64, u32))
    requires
        d <= 9,
    ensures
        r.0 == tick_secs(ticks as int, d as nat),
        r.1 == tick_nanos(ticks as int, d as nat),
{
    let m = pow10_exec(d);
    let scale = pow10_exec(9 - d);
    proof {
        reveal_with_fuel(pow10, 10);
        lemma_pow10_add(d as nat, (9 - d) as nat);
        assert(m * scale == 1000000000);
    }
    let (q, rem): (i64, i64) = if ticks >= 0 {
        (ticks / m, ticks % m)
    } else {
        let a: i64 = -(ticks + 1);
        let qa = a / m;
        let ra = a % m;
        proof {
            assert(a == qa * m + ra) by (nonlinear_arith)
                requires m >= 1, a >= 0, qa == a / m, ra == a % m;
            assert(ticks == (-qa - 1) * m + (m - ra - 1)) by (nonlinear_arith)
                requires a == qa * m + ra, ticks == -a - 1;
            vstd::arithmetic::div_mod::lemma_fundamental_div_mod_converse(
                ticks as int, m as int, -qa - 1, m - ra - 1);
        }
        (-qa - 1, m - ra - 1)
    };
    proof {
        assert(0 <= rem < m);
        assert(rem * scale < 1000000000) by (nonlinear_arith)
            requires 0 <= rem < m, m * scale == 1000000000, scale >= 1;
    }
    (q, (rem * scale) as u32)
}

impl<'a> FromSql<'a> for LocalDateTime {
    open spec fn element_ok(t: SqlType) -> bool {
        t is DateTime || t is DateTime64
    }

    open spec fn dst() -> Seq<char> {
        "DateTime<Tz>"@
    }

    open spec fn byte_elements() -> bool {
        false
    }

    open spec fn converts(v: ValueRef<'a>) -> bool {
        v is DateTime || v is DateTime64
    }

    open spec fn denotes(v: ValueRef<'a>, r: LocalDateTime) -> bool {
        match v {
            ValueRef::DateTime(s, tz) => r.secs == s && r.nanos == 0 && r.tz == tz,
            ValueRef::DateTime64(t, p, tz) => r.secs == tick_secs(t as int, p.spec_digits() as nat)
                && r.nanos == tick_nanos(t as int, p.spec_digits() as nat) && r.tz == tz,
            _ => false,
        }
    }

    open spec fn error_of(v: ValueRef<'a>) -> (Seq<char>, Seq<char>) {
        (value_tag_name(v), "DateTime<Tz>"@)
    }

    fn accepts_element(t: &SqlType) -> (r: bool) {
        match t {
            SqlType::DateTime => true,
            SqlType::DateTime64 => true,
            _ => false,
        }
    }

    fn dst_name() -> (r: String) {
        String::from_str("DateTime<Tz>")
    }

    fn takes_bytes() -> (r: bool) {
        false
    }

    fn from_sql(v: &ValueRef<'a>) -> (r: Result<LocalDateTime, FromSqlError>) {
        match v {
            ValueRef::DateTime(s, tz) => Ok(LocalDateTime { secs: *s as i64, nanos: 0, tz: *tz }),
            ValueRef::DateTime64(t, p, tz) => {
                let (secs, nanos) = split_ticks(*t, p.digits());
                Ok(LocalDateTime { secs, nanos, tz: *tz })
            },
            _ => Err(FromSqlError::mismatch(v, Self::dst_name())),
        }
    }
}

impl<'a, T: FromSql<'a>> FromSql<'a> for Option<T> {
    open spec fn element_ok(t: SqlType) -> bool {
        t matches SqlType::Nullable(b) && T::element_ok(*b)
    }

    open spec fn dst() -> Seq<char> {
        "Option<"@ + T::dst() + ">"@
    }

    open spec fn byte_elements() -> bool {
        false
    }

    open spec fn converts(v: ValueRef<'a>) -> bool {
        match v {
            ValueRef::Nullable(Nullable::Absent(_)) => true,
            ValueRef::Nullable(Nullable::Present(b)) => T::converts(*b),
            _ => false,
        }
    }

    open spec fn denotes(v: ValueRef<'a>, r: Option<T>) -> bool {
        match v {
            ValueRef::Nullable(Nullable::Absent(_)) => r is None,
            ValueRef::Nullable(Nullable::Present(b)) => r matches Some(x) && T::denotes(*b, x),
            _ => false,
        }
    }

    open spec fn error_of(v: ValueRef<'a>) -> (Seq<char>, Seq<char>) {
        match v {
            ValueRef::Nullable(Nullable::Present(b)) => T::error_of(*b),
            _ => (value_tag_name(v), Self::dst()),
        }
    }

    fn accepts_element(t: &SqlType) -> (r: bool) {
        match t {
            SqlType::Nullable(b) => T::accepts_element(b),
            _ => false,
        }
    }

    fn dst_name() -> (r: String) {
        let mut r = String::from_str("Option<");
        r.append(T::dst_name().as_str());
        r.append(">");
        r
    }

    fn takes_bytes() -> (r: bool) {
        false
    }

    fn from_sql(v: &ValueRef<'a>) -> (r: Result<Option<T>, FromSqlError>) {
        match v {
            ValueRef::Nullable(Nullable::Absent(_)) => Ok(None),
            ValueRef::Nullable(Nullable::Present(b)) => match T::from_sql(b) {
                Ok(x) => Ok(Some(x)),
                Err(e) => Err(e),
            },
            _ => Err(FromSqlError::mismatch(v, Self::dst_name())),
        }
    }
}

/// The position of the first element of `vs` that does not convert to `T`.
pub open spec fn first_failure<'a, T: FromSql<'a>>(vs: Seq<ValueRef<'a>>) -> int {
    choose|k: int|
        0 <= k < vs.len() && !T::converts(vs[k]) && forall|j: int| 0 <= j < k ==> T::converts(
            #[trigger] vs[j],
        )
}

/// An element of an array that converts converts itself.
pub proof fn lemma_array_element_converts<'a, T: FromSql<'a>>(v: ValueRef<'a>, i: int)
    requires
        <Vec<T> as FromSql<'a>>::converts(v),
        v matches ValueRef::Array(_, vs) && 0 <= i < vs@.len(),
    ensures
        v matches ValueRef::Array(_, vs) && T::converts(vs@[i]),
{
}

/// A byte of a text value that converts converts itself.
pub proof fn lemma_byte_converts<'a, T: FromSql<'a>>(v: ValueRef<'a>, i: int)
    requires
        <Vec<T> as FromSql<'a>>::converts(v),
        v matches ValueRef::String(b) && 0 <= i < b@.len(),
    ensures
        v matches ValueRef::String(b) && T::converts(ValueRef::UInt8(b@[i])),
{
}

impl<'a, T: FromSql<'a>> FromSql<'a> for Vec<T> {
    open spec fn element_ok(t: SqlType) -> bool {
        t matches SqlType::Array(b) && T::element_ok(*b)
    }

    open spec fn dst() -> Seq<char> {
        "Vec<"@ + T::dst() + ">"@
    }

    open spec fn byte_elements() -> bool {
        false
    }

    /// An array converts element by element; a text value converts byte by
    /// byte where `T` takes bytes.
    open spec fn converts(v: ValueRef<'a>) -> bool {
        match v {
            ValueRef::Array(t, vs) => T::element_ok(t) && forall|i: int|
                0 <= i < vs@.len() ==> T::converts(#[trigger] vs@[i]),
            ValueRef::String(b) => T::byte_elements() && forall|i: int|
                0 <= i < b@.len() ==> T::converts(ValueRef::UInt8(#[trigger] b@[i])),
            _ => false,
        }
    }

    open spec fn denotes(v: ValueRef<'a>, r: Vec<T>) -> bool {
        match v {
            ValueRef::Array(t, vs) => r@.len() == vs@.len() && forall|i: int|
                0 <= i < vs@.len() ==> T::denotes(#[trigger] vs@[i], r@[i]),
            ValueRef::String(b) => r@.len() == b@.len() && forall|i: int|
                0 <= i < b@.len() ==> T::denotes(ValueRef::UInt8(#[trigger] b@[i]), r@[i]),
            _ => false,
        }
    }

    open spec fn error_of(v: ValueRef<'a>) -> (Seq<char>, Seq<char>) {
        match v {
            ValueRef::Array(t, vs) => if T::element_ok(t) {
                T::error_of(vs@[first_failure::<T>(vs@)])
            } else {
                (value_tag_name(v), Self::dst())
            },
            _ => (value_tag_name(v), Self::dst()),
        }
    }

    fn accepts_element(t: &SqlType) -> (r: bool) {
        match t {
            SqlType::Array(b) => T::accepts_element(b),
            _ => false,
        }
    }

    fn dst_name() -> (r: String) {
        let mut r = String::from_str("Vec<");
        r.append(T::dst_name().as_str());
        r.append(">");
        r
    }

    fn takes_bytes() -> (r: bool) {
        false
    }

    fn from_sql(v: &ValueRef<'a>) -> (r: Result<Vec<T>, FromSqlError>) {
        match v {
            ValueRef::Array(t, vs) => {
                if !T::accepts_element(t) {
                    return Err(FromSqlError::mismatch(v, Self::dst_name()));
                }
                let mut result: Vec<T> = Vec::new();
                let mut i: usize = 0;
                while i < vs.len()
                    invariant
                        *v == ValueRef::Array(*t, *vs),
                        T::element_ok(*t),
                        i <= vs@.len(),
                        result@.len() == i,
                        forall|j: int| 0 <= j < i ==> T::converts(#[trigger] vs@[j]),
                        forall|j: int| 0 <= j < i ==> T::denotes(#[trigger] vs@[j], result@[j]),
                    decreases vs@.len() - i,
                {
                    match T::from_sql(&vs[i]) {
                        Ok(x) => {
                            result.push(x);
                        },
                        Err(e) => {
                            proof {
                                let k = first_failure::<T>(vs@);
                                assert(0 <= i < vs@.len() && !T::converts(vs@[i as int]) && forall|j: int|
                                    0 <= j < i ==> T::converts(#[trigger] vs@[j]));
                                assert(0 <= k < vs@.len() && !T::converts(vs@[k]) && forall|j: int|
                                    0 <= j < k ==> T::converts(#[trigger] vs@[j]));
                                if k < i {
                                    assert(T::converts(vs@[k]));
                                } else if k > i {
                                    assert(T::converts(vs@[i as int]));
                                }
                                assert(k == i);
                                if Self::converts(*v) {
                                    lemma_array_element_converts::<T>(*v, i as int);
                                }
                            }
                            return Err(e);
                        },
                    }
                    i = i + 1;
                }
                Ok(result)
            },
            ValueRef::String(b) => {
                if !T::takes_bytes() {
                    return Err(FromSqlError::mismatch(v, Self::dst_name()));
                }
                let mut result: Vec<T> = Vec::new();
                let mut i: usize = 0;
                while i < b.len()
                    invariant
                        *v == ValueRef::String(*b),
                        T::byte_elements(),
                        i <= b@.len(),
                        result@.len() == i,
                        forall|j: int| 0 <= j < i ==> T::converts(ValueRef::UInt8(#[trigger] b@[j])),
                        forall|j: int| 0 <= j < i ==> T::denotes(ValueRef::UInt8(#[trigger] b@[j]), result@[j]),
                    decreases b@.len() - i,
                {
                    let e = ValueRef::UInt8(b[i]);
                    match T::from_sql(&e) {
                        Ok(x) => {
                            result.push(x);
                        },
                        Err(_) => {
                            proof {
                                if Self::converts(*v) {
                                    lemma_byte_converts::<T>(*v, i as int);
                                }
                            }
                            return Err(FromSqlError::mismatch(v, Self::dst_name()));
                        },
                    }
                    i = i + 1;
                }
                Ok(result)
            },
            _ => Err(FromSqlError::mismatch(v, Self::dst_name())),
        }
    }
}

impl<'a, T1> FromSql<'a> for (T1,) where
    T1: FromSql<'a>,
{
    open spec fn element_ok(t: SqlType) -> bool {
        t is Tuple
    }

    open spec fn dst() -> Seq<char> {
        "("@ + T1::dst() + ",)"@
    }

    open spec fn byte_elements() -> bool {
        false
    }

    open spec fn converts(v: ValueRef<'a>) -> bool {
        v matches ValueRef::Tuple(vs) && vs@.len() == 1 && T1::converts(vs@[0])
    }

    open spec fn denotes(v: ValueRef<'a>, r: (T1,)) -> bool {
        v matches ValueRef::Tuple(vs) && vs@.len() == 1 && T1::denotes(vs@[0], r.0)
    }

    open spec fn error_of(v: ValueRef<'a>) -> (Seq<char>, Seq<char>) {
        match v {
            ValueRef::Tuple(vs) => if vs@.len() == 1 {
                {
                    T1::error_of(vs@[0])
                }
            } else {
                (value_tag_name(v), Self::dst())
            },
            _ => (value_tag_name(v), Self::dst()),
        }
    }

    fn accepts_element(t: &SqlType) -> (r: bool) {
        match t {
            SqlType::Tuple(_) => true,
            _ => false,
        }
    }

    fn dst_name() -> (r: String) {
        let mut r = String::from_str("(");
        r.append(T1::dst_name().as_str());
        r.append(",)");
        r
    }

    fn takes_bytes() -> (r: bool) {
        false
    }

    fn from_sql(v: &ValueRef<'a>) -> (r: Result<(T1,), FromSqlError>) {
        match v {
            ValueRef::Tuple(vs) => {
                if vs.len() != 1 {
                    return Err(FromSqlError::mismatch(v, Self::dst_name()));
                }
                let x0 = match T1::from_sql(&vs[0]) {
                    Ok(x) => x,
                    Err(e) => return Err(e),
                };
                Ok((x0,))
            },
            _ => Err(FromSqlError::mismatch(v, Self::dst_name())),
        }
    }
}

impl<'a, T1, T2> FromSql<'a> for (T1, T2) where
    T1: FromSql<'a>,
    T2: FromSql<'a>,
{
    open spec fn element_ok(t: SqlType) -> bool {
        t is Tuple
    }

    open spec fn dst() -> Seq<char> {
        "("@ + T1::dst() + ", "@ + T2::dst() + ")"@
    }

    open spec fn byte_elements() -> bool {
        false
    }

    open spec fn converts(v: ValueRef<'a>) -> bool {
        v matches ValueRef::Tuple(vs) && vs@.len() == 2 && T1::converts(vs@[0]) && T2::converts(vs@[1])
    }

    open spec fn denotes(v: ValueRef<'a>, r: (T1, T2)) -> bool {
        v matches ValueRef::Tuple(vs) && vs@.len() == 2 && T1::denotes(vs@[0], r.0) && T2::denotes(vs@[1], r.1)
    }

    open spec fn error_of(v: ValueRef<'a>) -> (Seq<char>, Seq<char>) {
        match v {
            ValueRef::Tuple(vs) => if vs@.len() == 2 {
                if !T1::converts(vs@[0]) {
                    T1::error_of(vs@[0])
                } else {
                    T2::error_of(vs@[1])
                }
            } else {
                (value_tag_name(v), Self::dst())
            },
            _ => (value_tag_name(v), Self::dst()),
        }
    }

    fn accepts_element(t: &SqlType) -> (r: bool) {
        match t {
            SqlType::Tuple(_) => true,
            _ => false,
        }
    }

    fn dst_name() -> (r: String) {
        let mut r = String::from_str("(");
        r.append(T1::dst_name().as_str());
        r.append(", ");
        r.append(T2::dst_name().as_str());
        r.append(")");
        r
    }

    fn takes_bytes() -> (r: bool) {
        false
    }

    fn from_sql(v: &ValueRef<'a>) -> (r: Result<(T1, T2), FromSqlError>) {
        match v {
            ValueRef::Tuple(vs) => {
                if vs.len() != 2 {
                    return Err(FromSqlError::mismatch(v, Self::dst_name()));
                }
                let x0 = match T1::from_sql(&vs[0]) {
                    Ok(x) => x,
                    Err(e) => return Err(e),
                };
                let x1 = match T2::from_sql(&vs[1]) {
                    Ok(x) => x,
                    Err(e) => return Err(e),
                };
                Ok((x0, x1))
            },
            _ => Err(FromSqlError::mismatch(v, Self::dst_name())),
        }
    }
}

impl<'a, T1, T2, T3> FromSql<'a> for (T1, T2, T3) where
    T1: FromSql<'a>,
    T2: FromSql<'a>,
    T3: FromSql<'a>,
{
    open spec fn element_ok(t: SqlType) -> bool {
        t is Tuple
    }

    open spec fn dst() -> Seq<char> {
        "("@ + T1::dst() + ", "@ + T2::dst() + ", "@ + T3::dst() + ")"@
    }

    open spec fn byte_elements() -> bool {
        false
    }

    open spec fn converts(v: ValueRef<'a>) -> bool {
        v matches ValueRef::Tuple(vs) && vs@.len() == 3 && T1::converts(vs@[0]) && T2::converts(vs@[1]) && T3::converts(vs@[2])
    }

    open spec fn denotes(v: ValueRef<'a>, r: (T1, T2, T3)) -> bool {
        v matches ValueRef::Tuple(vs) && vs@.len() == 3 && T1::denotes(vs@[0], r.0) && T2::denotes(vs@[1], r.1) && T3::denotes(vs@[2], r.2)
    }

    open spec fn error_of(v: ValueRef<'a>) -> (Seq<char>, Seq<char>) {
        match v {
            ValueRef::Tuple(vs) => if vs@.len() == 3 {
                if !T1::converts(vs@[0]) {
                    T1::error_of(vs@[0])
                } else if !T2::converts(vs@[1]) {
                    T2::error_of(vs@[1])
                } else {
                    T3::error_of(vs@[2])
                }
            } else {
                (value_tag_name(v), Self::dst())
            },
            _ => (value_tag_name(v), Self::dst()),
        }
    }

    fn accepts_element(t: &SqlType) -> (r: bool) {
        match t {
            SqlType::Tuple(_) => true,
            _ => false,
        }
    }

    fn dst_name() -> (r: String) {
        let mut r = String::from_str("(");
        r.append(T1::dst_name().as_str());
        r.append(", ");
        r.append(T2::dst_name().as_str());
        r.append(", ");
        r.append(T3::dst_name().as_str());
        r.append(")");
        r
    }

    fn takes_bytes() -> (r: bool) {
        false
    }

    fn from_sql(v: &ValueRef<'a>) -> (r: Result<(T1, T2, T3), FromSqlError>) {
        match v {
            ValueRef::Tuple(vs) => {
                if vs.len() != 3 {
                    return Err(FromSqlError::mismatch(v, Self::dst_name()));
                }
                let x0 = match T1::from_sql(&vs[0]) {
                    Ok(x) => x,
                    Err(e) => return Err(e),
                };
                let x1 = match T2::from_sql(&vs[1]) {
                    Ok(x) => x,
                    Err(e) => return Err(e),
                };
                let x2 = match T3::from_sql(&vs[2]) {
                    Ok(x) => x,
                    Err(e) => return Err(e),
                };
                Ok((x0, x1, x2))
            },
            _ => Err(FromSqlError::mismatch(v, Self::dst_name())),
        }
    }
}

impl<'a, T1, T2, T3, T4> FromSql<'a> for (T1, T2, T3, T4) where
    T1: FromSql<'a>,
    T2: FromSql<'a>,
    T3: FromSql<'a>,
    T4: FromSql<'a>,
{
    open spec fn element_ok(t: SqlType) -> bool {
        t is Tuple
    }

    open spec fn dst() -> Seq<char> {
        "("@ + T1::dst() + ", "@ + T2::dst() + ", "@ + T3::dst() + ", "@ + T4::dst() + ")"@
    }

    open spec fn byte_elements() -> bool {
        false
    }

    open spec fn converts(v: ValueRef<'a>) -> bool {
        v matches ValueRef::Tuple(vs) && vs@.len() == 4 && T1::converts(vs@[0]) && T2::converts(vs@[1]) && T3::converts(vs@[2]) && T4::converts(vs@[3])
    }

    open spec fn denotes(v: ValueRef<'a>, r: (T1, T2, T3, T4)) -> bool {
        v matches ValueRef::Tuple(vs) && vs@.len() == 4 && T1::denotes(vs@[0], r.0) && T2::denotes(vs@[1], r.1) && T3::denotes(vs@[2], r.2) && T4::denotes(vs@[3], r.3)
    }

    open spec fn error_of(v: ValueRef<'a>) -> (Seq<char>, Seq<char>) {
        match v {
            ValueRef::Tuple(vs) => if vs@.len() == 4 {
                if !T1::converts(vs@[0]) {
                    T1::error_of(vs@[0])
                } else if !T2::converts(vs@[1]) {
                    T2::error_of(vs@[1])
                } else if !T3::converts(vs@[2]) {
                    T3::error_of(vs@[2])
                } else {
                    T4::error_of(vs@[3])
                }
            } else {
                (value_tag_name(v), Self::dst())
            },
            _ => (value_tag_name(v), Self::dst()),
        }
    }

    fn accepts_element(t: &SqlType) -> (r: bool) {
        match t {
            SqlType::Tuple(_) => true,
            _ => false,
        }
    }

    fn dst_name() -> (r: String) {
        let mut r = String::from_str("(");
        r.append(T1::dst_name().as_str());
        r.append(", ");
        r.append(T2::dst_name().as_str());
        r.append(", ");
        r.append(T3::dst_name().as_str());
        r.append(", ");
        r.append(T4::dst_name().as_str());
        r.append(")");
        r
    }

    fn takes_bytes() -> (r: bool) {
        false
    }

    fn from_sql(v: &ValueRef<'a>) -> (r: Result<(T1, T2, T3, T4), FromSqlError>) {
        match v {
            ValueRef::Tuple(vs) => {
                if vs.len() != 4 {
                    return Err(FromSqlError::mismatch(v, Self::dst_name()));
                }
                let x0 = match T1::from_sql(&vs[0]) {
                    Ok(x) => x,
                    Err(e) => return Err(e),
                };
                let x1 = match T2::from_sql(&vs[1]) {
                    Ok(x) => x,
                    Err(e) => return Err(e),
                };
                let x2 = match T3::from_sql(&vs[2]) {
                    Ok(x) => x,
                    Err(e) => return Err(e),
                };
                let x3 = match T4::from_sql(&vs[3]) {
                    Ok(x) => x,
                    Err(e) => return Err(e),
                };
                Ok((x0, x1, x2, x3))
            },
            _ => Err(FromSqlError::mismatch(v, Self::dst_name())),
        }
    }
}

impl<'a, T1, T2, T3, T4, T5> FromSql<'a> for (T1, T2, T3, T4, T5) where
    T1: FromSql<'a>,
    T2: FromSql<'a>,
    T3: FromSql<'a>,
    T4: FromSql<'a>,
    T5: FromSql<'a>,
{
    open spec fn element_ok(t: SqlType) -> bool {
        t is Tuple
    }

    open spec fn dst() -> Seq<char> {
        "("@ + T1::dst() + ", "@ + T2::dst() + ", "@ + T3::dst() + ", "@ + T4::dst() + ", "@ + T5::dst() + ")"@
    }

    open spec fn byte_elements() -> bool {
        false
    }

    open spec fn converts(v: ValueRef<'a>) -> bool {
        v matches ValueRef::Tuple(vs) && vs@.len() == 5 && T1::converts(vs@[0]) && T2::converts(vs@[1]) && T3::converts(vs@[2]) && T4::converts(vs@[3]) && T5::converts(vs@[4])
    }

    open spec fn denotes(v: ValueRef<'a>, r: (T1, T2, T3, T4, T5)) -> bool {
        v matches ValueRef::Tuple(vs) && vs@.len() == 5 && T1::denotes(vs@[0], r.0) && T2::denotes(vs@[1], r.1) && T3::denotes(vs@[2], r.2) && T4::denotes(vs@[3], r.3) && T5::denotes(vs@[4], r.4)
    }

    open spec fn error_of(v: ValueRef<'a>) -> (Seq<char>, Seq<char>) {
        match v {
            ValueRef::Tuple(vs) => if vs@.len() == 5 {
                if !T1::converts(vs@[0]) {
                    T1::error_of(vs@[0])
                } else if !T2::converts(vs@[1]) {
                    T2::error_of(vs@[1])
                } else if !T3::converts(vs@[2]) {
                    T3::error_of(vs@[2])
                } else if !T4::converts(vs@[3]) {
                    T4::error_of(vs@[3])
                } else {
                    T5::error_of(vs@[4])
                }
            } else {
                (value_tag_name(v), Self::dst())
            },
            _ => (value_tag_name(v), Self::dst()),
        }
    }

    fn accepts_element(t: &SqlType) -> (r: bool) {
        match t {
            SqlType::Tuple(_) => true,
            _ => false,
        }
    }

    fn dst_name() -> (r: String) {
        let mut r = String::from_str("(");
        r.append(T1::dst_name().as_str());
        r.append(", ");
        r.append(T2::dst_name().as_str());
        r.append(", ");
        r.append(T3::dst_name().as_str());
        r.append(", ");
        r.append(T4::dst_name().as_str());
        r.append(", ");
        r.append(T5::dst_name().as_str());
        r.append(")");
        r
    }

    fn takes_bytes() -> (r: bool) {
        false
    }

    fn from_sql(v: &ValueRef<'a>) -> (r: Result<(T1, T2, T3, T4, T5), FromSqlError>) {
        match v {
            ValueRef::Tuple(vs) => {
                if vs.len() != 5 {
                    return Err(FromSqlError::mismatch(v, Self::dst_name()));
                }
                let x0 = match T1::from_sql(&vs[0]) {
                    Ok(x) => x,
                    Err(e) => return Err(e),
                };
                let x1 = match T2::from_sql(&vs[1]) {
                    Ok(x) => x,
                    Err(e) => return Err(e),
                };
                let x2 = match T3::from_sql(&vs[2]) {
                    Ok(x) => x,
                    Err(e) => return Err(e),
                };
                let x3 = match T4::from_sql(&vs[3]) {
                    Ok(x) => x,
                    Err(e) => return Err(e),
                };
                let x4 = match T5::from_sql(&vs[4]) {
                    Ok(x) => x,
                    Err(e) => return Err(e),
                };
                Ok((x0, x1, x2, x3, x4))
            },
            _ => Err(FromSqlError::mismatch(v, Self::dst_name())),
        }
    }
}

impl<'a, T1, T2, T3, T4, T5, T6> FromSql<'a> for (T1, T2, T3, T4, T5, T6) where
    T1: FromSql<'a>,
    T2: FromSql<'a>,
    T3: FromSql<'a>,
    T4: FromSql<'a>,
    T5: FromSql<'a>,
    T6: FromSql<'a>,
{
    open spec fn element_ok(t: SqlType) -> bool {
        t is Tuple
    }

    open spec fn dst() -> Seq<char> {
        "("@ + T1::dst() + ", "@ + T2::dst() + ", "@ + T3::dst() + ", "@ + T4::dst() + ", "@ + T5::dst() + ", "@ + T6::dst() + ")"@
    }

    open spec fn byte_elements() -> bool {
        false
    }

    open spec fn converts(v: ValueRef<'a>) -> bool {
        v matches ValueRef::Tuple(vs) && vs@.len() == 6 && T1::converts(vs@[0]) && T2::converts(vs@[1]) && T3::converts(vs@[2]) && T4::converts(vs@[3]) && T5::converts(vs@[4]) && T6::converts(vs@[5])
    }

    open spec fn denotes(v: ValueRef<'a>, r: (T1, T2, T3, T4, T5, T6)) -> bool {
        v matches ValueRef::Tuple(vs) && vs@.len() == 6 && T1::denotes(vs@[0], r.0) && T2::denotes(vs@[1], r.1) && T3::denotes(vs@[2], r.2) && T4::denotes(vs@[3], r.3) && T5::denotes(vs@[4], r.4) && T6::denotes(vs@[5], r.5)
    }

    open spec fn error_of(v: ValueRef<'a>) -> (Seq<char>, Seq<char>) {
        match v {
            ValueRef::Tuple(vs) => if vs@.len() == 6 {
                if !T1::converts(vs@[0]) {
                    T1::error_of(vs@[0])
                } else if !T2::converts(vs@[1]) {
                    T2::error_of(vs@[1])
                } else if !T3::converts(vs@[2]) {
                    T3::error_of(vs@[2])
                } else if !T4::converts(vs@[3]) {
                    T4::error_of(vs@[3])
                } else if !T5::converts(vs@[4]) {
                    T5::error_of(vs@[4])
                } else {
                    T6::error_of(vs@[5])
                }
            } else {
                (value_tag_name(v), Self::dst())
            },
            _ => (value_tag_name(v), Self::dst()),
        }
    }

    fn accepts_element(t: &SqlType) -> (r: bool) {
        match t {
            SqlType::Tuple(_) => true,
            _ => false,
        }
    }

    fn dst_name() -> (r: String) {
        let mut r = String::from_str("(");
        r.append(T1::dst_name().as_str());
        r.append(", ");
        r.append(T2::dst_name().as_str());
        r.append(", ");
        r.append(T3::dst_name().as_str());
        r.append(", ");
        r.append(T4::dst_name().as_str());
        r.append(", ");
        r.append(T5::dst_name().as_str());
        r.append(", ");
        r.append(T6::dst_name().as_str());
        r.append(")");
        r
    }

    fn takes_bytes() -> (r: bool) {
        false
    }

    fn from_sql(v: &ValueRef<'a>) -> (r: Result<(T1, T2, T3, T4, T5, T6), FromSqlError>) {
        match v {
            ValueRef::Tuple(vs) => {
                if vs.len() != 6 {
                    return Err(FromSqlError::mismatch(v, Self::dst_name()));
                }
                let x0 = match T1::from_sql(&vs[0]) {
                    Ok(x) => x,
                    Err(e) => return Err(e),
                };
                let x1 = match T2::from_sql(&vs[1]) {
                    Ok(x) => x,
                    Err(e) => return Err(e),
                };
                let x2 = match T3::from_sql(&vs[2]) {
                    Ok(x) => x,
                    Err(e) => return Err(e),
                };
                let x3 = match T4::from_sql(&vs[3]) {
                    Ok(x) => x,
                    Err(e) => return Err(e),
                };
                let x4 = match T5::from_sql(&vs[4]) {
                    Ok(x) => x,
                    Err(e) => return Err(e),
                };
                let x5 = match T6::from_sql(&vs[5]) {
                    Ok(x) => x,
                    Err(e) => return Err(e),
                };
                Ok((x0, x1, x2, x3, x4, x5))
            },
            _ => Err(FromSqlError::mismatch(v, Self::dst_name())),
        }
    }
}

impl<'a, T1, T2, T3, T4, T5, T6, T7> FromSql<'a> for (T1, T2, T3, T4, T5, T6, T7) where
    T1: FromSql<'a>,
    T2: FromSql<'a>,
    T3: FromSql<'a>,
    T4: FromSql<'a>,
    T5: FromSql<'a>,
    T6: FromSql<'a>,
    T7: FromSql<'a>,
{
    open spec fn element_ok(t: SqlType) -> bool {
        t is Tuple
    }

    open spec fn dst() -> Seq<char> {
        "("@ + T1::dst() + ", "@ + T2::dst() + ", "@ + T3::dst() + ", "@ + T4::dst() + ", "@ + T5::dst() + ", "@ + T6::dst() + ", "@ + T7::dst() + ")"@
    }

    open spec fn byte_elements() -> bool {
        false
    }

    open spec fn converts(v: ValueRef<'a>) -> bool {
        v matches ValueRef::Tuple(vs) && vs@.len() == 7 && T1::converts(vs@[0]) && T2::converts(vs@[1]) && T3::converts(vs@[2]) && T4::converts(vs@[3]) && T5::converts(vs@[4]) && T6::converts(vs@[5]) && T7::converts(vs@[6])
    }

    open spec fn denotes(v: ValueRef<'a>, r: (T1, T2, T3, T4, T5, T6, T7)) -> bool {
        v matches ValueRef::Tuple(vs) && vs@.len() == 7 && T1::denotes(vs@[0], r.0) && T2::denotes(vs@[1], r.1) && T3::denotes(vs@[2], r.2) && T4::denotes(vs@[3], r.3) && T5::denotes(vs@[4], r.4) && T6::denotes(vs@[5], r.5) && T7::denotes(vs@[6], r.6)
    }

    open spec fn error_of(v: ValueRef<'a>) -> (Seq<char>, Seq<char>) {
        match v {
            ValueRef::Tuple(vs) => if vs@.len() == 7 {
                if !T1::converts(vs@[0]) {
                    T1::error_of(vs@[0])
                } else if !T2::converts(vs@[1]) {
                    T2::error_of(vs@[1])
                } else if !T3::converts(vs@[2]) {
                    T3::error_of(vs@[2])
                } else if !T4::converts(vs@[3]) {
                    T4::error_of(vs@[3])
                } else if !T5::converts(vs@[4]) {
                    T5::error_of(vs@[4])
                } else if !T6::converts(vs@[5]) {
                    T6::error_of(vs@[5])
                } else {
                    T7::error_of(vs@[6])
                }
            } else {
                (value_tag_name(v), Self::dst())
            },
            _ => (value_tag_name(v), Self::dst()),
        }
    }

    fn accepts_element(t: &SqlType) -> (r: bool) {
        match t {
            SqlType::Tuple(_) => true,
            _ => false,
        }
    }

    fn dst_name() -> (r: String) {
        let mut r = String::from_str("(");
        r.append(T1::dst_name().as_str());
        r.append(", ");
        r.append(T2::dst_name().as_str());
        r.append(", ");
        r.append(T3::dst_name().as_str());
        r.append(", ");
        r.append(T4::dst_name().as_str());
        r.append(", ");
        r.append(T5::dst_name().as_str());
        r.append(", ");
        r.append(T6::dst_name().as_str());
        r.append(", ");
        r.append(T7::dst_name().as_str());
        r.append(")");
        r
    }

    fn takes_bytes() -> (r: bool) {
        false
    }

    fn from_sql(v: &ValueRef<'a>) -> (r: Result<(T1, T2, T3, T4, T5, T6, T7), FromSqlError>) {
        match v {
            ValueRef::Tuple(vs) => {
                if vs.len() != 7 {
                    return Err(FromSqlError::mismatch(v, Self::dst_name()));
                }
                let x0 = match T1::from_sql(&vs[0]) {
                    Ok(x) => x,
                    Err(e) => return Err(e),
                };
                let x1 = match T2::from_sql(&vs[1]) {
                    Ok(x) => x,
                    Err(e) => return Err(e),
                };
                let x2 = match T3::from_sql(&vs[2]) {
                    Ok(x) => x,
                    Err(e) => return Err(e),
                };
                let x3 = match T4::from_sql(&vs[3]) {
                    Ok(x) => x,
                    Err(e) => return Err(e),
                };
                let x4 = match T5::from_sql(&vs[4]) {
                    Ok(x) => x,
                    Err(e) => return Err(e),
                };
                let x5 = match T6::from_sql(&vs[5]) {
                    Ok(x) => x,
                    Err(e) => return Err(e),
                };
                let x6 = match T7::from_sql(&vs[6]) {
                    Ok(x) => x,
                    Err(e) => return Err(e),
                };
                Ok((x0, x1, x2, x3, x4, x5, x6))
            },
            _ => Err(FromSqlError::mismatch(v, Self::dst_name())),
        }
    }
}

impl<'a, T1, T2, T3, T4, T5, T6, T7, T8> FromSql<'a> for (T1, T2, T3, T4, T5, T6, T7, T8) where
    T1: FromSql<'a>,
    T2: FromSql<'a>,
    T3: FromSql<'a>,
    T4: FromSql<'a>,
    T5: FromSql<'a>,
    T6: FromSql<'a>,
    T7: FromSql<'a>,
    T8: FromSql<'a>,
{
    open spec fn element_ok(t: SqlType) -> bool {
        t is Tuple
    }

    open spec fn dst() -> Seq<char> {
        "("@ + T1::dst() + ", "@ + T2::dst() + ", "@ + T3::dst() + ", "@ + T4::dst() + ", "@ + T5::dst() + ", "@ + T6::dst() + ", "@ + T7::dst() + ", "@ + T8::dst() + ")"@
    }

    open spec fn byte_elements() -> bool {
        false
    }

    open spec fn converts(v: ValueRef<'a>) -> bool {
        v matches ValueRef::Tuple(vs) && vs@.len() == 8 && T1::converts(vs@[0]) && T2::converts(vs@[1]) && T3::converts(vs@[2]) && T4::converts(vs@[3]) && T5::converts(vs@[4]) && T6::converts(vs@[5]) && T7::converts(vs@[6]) && T8::converts(vs@[7])
    }

    open spec fn denotes(v: ValueRef<'a>, r: (T1, T2, T3, T4, T5, T6, T7, T8)) -> bool {
        v matches ValueRef::Tuple(vs) && vs@.len() == 8 && T1::denotes(vs@[0], r.0) && T2::denotes(vs@[1], r.1) && T3::denotes(vs@[2], r.2) && T4::denotes(vs@[3], r.3) && T5::denotes(vs@[4], r.4) && T6::denotes(vs@[5], r.5) && T7::denotes(vs@[6], r.6) && T8::denotes(vs@[7], r.7)
    }

    open spec fn error_of(v: ValueRef<'a>) -> (Seq<char>, Seq<char>) {
        match v {
            ValueRef::Tuple(vs) => if vs@.len() == 8 {
                if !T1::converts(vs@[0]) {
                    T1::error_of(vs@[0])
                } else if !T2::converts(vs@[1]) {
                    T2::error_of(vs@[1])
                } else if !T3::converts(vs@[2]) {
                    T3::error_of(vs@[2])
                } else if !T4::converts(vs@[3]) {
                    T4::error_of(vs@[3])
                } else if !T5::converts(vs@[4]) {
                    T5::error_of(vs@[4])
                } else if !T6::converts(vs@[5]) {
                    T6::error_of(vs@[5])
                } else if !T7::converts(vs@[6]) {
                    T7::error_of(vs@[6])
                } else {
                    T8::error_of(vs@[7])
                }
            } else {
                (value_tag_name(v), Self::dst())
            },
            _ => (value_tag_name(v), Self::dst()),
        }
    }

    fn accepts_element(t: &SqlType) -> (r: bool) {
        match t {
            SqlType::Tuple(_) => true,
            _ => false,
        }
    }

    fn dst_name() -> (r: String) {
        let mut r = String::from_str("(");
        r.append(T1::dst_name().as_str());
        r.append(", ");
        r.append(T2::dst_name().as_str());
        r.append(", ");
        r.append(T3::dst_name().as_str());
        r.append(", ");
        r.append(T4::dst_name().as_str());
        r.append(", ");
        r.append(T5::dst_name().as_str());
        r.append(", ");
        r.append(T6::dst_name().as_str());
        r.append(", ");
        r.append(T7::dst_name().as_str());
        r.append(", ");
        r.append(T8::dst_name().as_str());
        r.append(")");
        r
    }

    fn takes_bytes() -> (r: bool) {
        false
    }

    fn from_sql(v: &ValueRef<'a>) -> (r: Result<(T1, T2, T3, T4, T5, T6, T7, T8), FromSqlError>) {
        match v {
            ValueRef::Tuple(vs) => {
                if vs.len() != 8 {
                    return Err(FromSqlError::mismatch(v, Self::dst_name()));
                }
                let x0 = match T1::from_sql(&vs[0]) {
                    Ok(x) => x,
                    Err(e) => return Err(e),
                };
                let x1 = match T2::from_sql(&vs[1]) {
                    Ok(x) => x,
                    Err(e) => return Err(e),
                };
                let x2 = match T3::from_sql(&vs[2]) {
                    Ok(x) => x,
                    Err(e) => return Err(e),
                };
                let x3 = match T4::from_sql(&vs[3]) {
                    Ok(x) => x,
                    Err(e) => return Err(e),
                };
                let x4 = match T5::from_sql(&vs[4]) {
                    Ok(x) => x,
                    Err(e) => return Err(e),
                };
                let x5 = match T6::from_sql(&vs[5]) {
                    Ok(x) => x,
                    Err(e) => return Err(e),
                };
                let x6 = match T7::from_sql(&vs[6]) {
                    Ok(x) => x,
                    Err(e) => return Err(e),
                };
                let x7 = match T8::from_sql(&vs[7]) {
                    Ok(x) => x,
                    Err(e) => return Err(e),
                };
                Ok((x0, x1, x2, x3, x4, x5, x6, x7))
            },
            _ => Err(FromSqlError::mismatch(v, Self::dst_name())),
        }
    }
}

impl<'a, T1, T2, T3, T4, T5, T6, T7, T8, T9> FromSql<'a> for (T1, T2, T3, T4, T5, T6, T7, T8, T9) where
    T1: FromSql<'a>,
    T2: FromSql<'a>,
    T3: FromSql<'a>,
    T4: FromSql<'a>,
    T5: FromSql<'a>,
    T6: FromSql<'a>,
    T7: FromSql<'a>,
    T8: FromSql<'a>,
    T9: FromSql<'a>,
{
    open spec fn element_ok(t: SqlType) -> bool {
        t is Tuple
    }

    open spec fn dst() -> Seq<char> {
        "("@ + T1::dst() + ", "@ + T2::dst() + ", "@ + T3::dst() + ", "@ + T4::dst() + ", "@ + T5::dst() + ", "@ + T6::dst() + ", "@ + T7::dst() + ", "@ + T8::dst() + ", "@ + T9::dst() + ")"@
    }

    open spec fn byte_elements() -> bool {
        false
    }

    open spec fn converts(v: ValueRef<'a>) -> bool {
        v matches ValueRef::Tuple(vs) && vs@.len() == 9 && T1::converts(vs@[0]) && T2::converts(vs@[1]) && T3::converts(vs@[2]) && T4::converts(vs@[3]) && T5::converts(vs@[4]) && T6::converts(vs@[5]) && T7::converts(vs@[6]) && T8::converts(vs@[7]) && T9::converts(vs@[8])
    }

    open spec fn denotes(v: ValueRef<'a>, r: (T1, T2, T3, T4, T5, T6, T7, T8, T9)) -> bool {
        v matches ValueRef::Tuple(vs) && vs@.len() == 9 && T1::denotes(vs@[0], r.0) && T2::denotes(vs@[1], r.1) && T3::denotes(vs@[2], r.2) && T4::denotes(vs@[3], r.3) && T5::denotes(vs@[4], r.4) && T6::denotes(vs@[5], r.5) && T7::denotes(vs@[6], r.6) && T8::denotes(vs@[7], r.7) && T9::denotes(vs@[8], r.8)
    }

    open spec fn error_of(v: ValueRef<'a>) -> (Seq<char>, Seq<char>) {
        match v {
            ValueRef::Tuple(vs) => if vs@.len() == 9 {
                if !T1::converts(vs@[0]) {
                    T1::error_of(vs@[0])
                } else if !T2::converts(vs@[1]) {
                    T2::error_of(vs@[1])
                } else if !T3::converts(vs@[2]) {
                    T3::error_of(vs@[2])
                } else if !T4::converts(vs@[3]) {
                    T4::error_of(vs@[3])
                } else if !T5::converts(vs@[4]) {
                    T5::error_of(vs@[4])
                } else if !T6::converts(vs@[5]) {
                    T6::error_of(vs@[5])
                } else if !T7::converts(vs@[6]) {
                    T7::error_of(vs@[6])
                } else if !T8::converts(vs@[7]) {
                    T8::error_of(vs@[7])
                } else {
                    T9::error_of(vs@[8])
                }
            } else {
                (value_tag_name(v), Self::dst())
            },
            _ => (value_tag_name(v), Self::dst()),
        }
    }

    fn accepts_element(t: &SqlType) -> (r: bool) {
        match t {
            SqlType::Tuple(_) => true,
            _ => false,
        }
    }

    fn dst_name() -> (r: String) {
        let mut r = String::from_str("(");
        r.append(T1::dst_name().as_str());
        r.append(", ");
        r.append(T2::dst_name().as_str());
        r.append(", ");
        r.append(T3::dst_name().as_str());
        r.append(", ");
        r.append(T4::dst_name().as_str());
        r.append(", ");
        r.append(T5::dst_name().as_str());
        r.append(", ");
        r.append(T6::dst_name().as_str());
        r.append(", ");
        r.append(T7::dst_name().as_str());
        r.append(", ");
        r.append(T8::dst_name().as_str());
        r.append(", ");
        r.append(T9::dst_name().as_str());
        r.append(")");
        r
    }

    fn takes_bytes() -> (r: bool) {
        false
    }

    fn from_sql(v: &ValueRef<'a>) -> (r: Result<(T1, T2, T3, T4, T5, T6, T7, T8, T9), FromSqlError>) {
        match v {
            ValueRef::Tuple(vs) => {
                if vs.len() != 9 {
                    return Err(FromSqlError::mismatch(v, Self::dst_name()));
                }
                let x0 = match T1::from_sql(&vs[0]) {
                    Ok(x) => x,
                    Err(e) => return Err(e),
                };
                let x1 = match T2::from_sql(&vs[1]) {
                    Ok(x) => x,
                    Err(e) => return Err(e),
                };
                let x2 = match T3::from_sql(&vs[2]) {
                    Ok(x) => x,
                    Err(e) => return Err(e),
                };
                let x3 = match T4::from_sql(&vs[3]) {
                    Ok(x) => x,
                    Err(e) => return Err(e),
                };
                let x4 = match T5::from_sql(&vs[4]) {
                    Ok(x) => x,
                    Err(e) => return Err(e),
                };
                let x5 = match T6::from_sql(&vs[5]) {
                    Ok(x) => x,
                    Err(e) => return Err(e),
                };
                let x6 = match T7::from_sql(&vs[6]) {
                    Ok(x) => x,
                    Err(e) => return Err(e),
                };
                let x7 = match T8::from_sql(&vs[7]) {
                    Ok(x) => x,
                    Err(e) => return Err(e),
                };
                let x8 = match T9::from_sql(&vs[8]) {
                    Ok(x) => x,
                    Err(e) => return Err(e),
                };
                Ok((x0, x1, x2, x3, x4, x5, x6, x7, x8))
            },
            _ => Err(FromSqlError::mismatch(v, Self::dst_name())),
        }
    }
}

impl<'a, T1, T2, T3, T4, T5, T6, T7, T8, T9, T10> FromSql<'a> for (T1, T2, T3, T4, T5, T6, T7, T8, T9, T10) where
    T1: FromSql<'a>,
    T2: FromSql<'a>,
    T3: FromSql<'a>,
    T4: FromSql<'a>,
    T5: FromSql<'a>,
    T6: FromSql<'a>,
    T7: FromSql<'a>,
    T8: FromSql<'a>,
    T9: FromSql<'a>,
    T10: FromSql<'a>,
{
    open spec fn element_ok(t: SqlType) -> bool {
        t is Tuple
    }

    open spec fn dst() -> Seq<char> {
        "("@ + T1::dst() + ", "@ + T2::dst() + ", "@ + T3::dst() + ", "@ + T4::dst() + ", "@ + T5::dst() + ", "@ + T6::dst() + ", "@ + T7::dst() + ", "@ + T8::dst() + ", "@ + T9::dst() + ", "@ + T10::dst() + ")"@
    }

    open spec fn byte_elements() -> bool {
        false
    }

    open spec fn converts(v: ValueRef<'a>) -> bool {
        v matches ValueRef::Tuple(vs) && vs@.len() == 10 && T1::converts(vs@[0]) && T2::converts(vs@[1]) && T3::converts(vs@[2]) && T4::converts(vs@[3]) && T5::converts(vs@[4]) && T6::converts(vs@[5]) && T7::converts(vs@[6]) && T8::converts(vs@[7]) && T9::converts(vs@[8]) && T10::converts(vs@[9])
    }

    open spec fn denotes(v: ValueRef<'a>, r: (T1, T2, T3, T4, T5, T6, T7, T8, T9, T10)) -> bool {
        v matches ValueRef::Tuple(vs) && vs@.len() == 10 && T1::denotes(vs@[0], r.0) && T2::denotes(vs@[1], r.1) && T3::denotes(vs@[2], r.2) && T4::denotes(vs@[3], r.3) && T5::denotes(vs@[4], r.4) && T6::denotes(vs@[5], r.5) && T7::denotes(vs@[6], r.6) && T8::denotes(vs@[7], r.7) && T9::denotes(vs@[8], r.8) && T10::denotes(vs@[9], r.9)
    }

    open spec fn error_of(v: ValueRef<'a>) -> (Seq<char>, Seq<char>) {
        match v {
            ValueRef::Tuple(vs) => if vs@.len() == 10 {
                if !T1::converts(vs@[0]) {
                    T1::error_of(vs@[0])
                } else if !T2::converts(vs@[1]) {
                    T2::error_of(vs@[1])
                } else if !T3::converts(vs@[2]) {
                    T3::error_of(vs@[2])
                } else if !T4::converts(vs@[3]) {
                    T4::error_of(vs@[3])
                } else if !T5::converts(vs@[4]) {
                    T5::error_of(vs@[4])
                } else if !T6::converts(vs@[5]) {
                    T6::error_of(vs@[5])
                } else if !T7::converts(vs@[6]) {
                    T7::error_of(vs@[6])
                } else if !T8::converts(vs@[7]) {
                    T8::error_of(vs@[7])
                } else if !T9::converts(vs@[8]) {
                    T9::error_of(vs@[8])
                } else {
                    T10::error_of(vs@[9])
                }
            } else {
                (value_tag_name(v), Self::dst())
            },
            _ => (value_tag_name(v), Self::dst()),
        }
    }

    fn accepts_element(t: &SqlType) -> (r: bool) {
        match t {
            SqlType::Tuple(_) => true,
            _ => false,
        }
    }

    fn dst_name() -> (r: String) {
        let mut r = String::from_str("(");
        r.append(T1::dst_name().as_str());
        r.append(", ");
        r.append(T2::dst_name().as_str());
        r.append(", ");
        r.append(T3::dst_name().as_str());
        r.append(", ");
        r.append(T4::dst_name().as_str());
        r.append(", ");
        r.append(T5::dst_name().as_str());
        r.append(", ");
        r.append(T6::dst_name().as_str());
        r.append(", ");
        r.append(T7::dst_name().as_str());
        r.append(", ");
        r.append(T8::dst_name().as_str());
        r.append(", ");
        r.append(T9::dst_name().as_str());
        r.append(", ");
        r.append(T10::dst_name().as_str());
        r.append(")");
        r
    }

    fn takes_bytes() -> (r: bool) {
        false
    }

    fn from_sql(v: &ValueRef<'a>) -> (r: Result<(T1, T2, T3, T4, T5, T6, T7, T8, T9, T10), FromSqlError>) {
        match v {
            ValueRef::Tuple(vs) => {
                if vs.len() != 10 {
                    return Err(FromSqlError::mismatch(v, Self::dst_name()));
                }
                let x0 = match T1::from_sql(&vs[0]) {
                    Ok(x) => x,
                    Err(e) => return Err(e),
                };
                let x1 = match T2::from_sql(&vs[1]) {
                    Ok(x) => x,
                    Err(e) => return Err(e),
                };
                let x2 = match T3::from_sql(&vs[2]) {
                    Ok(x) => x,
                    Err(e) => return Err(e),
                };
                let x3 = match T4::from_sql(&vs[3]) {
                    Ok(x) => x,
                    Err(e) => return Err(e),
                };
                let x4 = match T5::from_sql(&vs[4]) {
                    Ok(x) => x,
                    Err(e) => return Err(e),
                };
                let x5 = match T6::from_sql(&vs[5]) {
                    Ok(x) => x,
                    Err(e) => return Err(e),
                };
                let x6 = match T7::from_sql(&vs[6]) {
                    Ok(x) => x,
                    Err(e) => return Err(e),
                };
                let x7 = match T8::from_sql(&vs[7]) {
                    Ok(x) => x,
                    Err(e) => return Err(e),
                };
                let x8 = match T9::from_sql(&vs[8]) {
                    Ok(x) => x,
                    Err(e) => return Err(e),
                };
                let x9 = match T10::from_sql(&vs[9]) {
                    Ok(x) => x,
                    Err(e) => return Err(e),
                };
                Ok((x0, x1, x2, x3, x4, x5, x6, x7, x8, x9))
            },
            _ => Err(FromSqlError::mismatch(v, Self::dst_name())),
        }
    }
}

impl<'a, T1, T2, T3, T4, T5, T6, T7, T8, T9, T10, T11> FromSql<'a> for (T1, T2, T3, T4, T5, T6, T7, T8, T9, T10, T11) where
    T1: FromSql<'a>,
    T2: FromSql<'a>,
    T3: FromSql<'a>,
    T4: FromSql<'a>,
    T5: FromSql<'a>,
    T6: FromSql<'a>,
    T7: FromSql<'a>,
    T8: FromSql<'a>,
    T9: FromSql<'a>,
    T10: FromSql<'a>,
    T11: FromSql<'a>,
{
    open spec fn element_ok(t: SqlType) -> bool {
        t is Tuple
    }

    open spec fn dst() -> Seq<char> {
        "("@ + T1::dst() + ", "@ + T2::dst() + ", "@ + T3::dst() + ", "@ + T4::dst() + ", "@ + T5::dst() + ", "@ + T6::dst() + ", "@ + T7::dst() + ", "@ + T8::dst() + ", "@ + T9::dst() + ", "@ + T10::dst() + ", "@ + T11::dst() + ")"@
    }

    open spec fn byte_elements() -> bool {
        false
    }

    open spec fn converts(v: ValueRef<'a>) -> bool {
        v matches ValueRef::Tuple(vs) && vs@.len() == 11 && T1::converts(vs@[0]) && T2::converts(vs@[1]) && T3::converts(vs@[2]) && T4::converts(vs@[3]) && T5::converts(vs@[4]) && T6::converts(vs@[5]) && T7::converts(vs@[6]) && T8::converts(vs@[7]) && T9::converts(vs@[8]) && T10::converts(vs@[9]) && T11::converts(vs@[10])
    }

    open spec fn denotes(v: ValueRef<'a>, r: (T1, T2, T3, T4, T5, T6, T7, T8, T9, T10, T11)) -> bool {
        v matches ValueRef::Tuple(vs) && vs@.len() == 11 && T1::denotes(vs@[0], r.0) && T2::denotes(vs@[1], r.1) && T3::denotes(vs@[2], r.2) && T4::denotes(vs@[3], r.3) && T5::denotes(vs@[4], r.4) && T6::denotes(vs@[5], r.5) && T7::denotes(vs@[6], r.6) && T8::denotes(vs@[7], r.7) && T9::denotes(vs@[8], r.8) && T10::denotes(vs@[9], r.9) && T11::denotes(vs@[10], r.10)
    }

    open spec fn error_of(v: ValueRef<'a>) -> (Seq<char>, Seq<char>) {
        match v {
            ValueRef::Tuple(vs) => if vs@.len() == 11 {
                if !T1::converts(vs@[0]) {
                    T1::error_of(vs@[0])
                } else if !T2::converts(vs@[1]) {
                    T2::error_of(vs@[1])
                } else if !T3::converts(vs@[2]) {
                    T3::error_of(vs@[2])
                } else if !T4::converts(vs@[3]) {
                    T4::error_of(vs@[3])
                } else if !T5::converts(vs@[4]) {
                    T5::error_of(vs@[4])
                } else if !T6::converts(vs@[5]) {
                    T6::error_of(vs@[5])
                } else if !T7::converts(vs@[6]) {
                    T7::error_of(vs@[6])
                } else if !T8::converts(vs@[7]) {
                    T8::error_of(vs@[7])
                } else if !T9::converts(vs@[8]) {
                    T9::error_of(vs@[8])
                } else if !T10::converts(vs@[9]) {
                    T10::error_of(vs@[9])
                } else {
                    T11::error_of(vs@[10])
                }
            } else {
                (value_tag_name(v), Self::dst())
            },
            _ => (value_tag_name(v), Self::dst()),
        }
    }

    fn accepts_element(t: &SqlType) -> (r: bool) {
        match t {
            SqlType::Tuple(_) => true,
            _ => false,
        }
    }

    fn dst_name() -> (r: String) {
        let mut r = String::from_str("(");
        r.append(T1::dst_name().as_str());
        r.append(", ");
        r.append(T2::dst_name().as_str());
        r.append(", ");
        r.append(T3::dst_name().as_str());
        r.append(", ");
        r.append(T4::dst_name().as_str());
        r.append(", ");
        r.append(T5::dst_name().as_str());
        r.append(", ");
        r.append(T6::dst_name().as_str());
        r.append(", ");
        r.append(T7::dst_name().as_str());
        r.append(", ");
        r.append(T8::dst_name().as_str());
        r.append(", ");
        r.append(T9::dst_name().as_str());
        r.append(", ");
        r.append(T10::dst_name().as_str());
        r.append(", ");
        r.append(T11::dst_name().as_str());
        r.append(")");
        r
    }

    fn takes_bytes() -> (r: bool) {
        false
    }

    fn from_sql(v: &ValueRef<'a>) -> (r: Result<(T1, T2, T3, T4, T5, T6, T7, T8, T9, T10, T11), FromSqlError>) {
        match v {
            ValueRef::Tuple(vs) => {
                if vs.len() != 11 {
                    return Err(FromSqlError::mismatch(v, Self::dst_name()));
                }
                let x0 = match T1::from_sql(&vs[0]) {
                    Ok(x) => x,
                    Err(e) => return Err(e),
                };
                let x1 = match T2::from_sql(&vs[1]) {
                    Ok(x) => x,
                    Err(e) => return Err(e),
                };
                let x2 = match T3::from_sql(&vs[2]) {
                    Ok(x) => x,
                    Err(e) => return Err(e),
                };
                let x3 = match T4::from_sql(&vs[3]) {
                    Ok(x) => x,
                    Err(e) => return Err(e),
                };
                let x4 = match T5::from_sql(&vs[4]) {
                    Ok(x) => x,
                    Err(e) => return Err(e),
                };
                let x5 = match T6::from_sql(&vs[5]) {
                    Ok(x) => x,
                    Err(e) => return Err(e),
                };
                let x6 = match T7::from_sql(&vs[6]) {
                    Ok(x) => x,
                    Err(e) => return Err(e),
                };
                let x7 = match T8::from_sql(&vs[7]) {
                    Ok(x) => x,
                    Err(e) => return Err(e),
                };
                let x8 = match T9::from_sql(&vs[8]) {
                    Ok(x) => x,
                    Err(e) => return Err(e),
                };
                let x9 = match T10::from_sql(&vs[9]) {
                    Ok(x) => x,
                    Err(e) => return Err(e),
                };
                let x10 = match T11::from_sql(&vs[10]) {
                    Ok(x) => x,
                    Err(e) => return Err(e),
                };
                Ok((x0, x1, x2, x3, x4, x5, x6, x7, x8, x9, x10))
            },
            _ => Err(FromSqlError::mismatch(v, Self::dst_name())),
        }
    }
}

impl<'a, T1, T2, T3, T4, T5, T6, T7, T8, T9, T10, T11, T12> FromSql<'a> for (T1, T2, T3, T4, T5, T6, T7, T8, T9, T10, T11, T12) where
    T1: FromSql<'a>,
    T2: FromSql<'a>,
    T3: FromSql<'a>,
    T4: FromSql<'a>,
    T5: FromSql<'a>,
    T6: FromSql<'a>,
    T7: FromSql<'a>,
    T8: FromSql<'a>,
    T9: FromSql<'a>,
    T10: FromSql<'a>,
    T11: FromSql<'a>,
    T12: FromSql<'a>,
{
    open spec fn element_ok(t: SqlType) -> bool {
        t is Tuple
    }

    open spec fn dst() -> Seq<char> {
        "("@ + T1::dst() + ", "@ + T2::dst() + ", "@ + T3::dst() + ", "@ + T4::dst() + ", "@ + T5::dst() + ", "@ + T6::dst() + ", "@ + T7::dst() + ", "@ + T8::dst() + ", "@ + T9::dst() + ", "@ + T10::dst() + ", "@ + T11::dst() + ", "@ + T12::dst() + ")"@
    }

    open spec fn byte_elements() -> bool {
        false
    }

    open spec fn converts(v: ValueRef<'a>) -> bool {
        v matches ValueRef::Tuple(vs) && vs@.len() == 12 && T1::converts(vs@[0]) && T2::converts(vs@[1]) && T3::converts(vs@[2]) && T4::converts(vs@[3]) && T5::converts(vs@[4]) && T6::converts(vs@[5]) && T7::converts(vs@[6]) && T8::converts(vs@[7]) && T9::converts(vs@[8]) && T10::converts(vs@[9]) && T11::converts(vs@[10]) && T12::converts(vs@[11])
    }

    open spec fn denotes(v: ValueRef<'a>, r: (T1, T2, T3, T4, T5, T6, T7, T8, T9, T10, T11, T12)) -> bool {
        v matches ValueRef::Tuple(vs) && vs@.len() == 12 && T1::denotes(vs@[0], r.0) && T2::denotes(vs@[1], r.1) && T3::denotes(vs@[2], r.2) && T4::denotes(vs@[3], r.3) && T5::denotes(vs@[4], r.4) && T6::denotes(vs@[5], r.5) && T7::denotes(vs@[6], r.6) && T8::denotes(vs@[7], r.7) && T9::denotes(vs@[8], r.8) && T10::denotes(vs@[9], r.9) && T11::denotes(vs@[10], r.10) && T12::denotes(vs@[11], r.11)
    }

    open spec fn error_of(v: ValueRef<'a>) -> (Seq<char>, Seq<char>) {
        match v {
            ValueRef::Tuple(vs) => if vs@.len() == 12 {
                if !T1::converts(vs@[0]) {
                    T1::error_of(vs@[0])
                } else if !T2::converts(vs@[1]) {
                    T2::error_of(vs@[1])
                } else if !T3::converts(vs@[2]) {
                    T3::error_of(vs@[2])
                } else if !T4::converts(vs@[3]) {
                    T4::error_of(vs@[3])
                } else if !T5::converts(vs@[4]) {
                    T5::error_of(vs@[4])
                } else if !T6::converts(vs@[5]) {
                    T6::error_of(vs@[5])
                } else if !T7::converts(vs@[6]) {
                    T7::error_of(vs@[6])
                } else if !T8::converts(vs@[7]) {
                    T8::error_of(vs@[7])
                } else if !T9::converts(vs@[8]) {
                    T9::error_of(vs@[8])
                } else if !T10::converts(vs@[9]) {
                    T10::error_of(vs@[9])
                } else if !T11::converts(vs@[10]) {
                    T11::error_of(vs@[10])
                } else {
                    T12::error_of(vs@[11])
                }
            } else {
                (value_tag_name(v), Self::dst())
            },
            _ => (value_tag_name(v), Self::dst()),
        }
    }

    fn accepts_element(t: &SqlType) -> (r: bool) {
        match t {
            SqlType::Tuple(_) => true,
            _ => false,
        }
    }

    fn dst_name() -> (r: String) {
        let mut r = String::from_str("(");
        r.append(T1::dst_name().as_str());
        r.append(", ");
        r.append(T2::dst_name().as_str());
        r.append(", ");
        r.append(T3::dst_name().as_str());
        r.append(", ");
        r.append(T4::dst_name().as_str());
        r.append(", ");
        r.append(T5::dst_name().as_str());
        r.append(", ");
        r.append(T6::dst_name().as_str());
        r.append(", ");
        r.append(T7::dst_name().as_str());
        r.append(", ");
        r.append(T8::dst_name().as_str());
        r.append(", ");
        r.append(T9::dst_name().as_str());
        r.append(", ");
        r.append(T10::dst_name().as_str());
        r.append(", ");
        r.append(T11::dst_name().as_str());
        r.append(", ");
        r.append(T12::dst_name().as_str());
        r.append(")");
        r
    }

    fn takes_bytes() -> (r: bool) {
        false
    }

    fn from_sql(v: &ValueRef<'a>) -> (r: Result<(T1, T2, T3, T4, T5, T6, T7, T8, T9, T10, T11, T12), FromSqlError>) {
        match v {
            ValueRef::Tuple(vs) => {
                if vs.len() != 12 {
                    return Err(FromSqlError::mismatch(v, Self::dst_name()));
                }
                let x0 = match T1::from_sql(&vs[0]) {
                    Ok(x) => x,
                    Err(e) => return Err(e),
                };
                let x1 = match T2::from_sql(&vs[1]) {
                    Ok(x) => x,
                    Err(e) => return Err(e),
                };
                let x2 = match T3::from_sql(&vs[2]) {
                    Ok(x) => x,
                    Err(e) => return Err(e),
                };
                let x3 = match T4::from_sql(&vs[3]) {
                    Ok(x) => x,
                    Err(e) => return Err(e),
                };
                let x4 = match T5::from_sql(&vs[4]) {
                    Ok(x) => x,
                    Err(e) => return Err(e),
                };
                let x5 = match T6::from_sql(&vs[5]) {
                    Ok(x) => x,
                    Err(e) => return Err(e),
                };
                let x6 = match T7::from_sql(&vs[6]) {
                    Ok(x) => x,
                    Err(e) => return Err(e),
                };
                let x7 = match T8::from_sql(&vs[7]) {
                    Ok(x) => x,
                    Err(e) => return Err(e),
                };
                let x8 = match T9::from_sql(&vs[8]) {
                    Ok(x) => x,
                    Err(e) => return Err(e),
                };
                let x9 = match T10::from_sql(&vs[9]) {
                    Ok(x) => x,
                    Err(e) => return Err(e),
                };
                let x10 = match T11::from_sql(&vs[10]) {
                    Ok(x) => x,
                    Err(e) => return Err(e),
                };
                let x11 = match T12::from_sql(&vs[11]) {
                    Ok(x) => x,
                    Err(e) => return Err(e),
                };
                Ok((x0, x1, x2, x3, x4, x5, x6, x7, x8, x9, x10, x11))
            },
            _ => Err(FromSqlError::mismatch(v, Self::dst_name())),
        }
    }
}

} // verus!
