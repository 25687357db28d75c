//! Tagged values as a column hands them out, borrowing bytes from the column.
use crate::sql_type::{tag_name, wrap, wrapped, SqlType};
use vstd::prelude::*;

verus! {

broadcast use vstd::std_specs::vec::axiom_vec_index_decreases, vstd::std_specs::vec::axiom_vec_decreases_to_view, vstd::seq::axiom_seq_subrange_decreases;

/// Declares chrono_tz::Tz, the time zone that dates and times carry; the
/// library only moves it from a value into a result.
#[verifier::external_type_specification]
#[verifier::external_body]
pub struct ExTz(chrono_tz::Tz);

/// Fixed-point decimal: `underlying / 10^scale`.
#[derive(Clone, Copy, Debug, PartialEq, Eq, Structural)]
pub struct Decimal {
    pub underlying: i64,
    pub precision: u8,
    pub scale: u8,
}

/// Number of sub-second digits of a `DateTime64`, at most nine.
#[derive(Clone, Copy, Debug)]
pub struct Precision {
    digits: u32,
}

impl Precision {
    #[verifier::type_invariant]
    spec fn inv(self) -> bool {
        self.digits <= 9
    }

    pub closed spec fn spec_digits(self) -> u32 {
        self.digits
    }

    /// A precision of `digits` sub-second digits; none beyond nanoseconds.
    pub fn new(digits: u32) -> (r: Option<Precision>)
        ensures
            r is Some <==> digits <= 9,
            r matches Some(p) ==> p.spec_digits() == digits,
    {
        if digits <= 9 {
            Some(Precision { digits })
        } else {
            None
        }
    }

    pub fn digits(&self) -> (r: u32)
        ensures
            r == self.spec_digits(),
            r <= 9,
    {
        proof {
            use_type_invariant(self);
        }
        self.digits
    }
}

/// A nullable value: absent (with the declared inner type) or present.
#[derive(Debug)]
pub enum Nullable<'a> {
    Absent(SqlType),
    Present(Box<ValueRef<'a>>),
}

/// A value carrying its runtime type tag.
#[derive(Debug)]
pub enum ValueRef<'a> {
    UInt8(u8),
    UInt16(u16),
    UInt32(u32),
    UInt64(u64),
    Int8(i8),
    Int16(i16),
    Int32(i32),
    Int64(i64),
    /// Raw bytes of a `String` value; text where they are valid UTF-8.
    String(&'a [u8]),
    Decimal(Decimal),
    Enum8(&'a [(String, i8)], i8),
    Enum16(&'a [(String, i16)], i16),
    Ipv4([u8; 4]),
    Ipv6([u8; 16]),
    Uuid([u8; 16]),
    /// Days since the epoch.
    Date(u16, chrono_tz::Tz),
    /// Seconds since the epoch.
    DateTime(u32, chrono_tz::Tz),
    /// Ticks of `10^-precision` seconds since the epoch.
    DateTime64(i64, Precision, chrono_tz::Tz),
    Nullable(Nullable<'a>),
    /// Declared element type and the elements.
    Array(SqlType, Vec<ValueRef<'a>>),
    Tuple(Vec<ValueRef<'a>>),
}

/// The name of a value's type tag.
pub open spec fn value_tag_name(v: ValueRef) -> Seq<char>
    decreases v,
{
    match v {
        ValueRef::UInt8(_) => "UInt8"@,
        ValueRef::UInt16(_) => "UInt16"@,
        ValueRef::UInt32(_) => "UInt32"@,
        ValueRef::UInt64(_) => "UInt64"@,
        ValueRef::Int8(_) => "Int8"@,
        ValueRef::Int16(_) => "Int16"@,
        ValueRef::Int32(_) => "Int32"@,
        ValueRef::Int64(_) => "Int64"@,
        ValueRef::String(_) => "String"@,
        ValueRef::Decimal(_) => "Decimal"@,
        ValueRef::Enum8(_, _) => "Enum8"@,
        ValueRef::Enum16(_, _) => "Enum16"@,
        ValueRef::Ipv4(_) => "IPv4"@,
        ValueRef::Ipv6(_) => "IPv6"@,
        ValueRef::Uuid(_) => "UUID"@,
        ValueRef::Date(_, _) => "Date"@,
        ValueRef::DateTime(_, _) => "DateTime"@,
        ValueRef::DateTime64(_, _, _) => "DateTime64"@,
        ValueRef::Nullable(Nullable::Absent(t)) => wrapped("Nullable"@, tag_name(t)),
        ValueRef::Nullable(Nullable::Present(b)) => wrapped("Nullable"@, value_tag_name(*b)),
        ValueRef::Array(t, _) => wrapped("Array"@, tag_name(t)),
        ValueRef::Tuple(vs) => wrapped("Tuple"@, value_tag_names(vs@)),
    }
}

/// The tag names of a list of values, separated by `", "`.
pub open spec fn value_tag_names(vs: Seq<ValueRef>) -> Seq<char>
    decreases vs,
{
    if vs.len() == 0 {
        Seq::empty()
    } else if vs.len() == 1 {
        value_tag_name(vs[0])
    } else {
        value_tag_names(vs.drop_last()) + ", "@ + value_tag_name(vs.last())
    }
}

impl<'a> ValueRef<'a> {
    /// The name of this value's type tag.
    pub fn tag(&self) -> (r: String)
        ensures
            r@ == value_tag_name(*self),
        decreases self,
    {
        match self {
            ValueRef::Nullable(Nullable::Absent(t)) => wrap("Nullable", t.name()),
            ValueRef::Nullable(Nullable::Present(b)) => wrap("Nullable", b.tag()),
            ValueRef::Array(t, _) => wrap("Array", t.name()),
            ValueRef::Tuple(vs) => {
                let mut inner = String::from_str("");
                let mut i: usize = 0;
                proof {
                    reveal_strlit("");
                    assert(vs@.subrange(0, 0).len() == 0);
                }
                while i < vs.len()
                    invariant
                        i <= vs@.len(),
                        inner@ == value_tag_names(vs@.subrange(0, i as int)),
                        forall|k: int| 0 <= k < vs@.len() ==> decreases_to!(*self => #[trigger] vs@[k]),
                    decreases vs@.len() - i,
                {
                    let part = vs[i].tag();
                    proof {
                        assert(vs@.subrange(0, i + 1).drop_last() == vs@.subrange(0, i as int));
                        assert(vs@.subrange(0, i + 1).last() == vs@[i as int]);
                    }
                    if i > 0 {
                        inner.append(", ");
                    }
                    inner.append(part.as_str());
                    i = i + 1;
                }
                proof {
                    assert(vs@.subrange(0, vs@.len() as int) == vs@);
                }
                wrap("Tuple", inner)
            },
            ValueRef::UInt8(_) => String::from_str("UInt8"),
            ValueRef::UInt16(_) => String::from_str("UInt16"),
            ValueRef::UInt32(_) => String::from_str("UInt32"),
            ValueRef::UInt64(_) => String::from_str("UInt64"),
            ValueRef::Int8(_) => String::from_str("Int8"),
            ValueRef::Int16(_) => String::from_str("Int16"),
            ValueRef::Int32(_) => String::from_str("Int32"),
            ValueRef::Int64(_) => String::from_str("Int64"),
            ValueRef::String(_) => String::from_str("String"),
            ValueRef::Decimal(_) => String::from_str("Decimal"),
            ValueRef::Enum8(_, _) => String::from_str("Enum8"),
            ValueRef::Enum16(_, _) => String::from_str("Enum16"),
            ValueRef::Ipv4(_) => String::from_str("IPv4"),
            ValueRef::Ipv6(_) => String::from_str("IPv6"),
            ValueRef::Uuid(_) => String::from_str("UUID"),
            ValueRef::Date(_, _) => String::from_str("Date"),
            ValueRef::DateTime(_, _) => String::from_str("DateTime"),
            ValueRef::DateTime64(_, _, _) => String::from_str("DateTime64"),
        }
    }
}

/// The one error of extraction: the value's tag does not fit the requested type.
#[derive(Clone, Debug, PartialEq, Eq)]
pub enum FromSqlError {
    InvalidType { src: String, dst: String },
}

impl View for FromSqlError {
    /// The source tag name and the destination type name.
    type V = (Seq<char>, Seq<char>);

    open spec fn view(&self) -> (Seq<char>, Seq<char>) {
        match self {
            FromSqlError::InvalidType { src, dst } => (src@, dst@),
        }
    }
}

/// The text of an error, as the client prints it.
pub open spec fn error_text(e: (Seq<char>, Seq<char>)) -> Seq<char> {
    "From SQL error: `SqlType::"@ + e.0 + " cannot be cast to "@ + e.1 + ".`"@
}

impl FromSqlError {
    /// The error for `v` not converting to the type named `dst`.
    pub fn mismatch(v: &ValueRef, dst: String) -> (r: FromSqlError)
        ensures
            r@ == (value_tag_name(*v), dst@),
    {
        FromSqlError::InvalidType { src: v.tag(), dst }
    }

    pub fn message(&self) -> (r: String)
        ensures
            r@ == error_text(self@),
    {
        match self {
            FromSqlError::InvalidType { src, dst } => {
                let mut r = String::from_str("From SQL error: `SqlType::");
                r.append(src.as_str());
                r.append(" cannot be cast to ");
                r.append(dst.as_str());
                r.append(".`");
                r
            },
        }
    }
}

} // verus!
