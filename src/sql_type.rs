//! Declared type descriptors of columns and values, and their names.
use vstd::prelude::*;

verus! {

broadcast use vstd::std_specs::vec::axiom_vec_index_decreases, vstd::std_specs::vec::axiom_vec_decreases_to_view, vstd::seq::axiom_seq_subrange_decreases;

/// The declared type of a column or of a value.
#[derive(Debug)]
pub enum SqlType {
    UInt8,
    UInt16,
    UInt32,
    UInt64,
    Int8,
    Int16,
    Int32,
    Int64,
    Float32,
    Float64,
    String,
    Date,
    DateTime,
    DateTime64,
    Decimal,
    Enum8,
    Enum16,
    Ipv4,
    Ipv6,
    Uuid,
    Nullable(Box<SqlType>),
    Array(Box<SqlType>),
    Tuple(Vec<SqlType>),
}

/// The name of a type without parameters.
pub open spec fn scalar_name(t: SqlType) -> Seq<char> {
    match t {
        SqlType::UInt8 => "UInt8"@,
        SqlType::UInt16 => "UInt16"@,
        SqlType::UInt32 => "UInt32"@,
        SqlType::UInt64 => "UInt64"@,
        SqlType::Int8 => "Int8"@,
        SqlType::Int16 => "Int16"@,
        SqlType::Int32 => "Int32"@,
        SqlType::Int64 => "Int64"@,
        SqlType::Float32 => "Float32"@,
        SqlType::Float64 => "Float64"@,
        SqlType::String => "String"@,
        SqlType::Date => "Date"@,
        SqlType::DateTime => "DateTime"@,
        SqlType::DateTime64 => "DateTime64"@,
        SqlType::Decimal => "Decimal"@,
        SqlType::Enum8 => "Enum8"@,
        SqlType::Enum16 => "Enum16"@,
        SqlType::Ipv4 => "IPv4"@,
        SqlType::Ipv6 => "IPv6"@,
        SqlType::Uuid => "UUID"@,
        SqlType::Nullable(_) => "Nullable"@,
        SqlType::Array(_) => "Array"@,
        SqlType::Tuple(_) => "Tuple"@,
    }
}

/// `head(inner)`: a parameterised name.
pub open spec fn wrapped(head: Seq<char>, inner: Seq<char>) -> Seq<char> {
    head + "("@ + inner + ")"@
}

/// The printed name of a type: `Nullable(UInt8)`, `Array(String)`,
/// `Tuple(UInt8, String)`.
pub open spec fn tag_name(t: SqlType) -> Seq<char>
    decreases t,
{
    match t {
        SqlType::Nullable(b) => wrapped("Nullable"@, tag_name(*b)),
        SqlType::Array(b) => wrapped("Array"@, tag_name(*b)),
        SqlType::Tuple(ts) => wrapped("Tuple"@, tag_names(ts@)),
        _ => scalar_name(t),
    }
}

/// The names of a list of types, separated by `", "`.
pub open spec fn tag_names(ts: Seq<SqlType>) -> Seq<char>
    decreases ts,
{
    if ts.len() == 0 {
        Seq::empty()
    } else if ts.len() == 1 {
        tag_name(ts[0])
    } else {
        tag_names(ts.drop_last()) + ", "@ + tag_name(ts.last())
    }
}

impl SqlType {
    /// The name of this type, as `tag_name` gives it.
    pub fn name(&self) -> (r: String)
        ensures
            r@ == tag_name(*self),
        decreases self,
    {
        match self {
            SqlType::Nullable(b) => wrap("Nullable", b.name()),
            SqlType::Array(b) => wrap("Array", b.name()),
            SqlType::Tuple(ts) => {
                let mut inner = String::from_str("");
                let mut i: usize = 0;
                proof {
                    reveal_strlit("");
                    assert(ts@.subrange(0, 0).len() == 0);
                }
                while i < ts.len()
                    invariant
                        i <= ts@.len(),
                        inner@ == tag_names(ts@.subrange(0, i as int)),
                        forall|k: int| 0 <= k < ts@.len() ==> decreases_to!(*self => #[trigger] ts@[k]),
                    decreases ts@.len() - i,
                {
                    let part = ts[i].name();
                    proof {
                        assert(ts@.subrange(0, i + 1).drop_last() == ts@.subrange(0, i as int));
                        assert(ts@.subrange(0, i + 1).last() == ts@[i as int]);
                    }
                    if i > 0 {
                        inner.append(", ");
                    }
                    inner.append(part.as_str());
                    i = i + 1;
                }
                proof {
                    assert(ts@.subrange(0, ts@.len() as int) == ts@);
                }
                wrap("Tuple", inner)
            },
            _ => String::from_str(self.scalar_str()),
        }
    }

    fn scalar_str(&self) -> (r: &'static str)
        ensures
            r@ == scalar_name(*self),
    {
        match self {
            SqlType::UInt8 => "UInt8",
            SqlType::UInt16 => "UInt16",
            SqlType::UInt32 => "UInt32",
            SqlType::UInt64 => "UInt64",
            SqlType::Int8 => "Int8",
            SqlType::Int16 => "Int16",
            SqlType::Int32 => "Int32",
            SqlType::Int64 => "Int64",
            SqlType::Float32 => "Float32",
            SqlType::Float64 => "Float64",
            SqlType::String => "String",
            SqlType::Date => "Date",
            SqlType::DateTime => "DateTime",
            SqlType::DateTime64 => "DateTime64",
            SqlType::Decimal => "Decimal",
            SqlType::Enum8 => "Enum8",
            SqlType::Enum16 => "Enum16",
            SqlType::Ipv4 => "IPv4",
            SqlType::Ipv6 => "IPv6",
            SqlType::Uuid => "UUID",
            SqlType::Nullable(_) => "Nullable",
            SqlType::Array(_) => "Array",
            SqlType::Tuple(_) => "Tuple",
        }
    }
}

/// Builds `head(inner)`.
pub fn wrap(head: &str, inner: String) -> (r: String)
    ensures
        r@ == wrapped(head@, inner@),
{
    let mut r = String::from_str(head);
    r.append("(");
    r.append(inner.as_str());
    r.append(")");
    r
}

} // verus!
