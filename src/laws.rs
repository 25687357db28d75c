//! Laws that hold of every conversion and of the tuple column.
use crate::column::{lemma_inners_smaller, lemma_rows_of, row_of, rows_of, same_column, same_each, Column, TupleColumnData};
use crate::from_sql::{first_failure, lemma_array_element_converts, FromSql};
use crate::sql_type::SqlType;
use crate::value::{value_tag_name, Nullable, ValueRef};
use vstd::prelude::*;

verus! {

/// A primitive converts exactly from its own tag, and a mismatch names the
/// value's tag and the requested type.
pub proof fn law_exact_tag<'a>(v: ValueRef<'a>)
    ensures
        <u8 as FromSql<'a>>::converts(v) <==> v is UInt8,
        <u16 as FromSql<'a>>::converts(v) <==> v is UInt16,
        <u32 as FromSql<'a>>::converts(v) <==> v is UInt32,
        <u64 as FromSql<'a>>::converts(v) <==> v is UInt64,
        <i8 as FromSql<'a>>::converts(v) <==> v is Int8,
        <i16 as FromSql<'a>>::converts(v) <==> v is Int16,
        <i32 as FromSql<'a>>::converts(v) <==> v is Int32,
        <i64 as FromSql<'a>>::converts(v) <==> v is Int64,
        <u8 as FromSql<'a>>::error_of(v) == (value_tag_name(v), "u8"@),
        <u16 as FromSql<'a>>::error_of(v) == (value_tag_name(v), "u16"@),
        <u32 as FromSql<'a>>::error_of(v) == (value_tag_name(v), "u32"@),
        <u64 as FromSql<'a>>::error_of(v) == (value_tag_name(v), "u64"@),
        <i8 as FromSql<'a>>::error_of(v) == (value_tag_name(v), "i8"@),
        <i16 as FromSql<'a>>::error_of(v) == (value_tag_name(v), "i16"@),
        <i32 as FromSql<'a>>::error_of(v) == (value_tag_name(v), "i32"@),
        <i64 as FromSql<'a>>::error_of(v) == (value_tag_name(v), "i64"@),
{
}

/// An absent nullable value converts to `None` for every inner type, and
/// nothing of the inner type's conversion enters.
pub proof fn law_absent_is_none<'a, T: FromSql<'a>>(t: SqlType, r: Option<T>)
    ensures
        <Option<T> as FromSql<'a>>::converts(ValueRef::Nullable(Nullable::Absent(t))),
        <Option<T> as FromSql<'a>>::denotes(ValueRef::Nullable(Nullable::Absent(t)), r) <==> r is None,
{
}

/// A present nullable value converts as its inner value does: to `Some` of
/// the inner conversion, or failing with the inner error unchanged.
pub proof fn law_present_is_inner<'a, T: FromSql<'a>>(b: Box<ValueRef<'a>>, x: T)
    ensures
        <Option<T> as FromSql<'a>>::converts(ValueRef::Nullable(Nullable::Present(b))) <==> T::converts(*b),
        <Option<T> as FromSql<'a>>::denotes(ValueRef::Nullable(Nullable::Present(b)), Some(x)) <==> T::denotes(*b, x),
        !<Option<T> as FromSql<'a>>::denotes(ValueRef::Nullable(Nullable::Present(b)), None),
        <Option<T> as FromSql<'a>>::error_of(ValueRef::Nullable(Nullable::Present(b))) == T::error_of(*b),
{
}

/// An array converts when its declared element tag fits and every element
/// converts; the result has the array's length and order, and a failure is
/// the error of the first element that does not convert.
pub proof fn law_array<'a, T: FromSql<'a>>(t: SqlType, vs: Vec<ValueRef<'a>>, r: Vec<T>)
    ensures
        <Vec<T> as FromSql<'a>>::converts(ValueRef::Array(t, vs)) <==> (T::element_ok(t) && forall|i: int|
            0 <= i < vs@.len() ==> T::converts(#[trigger] vs@[i])),
        <Vec<T> as FromSql<'a>>::denotes(ValueRef::Array(t, vs), r) ==> (r@.len() == vs@.len() && forall|i: int|
            0 <= i < vs@.len() ==> T::denotes(#[trigger] vs@[i], r@[i])),
        T::element_ok(t) && !<Vec<T> as FromSql<'a>>::converts(ValueRef::Array(t, vs)) ==> ({
            let k = first_failure::<T>(vs@);
            &&& 0 <= k < vs@.len()
            &&& !T::converts(vs@[k])
            &&& forall|j: int| 0 <= j < k ==> T::converts(#[trigger] vs@[j])
            &&& <Vec<T> as FromSql<'a>>::error_of(ValueRef::Array(t, vs)) == T::error_of(vs@[k])
        }),
{
    let v = ValueRef::Array(t, vs);
    if <Vec<T> as FromSql<'a>>::converts(v) {
        assert forall|i: int| 0 <= i < vs@.len() implies T::converts(#[trigger] vs@[i]) by {
            lemma_array_element_converts::<T>(v, i);
        }
    }
    if T::element_ok(t) && !<Vec<T> as FromSql<'a>>::converts(v) {
        assert(!(forall|i: int| 0 <= i < vs@.len() ==> T::converts(#[trigger] vs@[i])));
        lemma_first_failure_exists::<T>(vs@);
    }
}

proof fn lemma_first_failure_exists<'a, T: FromSql<'a>>(vs: Seq<ValueRef<'a>>)
    requires
        exists|i: int| 0 <= i < vs.len() && !T::converts(#[trigger] vs[i]),
    ensures
        ({
            let k = first_failure::<T>(vs);
            &&& 0 <= k < vs.len()
            &&& !T::converts(vs[k])
            &&& forall|j: int| 0 <= j < k ==> T::converts(#[trigger] vs[j])
        }),
    decreases vs.len(),
{
    let i = choose|i: int| 0 <= i < vs.len() && !T::converts(#[trigger] vs[i]);
    if exists|m: int| 0 <= m < i && !T::converts(#[trigger] vs[m]) {
        let m = choose|m: int| 0 <= m < i && !T::converts(#[trigger] vs[m]);
        assert(vs.subrange(0, i)[m] == vs[m]);
        assert(0 <= m < vs.subrange(0, i).len() && !T::converts(vs.subrange(0, i)[m]));
        lemma_first_failure_exists::<T>(vs.subrange(0, i));
        let k = first_failure::<T>(vs.subrange(0, i));
        assert(vs.subrange(0, i)[k] == vs[k]);
        assert forall|j: int| 0 <= j < k implies T::converts(#[trigger] vs[j]) by {
            assert(vs.subrange(0, i)[j] == vs[j]);
        }
        assert(0 <= k < vs.len() && !T::converts(vs[k]) && forall|j: int|
            0 <= j < k ==> T::converts(#[trigger] vs[j]));
        lemma_first_failure_unique::<T>(vs, k);
    } else {
        assert(0 <= i < vs.len() && !T::converts(vs[i]) && forall|j: int|
            0 <= j < i ==> T::converts(#[trigger] vs[j]));
        lemma_first_failure_unique::<T>(vs, i);
    }
}

proof fn lemma_first_failure_unique<'a, T: FromSql<'a>>(vs: Seq<ValueRef<'a>>, k: int)
    requires
        0 <= k < vs.len() && !T::converts(vs[k]) && forall|j: int| 0 <= j < k ==> T::converts(
            #[trigger] vs[j],
        ),
    ensures
        first_failure::<T>(vs) == k,
{
    let f = first_failure::<T>(vs);
    assert(0 <= f < vs.len() && !T::converts(vs[f]) && forall|j: int| 0 <= j < f ==> T::converts(
        #[trigger] vs[j],
    ));
    if f < k {
        assert(T::converts(vs[f]));
    } else if f > k {
        assert(T::converts(vs[k]));
    }
}

/// The bytes of a text value always convert to an owned vector of bytes that
/// equals them, whether or not they are valid UTF-8.
pub proof fn law_owned_bytes<'a>(b: &'a [u8], r: Vec<u8>)
    ensures
        <Vec<u8> as FromSql<'a>>::converts(ValueRef::String(b)),
        <Vec<u8> as FromSql<'a>>::denotes(ValueRef::String(b), r) <==> r@ == b@,
{
    let v = ValueRef::String(b);
    if <Vec<u8> as FromSql<'a>>::denotes(v, r) {
        assert forall|i: int| 0 <= i < b@.len() implies r@[i] == b@[i] by {
            assert(<u8 as FromSql<'a>>::denotes(ValueRef::UInt8(b@[i]), r@[i]));
        }
        assert(r@ =~= b@);
    }
    if r@ == b@ {
        assert forall|i: int| 0 <= i < b@.len() implies <u8 as FromSql<'a>>::denotes(
            ValueRef::UInt8(#[trigger] b@[i]),
            r@[i],
        ) by {}
    }
}

/// A tuple converts to a pair exactly when it has two fields and each field
/// converts to its type; a tuple of another length fails naming the pair type.
pub proof fn law_pair<'a, A: FromSql<'a>, B: FromSql<'a>>(vs: Vec<ValueRef<'a>>, r: (A, B))
    ensures
        <(A, B) as FromSql<'a>>::converts(ValueRef::Tuple(vs)) <==> (vs@.len() == 2 && A::converts(vs@[0])
            && B::converts(vs@[1])),
        <(A, B) as FromSql<'a>>::denotes(ValueRef::Tuple(vs), r) <==> (vs@.len() == 2 && A::denotes(vs@[0], r.0)
            && B::denotes(vs@[1], r.1)),
        vs@.len() != 2 ==> <(A, B) as FromSql<'a>>::error_of(ValueRef::Tuple(vs)) == (
            value_tag_name(ValueRef::Tuple(vs)),
            <(A, B) as FromSql<'a>>::dst(),
        ),
        vs@.len() == 2 && !A::converts(vs@[0]) ==> <(A, B) as FromSql<'a>>::error_of(ValueRef::Tuple(vs))
            == A::error_of(vs@[0]),
        vs@.len() == 2 && A::converts(vs@[0]) && !B::converts(vs@[1]) ==> <(A, B) as FromSql<
            'a,
        >>::error_of(ValueRef::Tuple(vs)) == B::error_of(vs@[1]),
{
}

/// Row `i` of a tuple column is the tuple of row `i` of each sub-column.
pub proof fn law_row_components<'a>(t: TupleColumnData, i: int, r: ValueRef<'a>)
    requires
        row_of(Column::Tuple(t), i, r),
    ensures
        r matches ValueRef::Tuple(rs) && rs@.len() == t.inners().len() && forall|j: int|
            0 <= j < rs@.len() ==> #[trigger] row_of(t.inners()[j], i, rs@[j]),
{
    if let ValueRef::Tuple(rs) = r {
        lemma_rows_of(t.inners(), i, rs@);
    }
}

/// A copy made by `clone_instance` holds the same value as the original in
/// every row; it owns its own storage, so neither is changed through the other.
pub proof fn law_copy_has_same_rows<'a>(a: Column, b: Column, i: int, r: ValueRef<'a>)
    requires
        same_column(a, b),
    ensures
        row_of(a, i, r) <==> row_of(b, i, r),
    decreases a,
{
    match a {
        Column::String(x) => {
            if let Column::String(y) = b {
                if 0 <= i < x@.len() {
                    assert(x@[i]@ == y@[i]@);
                }
            }
        },
        Column::Tuple(s) => {
            if let Column::Tuple(t) = b {
                if let ValueRef::Tuple(rs) = r {
                    lemma_inners_smaller(a);
                    lemma_same_rows_each(s.inners(), t.inners(), i, rs@);
                }
            }
        },
        _ => {},
    }
}

proof fn lemma_same_rows_each<'a>(xs: Seq<Column>, ys: Seq<Column>, i: int, rs: Seq<ValueRef<'a>>)
    requires
        same_each(xs, ys),
    ensures
        rows_of(xs, i, rs) <==> rows_of(ys, i, rs),
    decreases xs,
{
    if xs.len() > 0 && rs.len() == xs.len() {
        lemma_same_rows_each(xs.drop_last(), ys.drop_last(), i, rs.drop_last());
        law_copy_has_same_rows(xs.last(), ys.last(), i, rs.last());
    }
}

} // verus!
