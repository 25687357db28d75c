//! Columns, and the tuple column that holds one sub-column per field.
use crate::sql_type::SqlType;
use crate::value::ValueRef;
use vstd::prelude::*;

verus! {

broadcast use vstd::std_specs::vec::axiom_vec_index_decreases, vstd::std_specs::vec::axiom_vec_decreases_to_view, vstd::seq::axiom_seq_subrange_decreases;

/// A column of values of one declared type.
#[derive(Debug)]
pub enum Column {
    UInt8(Vec<u8>),
    UInt16(Vec<u16>),
    UInt32(Vec<u32>),
    UInt64(Vec<u64>),
    Int8(Vec<i8>),
    Int16(Vec<i16>),
    Int32(Vec<i32>),
    Int64(Vec<i64>),
    String(Vec<Vec<u8>>),
    Tuple(TupleColumnData),
}

/// A tuple column: one sub-column per field, all with the same number of rows.
#[derive(Debug)]
pub struct TupleColumnData {
    inners: Vec<Column>,
    size: usize,
}

/// The number of rows of a column.
pub open spec fn col_len(c: Column) -> nat {
    match c {
        Column::UInt8(v) => v@.len(),
        Column::UInt16(v) => v@.len(),
        Column::UInt32(v) => v@.len(),
        Column::UInt64(v) => v@.len(),
        Column::Int8(v) => v@.len(),
        Column::Int16(v) => v@.len(),
        Column::Int32(v) => v@.len(),
        Column::Int64(v) => v@.len(),
        Column::String(v) => v@.len(),
        Column::Tuple(t) => t.size() as nat,
    }
}

/// Whether `r` is the value in row `i` of `c`.
pub open spec fn row_of<'a>(c: Column, i: int, r: ValueRef<'a>) -> bool
    decreases c,
{
    match c {
        Column::UInt8(v) => r == ValueRef::UInt8(v@[i]),
        Column::UInt16(v) => r == ValueRef::UInt16(v@[i]),
        Column::UInt32(v) => r == ValueRef::UInt32(v@[i]),
        Column::UInt64(v) => r == ValueRef::UInt64(v@[i]),
        Column::Int8(v) => r == ValueRef::Int8(v@[i]),
        Column::Int16(v) => r == ValueRef::Int16(v@[i]),
        Column::Int32(v) => r == ValueRef::Int32(v@[i]),
        Column::Int64(v) => r == ValueRef::Int64(v@[i]),
        Column::String(v) => r matches ValueRef::String(s) && 0 <= i < v@.len() && s@ == v@[i]@,
        Column::Tuple(t) => r matches ValueRef::Tuple(rs) && rows_of(t.inners(), i, rs@),
    }
}

/// Whether `rs` are the values in row `i` of the columns `cs`, one by one.
pub open spec fn rows_of<'a>(cs: Seq<Column>, i: int, rs: Seq<ValueRef<'a>>) -> bool
    decreases cs,
{
    cs.len() == rs.len() && (cs.len() == 0 || (rows_of(cs.drop_last(), i, rs.drop_last())
        && row_of(cs.last(), i, rs.last())))
}

/// Whether `ty` is the declared type of `c`.
pub open spec fn declares(c: Column, ty: SqlType) -> bool
    decreases c,
{
    match c {
        Column::UInt8(_) => ty is UInt8,
        Column::UInt16(_) => ty is UInt16,
        Column::UInt32(_) => ty is UInt32,
        Column::UInt64(_) => ty is UInt64,
        Column::Int8(_) => ty is Int8,
        Column::Int16(_) => ty is Int16,
        Column::Int32(_) => ty is Int32,
        Column::Int64(_) => ty is Int64,
        Column::String(_) => ty is String,
        Column::Tuple(t) => ty matches SqlType::Tuple(ts) && declares_each(t.inners(), ts@),
    }
}

/// Whether `ts` are the declared types of the columns `cs`, one by one.
pub open spec fn declares_each(cs: Seq<Column>, ts: Seq<SqlType>) -> bool
    decreases cs,
{
    cs.len() == ts.len() && (cs.len() == 0 || (declares_each(cs.drop_last(), ts.drop_last())
        && declares(cs.last(), ts.last())))
}

/// Whether `a` and `b` hold the same rows in the same shape.
pub open spec fn same_column(a: Column, b: Column) -> bool
    decreases a,
{
    match (a, b) {
        (Column::UInt8(x), Column::UInt8(y)) => x@ == y@,
        (Column::UInt16(x), Column::UInt16(y)) => x@ == y@,
        (Column::UInt32(x), Column::UInt32(y)) => x@ == y@,
        (Column::UInt64(x), Column::UInt64(y)) => x@ == y@,
        (Column::Int8(x), Column::Int8(y)) => x@ == y@,
        (Column::Int16(x), Column::Int16(y)) => x@ == y@,
        (Column::Int32(x), Column::Int32(y)) => x@ == y@,
        (Column::Int64(x), Column::Int64(y)) => x@ == y@,
        (Column::String(x), Column::String(y)) => x@.len() == y@.len() && forall|k: int|
            0 <= k < x@.len() ==> #[trigger] x@[k]@ == y@[k]@,
        (Column::Tuple(s), Column::Tuple(t)) => s.size() == t.size() && same_each(s.inners(), t.inners()),
        _ => false,
    }
}

/// Whether the columns `xs` and `ys` are pairwise the same.
pub open spec fn same_each(xs: Seq<Column>, ys: Seq<Column>) -> bool
    decreases xs,
{
    xs.len() == ys.len() && (xs.len() == 0 || (same_each(xs.drop_last(), ys.drop_last())
        && same_column(xs.last(), ys.last())))
}

impl TupleColumnData {
    #[verifier::type_invariant]
    spec fn inv(self) -> bool {
        forall|j: int| 0 <= j < self.inners@.len() ==> col_len(#[trigger] self.inners@[j]) == self.size
    }

    /// The sub-columns, in field order.
    pub closed spec fn inners(self) -> Seq<Column> {
        self.inners@
    }

    /// The shared number of rows.
    pub closed spec fn size(self) -> usize {
        self.size
    }

    /// A tuple column of the given sub-columns, each of which must hold
    /// `size` rows.
    pub fn load(inners: Vec<Column>, size: usize) -> (r: Option<TupleColumnData>)
        ensures
            r is Some <==> forall|j: int| 0 <= j < inners@.len() ==> col_len(#[trigger] inners@[j]) == size,
            r matches Some(t) ==> t.inners() == inners@ && t.size() == size,
    {
        let mut j: usize = 0;
        while j < inners.len()
            invariant
                j <= inners@.len(),
                forall|k: int| 0 <= k < j ==> col_len(#[trigger] inners@[k]) == size,
            decreases inners@.len() - j,
        {
            if inners[j].len() != size {
                return None;
            }
            j = j + 1;
        }
        Some(TupleColumnData { inners, size })
    }

    /// The number of rows; every sub-column holds as many.
    pub fn len(&self) -> (r: usize)
        ensures
            r == self.size(),
            forall|j: int| 0 <= j < self.inners().len() ==> col_len(#[trigger] self.inners()[j]) == r,
    {
        proof {
            use_type_invariant(self);
        }
        self.size
    }

    /// The declared type: a tuple of the sub-columns' declared types.
    pub fn sql_type(&self) -> (r: SqlType)
        ensures
            declares(Column::Tuple(*self), r),
        decreases self,
    {
        let mut ts: Vec<SqlType> = Vec::new();
        let mut j: usize = 0;
        while j < self.inners.len()
            invariant
                j <= self.inners@.len(),
                ts@.len() == j,
                forall|k: int| 0 <= k < j ==> #[trigger] declares(self.inners@[k], ts@[k]),
                forall|k: int| 0 <= k < self.inners@.len() ==> decreases_to!(*self => #[trigger] self.inners@[k]),
            decreases self.inners@.len() - j,
        {
            ts.push(self.inners[j].sql_type());
            j = j + 1;
        }
        proof {
            lemma_declares_each(self.inners@, ts@);
            assert(self.inners() == self.inners@);
        }
        SqlType::Tuple(ts)
    }

    /// Row `index`: the tuple of the sub-columns' values in that row.
    pub fn at<'a>(&'a self, index: usize) -> (r: ValueRef<'a>)
        requires
            index < self.size(),
        ensures
            row_of(Column::Tuple(*self), index as int, r),
        decreases self,
    {
        proof {
            use_type_invariant(self);
        }
        let mut rs: Vec<ValueRef<'a>> = Vec::new();
        let mut j: usize = 0;
        while j < self.inners.len()
            invariant
                j <= self.inners@.len(),
                rs@.len() == j,
                index < self.size,
                forall|k: int| 0 <= k < self.inners@.len() ==> col_len(#[trigger] self.inners@[k]) == self.size,
                forall|k: int| 0 <= k < j ==> #[trigger] row_of(self.inners@[k], index as int, rs@[k]),
                forall|k: int| 0 <= k < self.inners@.len() ==> decreases_to!(*self => #[trigger] self.inners@[k]),
            decreases self.inners@.len() - j,
        {
            rs.push(self.inners[j].at(index));
            j = j + 1;
        }
        proof {
            lemma_rows_of(self.inners@, index as int, rs@);
            assert(self.inners() == self.inners@);
        }
        ValueRef::Tuple(rs)
    }

    /// An independent deep copy.
    pub fn clone_instance(&self) -> (r: TupleColumnData)
        ensures
            same_column(Column::Tuple(*self), Column::Tuple(r)),
        decreases self,
    {
        proof {
            use_type_invariant(self);
        }
        let mut inners: Vec<Column> = Vec::new();
        let mut j: usize = 0;
        while j < self.inners.len()
            invariant
                j <= self.inners@.len(),
                inners@.len() == j,
                forall|k: int| 0 <= k < self.inners@.len() ==> col_len(#[trigger] self.inners@[k]) == self.size,
                forall|k: int| 0 <= k < j ==> #[trigger] same_column(self.inners@[k], inners@[k]),
                forall|k: int| 0 <= k < j ==> col_len(#[trigger] inners@[k]) == self.size,
                forall|k: int| 0 <= k < self.inners@.len() ==> decreases_to!(*self => #[trigger] self.inners@[k]),
            decreases self.inners@.len() - j,
        {
            let c = self.inners[j].clone_instance();
            proof {
                lemma_same_column_len(self.inners@[j as int], c);
            }
            inners.push(c);
            j = j + 1;
        }
        let r = TupleColumnData { inners, size: self.size };
        proof {
            lemma_same_each(self.inners@, r.inners@);
            assert(self.inners() == self.inners@);
            assert(r.inners() == r.inners@);
        }
        r
    }
}

/// The sub-columns of a tuple column are smaller than the column.
pub proof fn lemma_inners_smaller(c: Column)
    requires
        c is Tuple,
    ensures
        decreases_to!(c => c->Tuple_0.inners()),
{
    let t = c->Tuple_0;
    assert(t.inners() == t.inners@);
    assert(decreases_to!(c => t));
    assert(decreases_to!(t => t.inners));
    assert(decreases_to!(t.inners => t.inners@));
}

/// The list form of `rows_of` is the position-wise form.
pub proof fn lemma_rows_of<'a>(cs: Seq<Column>, i: int, rs: Seq<ValueRef<'a>>)
    ensures
        rows_of(cs, i, rs) <==> (cs.len() == rs.len() && forall|j: int|
            0 <= j < cs.len() ==> #[trigger] row_of(cs[j], i, rs[j])),
    decreases cs.len(),
{
    if cs.len() > 0 && cs.len() == rs.len() {
        lemma_rows_of(cs.drop_last(), i, rs.drop_last());
        let n = cs.len() - 1;
        if rows_of(cs, i, rs) {
            assert forall|j: int| 0 <= j < cs.len() implies #[trigger] row_of(cs[j], i, rs[j]) by {
                if j < n {
                    assert(row_of(cs.drop_last()[j], i, rs.drop_last()[j]));
                    assert(cs.drop_last()[j] == cs[j] && rs.drop_last()[j] == rs[j]);
                }
            }
        }
        if forall|j: int| 0 <= j < cs.len() ==> #[trigger] row_of(cs[j], i, rs[j]) {
            assert forall|j: int| 0 <= j < n implies #[trigger] row_of(cs.drop_last()[j], i, rs.drop_last()[j]) by {
                assert(row_of(cs[j], i, rs[j]));
                assert(cs.drop_last()[j] == cs[j] && rs.drop_last()[j] == rs[j]);
            }
            assert(row_of(cs[n], i, rs[n]));
            assert(cs.last() == cs[n] && rs.last() == rs[n]);
            assert(rows_of(cs.drop_last(), i, rs.drop_last()));
        }
    }
}

/// The list form of `declares_each` is the position-wise form.
pub proof fn lemma_declares_each(cs: Seq<Column>, ts: Seq<SqlType>)
    ensures
        declares_each(cs, ts) <==> (cs.len() == ts.len() && forall|j: int|
            0 <= j < cs.len() ==> #[trigger] declares(cs[j], ts[j])),
    decreases cs.len(),
{
    if cs.len() > 0 && cs.len() == ts.len() {
        lemma_declares_each(cs.drop_last(), ts.drop_last());
        let n = cs.len() - 1;
        if declares_each(cs, ts) {
            assert forall|j: int| 0 <= j < cs.len() implies #[trigger] declares(cs[j], ts[j]) by {
                if j < n {
                    assert(declares(cs.drop_last()[j], ts.drop_last()[j]));
                    assert(cs.drop_last()[j] == cs[j] && ts.drop_last()[j] == ts[j]);
                }
            }
        }
        if forall|j: int| 0 <= j < cs.len() ==> #[trigger] declares(cs[j], ts[j]) {
            assert forall|j: int| 0 <= j < n implies #[trigger] declares(cs.drop_last()[j], ts.drop_last()[j]) by {
                assert(declares(cs[j], ts[j]));
                assert(cs.drop_last()[j] == cs[j] && ts.drop_last()[j] == ts[j]);
            }
            assert(declares(cs[n], ts[n]));
            assert(cs.last() == cs[n] && ts.last() == ts[n]);
            assert(declares_each(cs.drop_last(), ts.drop_last()));
        }
    }
}

/// The list form of `same_each` is the position-wise form.
pub proof fn lemma_same_each(xs: Seq<Column>, ys: Seq<Column>)
    ensures
        same_each(xs, ys) <==> (xs.len() == ys.len() && forall|j: int|
            0 <= j < xs.len() ==> #[trigger] same_column(xs[j], ys[j])),
    decreases xs.len(),
{
    if xs.len() > 0 && xs.len() == ys.len() {
        lemma_same_each(xs.drop_last(), ys.drop_last());
        let n = xs.len() - 1;
        if same_each(xs, ys) {
            assert forall|j: int| 0 <= j < xs.len() implies #[trigger] same_column(xs[j], ys[j]) by {
                if j < n {
                    assert(same_column(xs.drop_last()[j], ys.drop_last()[j]));
                    assert(xs.drop_last()[j] == xs[j] && ys.drop_last()[j] == ys[j]);
                }
            }
        }
        if forall|j: int| 0 <= j < xs.len() ==> #[trigger] same_column(xs[j], ys[j]) {
            assert forall|j: int| 0 <= j < n implies #[trigger] same_column(xs.drop_last()[j], ys.drop_last()[j]) by {
                assert(same_column(xs[j], ys[j]));
                assert(xs.drop_last()[j] == xs[j] && ys.drop_last()[j] == ys[j]);
            }
            assert(same_column(xs[n], ys[n]));
            assert(xs.last() == xs[n] && ys.last() == ys[n]);
            assert(same_each(xs.drop_last(), ys.drop_last()));
        }
    }
}

/// Columns that hold the same rows have the same length.
proof fn lemma_same_column_len(a: Column, b: Column)
    requires
        same_column(a, b),
    ensures
        col_len(a) == col_len(b),
{
}

/// A copy of a vector of plain values.
fn copy_plain<T: Copy>(v: &Vec<T>) -> (r: Vec<T>)
    ensures
        r@ == v@,
{
    let mut r: Vec<T> = Vec::new();
    let mut i: usize = 0;
    while i < v.len()
        invariant
            i <= v@.len(),
            r@ == v@.subrange(0, i as int),
        decreases v@.len() - i,
    {
        r.push(v[i]);
        i = i + 1;
    }
    r
}

/// A copy of a vector of byte strings.
fn copy_byte_rows(v: &Vec<Vec<u8>>) -> (r: Vec<Vec<u8>>)
    ensures
        r@.len() == v@.len(),
        forall|k: int| 0 <= k < v@.len() ==> #[trigger] r@[k]@ == v@[k]@,
{
    let mut r: Vec<Vec<u8>> = Vec::new();
    let mut i: usize = 0;
    while i < v.len()
        invariant
            i <= v@.len(),
            r@.len() == i,
            forall|k: int| 0 <= k < i ==> #[trigger] r@[k]@ == v@[k]@,
        decreases v@.len() - i,
    {
        r.push(copy_plain(&v[i]));
        i = i + 1;
    }
    r
}

impl Column {
    /// The number of rows.
    pub fn len(&self) -> (r: usize)
        ensures
            r == col_len(*self),
    {
        match self {
            Column::UInt8(v) => v.len(),
            Column::UInt16(v) => v.len(),
            Column::UInt32(v) => v.len(),
            Column::UInt64(v) => v.len(),
            Column::Int8(v) => v.len(),
            Column::Int16(v) => v.len(),
            Column::Int32(v) => v.len(),
            Column::Int64(v) => v.len(),
            Column::String(v) => v.len(),
            Column::Tuple(t) => t.len(),
        }
    }

    /// The declared type.
    pub fn sql_type(&self) -> (r: SqlType)
        ensures
            declares(*self, r),
        decreases self,
    {
        match self {
            Column::UInt8(_) => SqlType::UInt8,
            Column::UInt16(_) => SqlType::UInt16,
            Column::UInt32(_) => SqlType::UInt32,
            Column::UInt64(_) => SqlType::UInt64,
            Column::Int8(_) => SqlType::Int8,
            Column::Int16(_) => SqlType::Int16,
            Column::Int32(_) => SqlType::Int32,
            Column::Int64(_) => SqlType::Int64,
            Column::String(_) => SqlType::String,
            Column::Tuple(t) => t.sql_type(),
        }
    }

    /// The value in row `index`, borrowing bytes from the column.
    pub fn at<'a>(&'a self, index: usize) -> (r: ValueRef<'a>)
        requires
            index < col_len(*self),
        ensures
            row_of(*self, index as int, r),
        decreases self,
    {
        match self {
            Column::UInt8(v) => ValueRef::UInt8(v[index]),
            Column::UInt16(v) => ValueRef::UInt16(v[index]),
            Column::UInt32(v) => ValueRef::UInt32(v[index]),
            Column::UInt64(v) => ValueRef::UInt64(v[index]),
            Column::Int8(v) => ValueRef::Int8(v[index]),
            Column::Int16(v) => ValueRef::Int16(v[index]),
            Column::Int32(v) => ValueRef::Int32(v[index]),
            Column::Int64(v) => ValueRef::Int64(v[index]),
            Column::String(v) => ValueRef::String(v[index].as_slice()),
            Column::Tuple(t) => t.at(index),
        }
    }

    /// An independent deep copy.
    pub fn clone_instance(&self) -> (r: Column)
        ensures
            same_column(*self, r),
        decreases self,
    {
        match self {
            Column::UInt8(v) => Column::UInt8(copy_plain(v)),
            Column::UInt16(v) => Column::UInt16(copy_plain(v)),
            Column::UInt32(v) => Column::UInt32(copy_plain(v)),
            Column::UInt64(v) => Column::UInt64(copy_plain(v)),
            Column::Int8(v) => Column::Int8(copy_plain(v)),
            Column::Int16(v) => Column::Int16(copy_plain(v)),
            Column::Int32(v) => Column::Int32(copy_plain(v)),
            Column::Int64(v) => Column::Int64(copy_plain(v)),
            Column::String(v) => Column::String(copy_byte_rows(v)),
            Column::Tuple(t) => Column::Tuple(t.clone_instance()),
        }
    }
}

} // verus!
