use vstd::prelude::*;
use crate::expression::{group_sql, renders_group, ValueList};
use crate::query_builder::{join, lemma_join_push, separator, BuildError, BuildQueryResult, QueryBuilder};
use crate::query_source::{same_columns, ColumnList, InsertableColumns};
use crate::types::{value_types, Value};

verus! {

/// Why a record or a batch of records cannot be inserted.
#[derive(Clone, Copy, Debug, PartialEq, Eq, Structural)]
pub enum InsertError {
    /// The values' fused SQL type differs from the column set's.
    TypeMismatch,
    /// A record of a batch maps to other columns than the batch.
    ColumnMismatch,
}

/// A record mapped onto a column set: the columns it fills, and its
/// value-expression, whose fused SQL type equals the column set's.
pub struct Insertable {
    columns: ColumnList,
    values: ValueList,
}

impl Insertable {
    pub closed spec fn column_set(&self) -> ColumnList {
        self.columns
    }

    pub closed spec fn values_view(&self) -> Seq<Value> {
        self.values@
    }

    pub open spec fn wf(&self) -> bool {
        &&& self.column_set().wf()
        &&& self.column_set().fused_type() == value_types(self.values_view())
    }

    /// Maps `values` onto `columns`; fails where the values' types, in
    /// order, are not the columns' types.
    pub fn new(columns: ColumnList, values: ValueList) -> (r: Result<Insertable, InsertError>)
        requires
            columns.wf(),
        ensures
            r is Ok <==> columns.fused_type() == values.sql_type(),
            r is Ok ==> r.unwrap().wf() && r.unwrap().column_set() == columns
                && r.unwrap().values_view() == values@,
            r is Err ==> r == Err::<Insertable, InsertError>(InsertError::TypeMismatch),
    {
        let types = values.sql_types();
        if types.len() != columns.len() {
            return Err(InsertError::TypeMismatch);
        }
        let mut i: usize = 0;
        while i < types.len()
            invariant
                i <= types@.len(),
                types@ == values.sql_type(),
                types@.len() == columns@.len(),
                forall|j: int| 0 <= j < i ==> types@[j] == (#[trigger] columns@[j]).sql_type,
            decreases types@.len() - i,
        {
            if types[i] != columns.column(i).sql_type {
                assert(columns.fused_type()[i as int] != values.sql_type()[i as int]);
                return Err(InsertError::TypeMismatch);
            }
            i = i + 1;
        }
        assert(columns.fused_type() =~= values.sql_type());
        Ok(Insertable { columns, values })
    }

    /// The column set the record fills.
    pub fn columns(&self) -> (r: &ColumnList)
        ensures
            *r == self.column_set(),
    {
        &self.columns
    }

    /// The record's value-expression; its fused SQL type is the column
    /// set's.
    pub fn values(self) -> (r: ValueList)
        requires
            self.wf(),
        ensures
            r@ == self.values_view(),
            r.sql_type() == self.column_set().fused_type(),
    {
        self.values
    }

    /// The record's value-expression, borrowed.
    pub fn values_ref(&self) -> (r: &ValueList)
        ensures
            r@ == self.values_view(),
    {
        &self.values
    }
}

/// The SQL of a batch of rows: one value group per row, in order, joined by
/// `", "`.
pub open spec fn rows_sql(rows: Seq<Seq<Value>>) -> Seq<char> {
    join(rows.map_values(|row: Seq<Value>| group_sql(row.len())), separator())
}

/// The values of a batch of rows, row after row.
pub open spec fn all_values(rows: Seq<Seq<Value>>) -> Seq<Value>
    decreases rows.len(),
{
    if rows.len() == 0 {
        Seq::empty()
    } else {
        all_values(rows.drop_last()) + rows.last()
    }
}

/// What rendering `rows` into `b0` gives: the result, and where it is `Ok`
/// the builder `b1` that comes out.
pub open spec fn renders_rows(
    rows: Seq<Seq<Value>>,
    b0: QueryBuilder,
    b1: QueryBuilder,
    r: BuildQueryResult,
) -> bool {
    &&& (r is Ok <==> b0.binds_view().len() + all_values(rows).len() <= b0.limit())
    &&& (r is Ok ==> b1.sql_view() == b0.sql_view() + rows_sql(rows) && b1.binds_view()
        == b0.binds_view() + all_values(rows))
    &&& (r is Err ==> r == Err::<(), BuildError>(BuildError::TooManyBindParams))
    &&& b1.limit() == b0.limit()
    &&& b1.wf()
}

/// A prefix of a batch holds no more values than the batch.
proof fn lemma_all_values_prefix(rows: Seq<Seq<Value>>, j: int)
    requires
        0 <= j <= rows.len(),
    ensures
        all_values(rows.take(j)).len() <= all_values(rows).len(),
    decreases rows.len() - j,
{
    if j < rows.len() {
        lemma_all_values_prefix(rows, j + 1);
        assert(rows.take(j + 1).drop_last() =~= rows.take(j));
    } else {
        assert(rows.take(j) =~= rows);
    }
}

} // verus!

verus! {

/// The value-expression of a batch of records that share one column set:
/// it borrows the records and renders one value group per record.
pub struct InsertValues<'a> {
    columns: &'a ColumnList,
    values: &'a [Insertable],
}

impl<'a> InsertValues<'a> {
    pub closed spec fn column_set(&self) -> ColumnList {
        *self.columns
    }

    pub closed spec fn records(&self) -> Seq<Insertable> {
        self.values@
    }

    /// The values of each record, in order.
    pub open spec fn rows(&self) -> Seq<Seq<Value>> {
        self.records().map_values(|rec: Insertable| rec.values_view())
    }

    pub open spec fn wf(&self) -> bool {
        &&& self.column_set().wf()
        &&& forall|i: int|
            0 <= i < self.records().len() ==> (#[trigger] self.records()[i]).wf() && same_columns(
                self.records()[i].column_set(),
                self.column_set(),
            )
    }

    /// The batch of `records` inserted into `columns`; fails where a record
    /// maps to other columns.
    pub fn new(columns: &'a ColumnList, records: &'a [Insertable]) -> (r: Result<
        InsertValues<'a>,
        InsertError,
    >)
        requires
            columns.wf(),
            forall|i: int| 0 <= i < records@.len() ==> (#[trigger] records@[i]).wf(),
        ensures
            r is Ok <==> forall|i: int|
                0 <= i < records@.len() ==> same_columns(
                    (#[trigger] records@[i]).column_set(),
                    *columns,
                ),
            r is Ok ==> r.unwrap().wf() && r.unwrap().column_set() == *columns
                && r.unwrap().records() == records@,
            r is Err ==> r == Err::<InsertValues<'a>, InsertError>(InsertError::ColumnMismatch),
    {
        let mut i: usize = 0;
        while i < records.len()
            invariant
                i <= records@.len(),
                forall|j: int|
                    0 <= j < i ==> same_columns((#[trigger] records@[j]).column_set(), *columns),
            decreases records@.len() - i,
        {
            if !records[i].columns().same_as(columns) {
                return Err(InsertError::ColumnMismatch);
            }
            i = i + 1;
        }
        Ok(InsertValues { columns, values: records })
    }

    /// The batch of the records of `records`, borrowed as a slice.
    pub fn from_vec(columns: &'a ColumnList, records: &'a Vec<Insertable>) -> (r: Result<
        InsertValues<'a>,
        InsertError,
    >)
        requires
            columns.wf(),
            forall|i: int| 0 <= i < records@.len() ==> (#[trigger] records@[i]).wf(),
        ensures
            r is Ok <==> forall|i: int|
                0 <= i < records@.len() ==> same_columns(
                    (#[trigger] records@[i]).column_set(),
                    *columns,
                ),
            r is Ok ==> r.unwrap().wf() && r.unwrap().column_set() == *columns
                && r.unwrap().records() == records@,
            r is Err ==> r == Err::<InsertValues<'a>, InsertError>(InsertError::ColumnMismatch),
    {
        InsertValues::new(columns, records.as_slice())
    }

    /// The one column set of the whole batch.
    pub fn columns(&self) -> (r: &ColumnList)
        ensures
            *r == self.column_set(),
    {
        self.columns
    }

    pub fn len(&self) -> (r: usize)
        ensures
            r == self.records().len(),
    {
        self.values.len()
    }

    /// Writes one value group per record, in order, joined by `", "`, with no
    /// leading or trailing separator; stops at the first record that fails.
    pub fn to_sql(&self, out: &mut QueryBuilder) -> (r: BuildQueryResult)
        requires
            old(out).wf(),
        ensures
            renders_rows(self.rows(), *old(out), *final(out), r),
    {
        let ghost b0 = *out;
        let ghost rows = self.rows();
        proof {
            reveal_strlit(", ");
            assert(", "@ =~= separator());
        }
        let mut i: usize = 0;
        let mut failed: bool = false;
        while i < self.values.len() && !failed
            invariant
                i <= self.values@.len(),
                rows == self.rows(),
                rows.len() == self.values@.len(),
                out.limit() == b0.limit(),
                out.wf(),
                b0.wf(),
                !failed ==> out.sql_view() == b0.sql_view() + rows_sql(rows.take(i as int)),
                !failed ==> out.binds_view() == b0.binds_view() + all_values(rows.take(i as int)),
                failed ==> b0.binds_view().len() + all_values(rows).len() > b0.limit(),
                ", "@ == separator(),
            decreases self.values@.len() - i,
        {
            let ghost groups = rows.take(i as int).map_values(
                |row: Seq<Value>| group_sql(row.len()),
            );
            proof {
                lemma_join_push(groups, separator(), group_sql(rows[i as int].len()));
                assert(rows.take(i + 1).map_values(|row: Seq<Value>| group_sql(row.len()))
                    =~= groups.push(group_sql(rows[i as int].len())));
                assert(rows.take(i + 1).drop_last() =~= rows.take(i as int));
                lemma_all_values_prefix(rows, i + 1);
            }
            if i > 0 {
                out.push_sql(", ");
            }
            let ghost mid = *out;
            match self.values[i].values_ref().to_sql(out) {
                Ok(()) => {
                    assert(renders_group(rows[i as int], mid, *out, Ok(())));
                    assert(out.sql_view() =~= b0.sql_view() + rows_sql(rows.take(i + 1)));
                    assert(out.binds_view() =~= b0.binds_view() + all_values(rows.take(i + 1)));
                },
                Err(_) => {
                    failed = true;
                },
            }
            i = i + 1;
        }
        if failed {
            return Err(BuildError::TooManyBindParams);
        }
        assert(rows.take(rows.len() as int) =~= rows);
        Ok(())
    }
}

} // verus!

verus! {

/// A well-formed record's value-expression has exactly the fused SQL type of
/// the column set it fills, and in a batch every record fills the batch's
/// one column set.
pub proof fn lemma_values_type_matches_columns(batch: InsertValues, i: int)
    requires
        batch.wf(),
        0 <= i < batch.records().len(),
    ensures
        value_types(batch.records()[i].values_view()) == batch.records()[i].column_set().fused_type(),
        batch.records()[i].column_set().fused_type() == batch.column_set().fused_type(),
{
    let a = batch.records()[i].column_set();
    let b = batch.column_set();
    assert(a.fused_type() =~= b.fused_type());
}

/// Rendering the same rows into builders in the same state gives the same
/// result, the same text and the same bound values.
pub proof fn lemma_rendering_deterministic(
    rows: Seq<Seq<Value>>,
    b0: QueryBuilder,
    c0: QueryBuilder,
    b1: QueryBuilder,
    c1: QueryBuilder,
    r: BuildQueryResult,
    s: BuildQueryResult,
)
    requires
        renders_rows(rows, b0, b1, r),
        renders_rows(rows, c0, c1, s),
        b0.sql_view() == c0.sql_view(),
        b0.binds_view() == c0.binds_view(),
        b0.limit() == c0.limit(),
    ensures
        r is Ok <==> s is Ok,
        r is Err ==> r == s,
        r is Ok ==> b1.sql_view() == c1.sql_view() && b1.binds_view() == c1.binds_view(),
{
}

/// No rows render as the empty text, and one row as its own value group
/// alone, without a separator.
pub proof fn lemma_rendering_boundaries(row: Seq<Value>)
    ensures
        rows_sql(Seq::empty()) == Seq::<char>::empty(),
        all_values(Seq::empty()) == Seq::<Value>::empty(),
        rows_sql(seq![row]) == group_sql(row.len()),
        all_values(seq![row]) == row,
{
    assert(Seq::<Seq<Value>>::empty().map_values(|r: Seq<Value>| group_sql(r.len())) =~= Seq::empty());
    assert(seq![row].map_values(|r: Seq<Value>| group_sql(r.len())) =~= seq![group_sql(row.len())]);
    assert(seq![row].drop_last() =~= Seq::<Seq<Value>>::empty());
    assert(Seq::<Value>::empty() + row =~= row);
}

/// One more row adds its value group after the batch's text, behind a
/// separator unless the batch was empty, and its values after the batch's.
pub proof fn lemma_rows_sql_push(rows: Seq<Seq<Value>>, row: Seq<Value>)
    ensures
        rows_sql(rows.push(row)) == if rows.len() == 0 {
            group_sql(row.len())
        } else {
            rows_sql(rows) + separator() + group_sql(row.len())
        },
        all_values(rows.push(row)) == all_values(rows) + row,
{
    let f = |r: Seq<Value>| group_sql(r.len());
    assert(rows.push(row).map_values(f) =~= rows.map_values(f).push(group_sql(row.len())));
    lemma_join_push(rows.map_values(f), separator(), group_sql(row.len()));
    assert(rows.push(row).drop_last() =~= rows);
}

} // verus!
