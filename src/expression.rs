use vstd::prelude::*;
use crate::query_builder::{join, lemma_join_push, separator, BuildError, BuildQueryResult, QueryBuilder};
use crate::types::{value_types, SqlType, Value};

verus! {

/// `n` placeholders `?`.
pub open spec fn placeholders(n: nat) -> Seq<Seq<char>> {
    Seq::new(n, |i: int| seq!['?'])
}

/// The value group of a record with `n` values: `(?, ?, ...)`.
pub open spec fn group_sql(n: nat) -> Seq<char> {
    seq!['('] + join(placeholders(n), separator()) + seq![')']
}

/// What rendering `vs` into `b0` gives: the result, and where it is `Ok` the
/// builder `b1` that comes out.
pub open spec fn renders_group(vs: Seq<Value>, b0: QueryBuilder, b1: QueryBuilder, r: BuildQueryResult) -> bool {
    &&& (r is Ok <==> b0.binds_view().len() + vs.len() <= b0.limit())
    &&& (r is Ok ==> b1.sql_view() == b0.sql_view() + group_sql(vs.len())
        && b1.binds_view() == b0.binds_view() + vs)
    &&& (r is Err ==> r == Err::<(), BuildError>(BuildError::TooManyBindParams))
    &&& b1.limit() == b0.limit()
    &&& b1.wf()
}

/// The value-expression of one record: its values in column order, each
/// written as a placeholder and bound to it.
pub struct ValueList {
    values: Vec<Value>,
}

impl ValueList {
    pub closed spec fn view(&self) -> Seq<Value> {
        self.values@
    }

    pub fn new(values: Vec<Value>) -> (r: ValueList)
        ensures
            r@ == values@,
    {
        ValueList { values }
    }

    /// The fused SQL type of the values: each value's type, in order.
    pub open spec fn sql_type(&self) -> Seq<SqlType> {
        value_types(self@)
    }

    pub fn len(&self) -> (r: usize)
        ensures
            r == self@.len(),
    {
        self.values.len()
    }

    pub fn sql_types(&self) -> (r: Vec<SqlType>)
        ensures
            r@ == self.sql_type(),
    {
        let mut out: Vec<SqlType> = Vec::new();
        let mut i: usize = 0;
        while i < self.values.len()
            invariant
                i <= self.values@.len(),
                out@ == value_types(self.values@.take(i as int)),
            decreases self.values@.len() - i,
        {
            out.push(self.values[i].sql_type());
            i = i + 1;
            assert(value_types(self.values@.take(i as int)) =~= out@);
        }
        assert(self.values@.take(self.values@.len() as int) =~= self.values@);
        out
    }

    /// Writes `(?, ?, ...)`, one placeholder per value, binding the values in
    /// order; fails, leaving the text unfinished, where the builder cannot take
    /// them all.
    pub fn to_sql(&self, out: &mut QueryBuilder) -> (r: BuildQueryResult)
        requires
            old(out).wf(),
        ensures
            renders_group(self@, *old(out), *final(out), r),
    {
        let ghost b0 = *out;
        proof {
            reveal_strlit("(");
            reveal_strlit(")");
            reveal_strlit(", ");
            assert(", "@ =~= separator());
        }
        out.push_sql("(");
        let mut i: usize = 0;
        let mut failed: bool = false;
        while i < self.values.len() && !failed
            invariant
                i <= self.values@.len(),
                out.limit() == b0.limit(),
                out.wf(),
                b0.wf(),
                !failed ==> out.sql_view() == b0.sql_view() + seq!['('] + join(
                    placeholders(i as nat),
                    separator(),
                ),
                !failed ==> out.binds_view() == b0.binds_view() + self.values@.take(i as int),
                failed ==> b0.binds_view().len() + self.values@.len() > b0.limit(),
                ", "@ == separator(),
                ")"@ == seq![')'],
            decreases self.values@.len() - i,
        {
            proof {
                lemma_join_push(placeholders(i as nat), separator(), seq!['?']);
                assert(placeholders((i + 1) as nat) =~= placeholders(i as nat).push(seq!['?']));
                assert(self.values@.take(i + 1) =~= self.values@.take(i as int).push(
                    self.values@[i as int],
                ));
            }
            if i > 0 {
                out.push_sql(", ");
            }
            match out.push_bind_param(&self.values[i]) {
                Ok(()) => {
                    assert(out.sql_view() =~= b0.sql_view() + seq!['('] + join(
                        placeholders((i + 1) as nat),
                        separator(),
                    ));
                },
                Err(_) => {
                    failed = true;
                },
            }
            i = i + 1;
        }
        if failed {
            return Err(BuildError::TooManyBindParams);
        }
        out.push_sql(")");
        assert(self.values@.take(self.values@.len() as int) =~= self.values@);
        assert(out.sql_view() =~= b0.sql_view() + group_sql(self.values@.len()));
        Ok(())
    }
}

} // verus!
