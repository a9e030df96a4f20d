use vstd::prelude::*;
use crate::types::Value;

verus! {

/// Why rendering a fragment into a [`QueryBuilder`] failed.
#[derive(Clone, Copy, Debug, PartialEq, Eq, Structural)]
pub enum BuildError {
    /// The statement would bind more parameters than the builder accepts.
    TooManyBindParams,
}

pub type BuildQueryResult = Result<(), BuildError>;

/// The row separator `", "`.
pub open spec fn separator() -> Seq<char> {
    seq![',', ' ']
}

/// The parts joined by `sep`, with no leading or trailing separator.
pub open spec fn join(parts: Seq<Seq<char>>, sep: Seq<char>) -> Seq<char>
    decreases parts.len(),
{
    if parts.len() == 0 {
        Seq::empty()
    } else if parts.len() == 1 {
        parts[0]
    } else {
        join(parts.drop_last(), sep) + sep + parts.last()
    }
}

/// Joining one more part appends the separator and that part.
pub proof fn lemma_join_push(parts: Seq<Seq<char>>, sep: Seq<char>, p: Seq<char>)
    ensures
        join(parts.push(p), sep) == if parts.len() == 0 {
            p
        } else {
            join(parts, sep) + sep + p
        },
{
    assert(parts.push(p).drop_last() =~= parts);
}

/// Text accumulator that fragments render themselves into: the SQL text, and
/// the values bound to its placeholders, up to a bound on their number.
pub struct QueryBuilder {
    sql: String,
    binds: Vec<Value>,
    bind_limit: usize,
}

impl QueryBuilder {
    pub closed spec fn sql_view(&self) -> Seq<char> {
        self.sql@
    }

    pub closed spec fn binds_view(&self) -> Seq<Value> {
        self.binds@
    }

    pub closed spec fn limit(&self) -> nat {
        self.bind_limit as nat
    }

    /// The builder holds no more bound values than its bound.
    pub open spec fn wf(&self) -> bool {
        self.binds_view().len() <= self.limit()
    }

    /// An empty builder that accepts at most `bind_limit` bound values.
    pub fn new(bind_limit: usize) -> (r: QueryBuilder)
        ensures
            r.sql_view() == Seq::<char>::empty(),
            r.binds_view() == Seq::<Value>::empty(),
            r.limit() == bind_limit,
            r.wf(),
    {
        QueryBuilder { sql: String::new(), binds: Vec::new(), bind_limit }
    }

    pub fn push_sql(&mut self, s: &str)
        requires
            old(self).wf(),
        ensures
            final(self).wf(),
            final(self).sql_view() == old(self).sql_view() + s@,
            final(self).binds_view() == old(self).binds_view(),
            final(self).limit() == old(self).limit(),
    {
        self.sql.append(s);
    }

    /// Writes the placeholder `?` and binds `v` to it; fails, changing
    /// nothing, where the bound on bound values is already reached.
    pub fn push_bind_param(&mut self, v: &Value) -> (r: BuildQueryResult)
        requires
            old(self).wf(),
        ensures
            final(self).wf(),
            r is Ok <==> old(self).binds_view().len() < old(self).limit(),
            r is Ok ==> final(self).sql_view() == old(self).sql_view() + seq!['?']
                && final(self).binds_view() == old(self).binds_view().push(*v),
            r is Err ==> r == Err::<(), BuildError>(BuildError::TooManyBindParams)
                && *final(self) == *old(self),
            final(self).limit() == old(self).limit(),
    {
        if self.binds.len() >= self.bind_limit {
            return Err(BuildError::TooManyBindParams);
        }
        proof {
            reveal_strlit("?");
        }
        self.sql.append("?");
        self.binds.push(v.duplicate());
        Ok(())
    }

    /// The SQL text written so far.
    pub fn sql(&self) -> (r: String)
        ensures
            r@ == self.sql_view(),
    {
        self.sql.clone()
    }

    /// The number of values bound so far.
    pub fn bind_count(&self) -> (r: usize)
        ensures
            r == self.binds_view().len(),
    {
        self.binds.len()
    }

    /// The value bound to the placeholder at `i`.
    pub fn bind(&self, i: usize) -> (r: Value)
        requires
            i < self.binds_view().len(),
        ensures
            r == self.binds_view()[i as int],
    {
        self.binds[i].duplicate()
    }
}

} // verus!
