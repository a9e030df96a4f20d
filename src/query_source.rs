use vstd::prelude::*;
use crate::query_builder::{join, separator};
use crate::types::SqlType;

verus! {

/// One attribute of a table: the table it belongs to, its name and its
/// declared SQL type.
pub struct Column {
    pub table: String,
    pub name: String,
    pub sql_type: SqlType,
}

impl Column {
    pub fn new(table: &str, name: &str, sql_type: SqlType) -> (r: Column)
        ensures
            r.table@ == table@,
            r.name@ == name@,
            r.sql_type == sql_type,
    {
        Column { table: String::from_str(table), name: String::from_str(name), sql_type }
    }
}

/// A set of columns that a record supplies values for.
pub trait InsertableColumns {
    /// The table that every column of the set belongs to.
    spec fn table_name(&self) -> Seq<char>;

    /// The fused SQL type: each column's type, in order.
    spec fn fused_type(&self) -> Seq<SqlType>;

    /// The column names, in order, joined by `", "`.
    spec fn names_view(&self) -> Seq<char>;

    fn names(&self) -> (r: String)
        ensures
            r@ == self.names_view(),
    ;
}

/// A single column is a column set of size one.
impl InsertableColumns for Column {
    open spec fn table_name(&self) -> Seq<char> {
        self.table@
    }

    open spec fn fused_type(&self) -> Seq<SqlType> {
        seq![self.sql_type]
    }

    open spec fn names_view(&self) -> Seq<char> {
        self.name@
    }

    fn names(&self) -> (r: String) {
        self.name.clone()
    }
}

/// Why a list of columns is not a column set.
#[derive(Clone, Copy, Debug, PartialEq, Eq, Structural)]
pub enum ColumnSetError {
    /// A column set holds at least one column.
    Empty,
    /// The columns belong to more than one table.
    MixedTables,
}

/// The names of `cols`, in order.
pub open spec fn column_names(cols: Seq<Column>) -> Seq<Seq<char>> {
    cols.map_values(|c: Column| c.name@)
}

/// The declared types of `cols`, in order.
pub open spec fn column_types(cols: Seq<Column>) -> Seq<SqlType> {
    cols.map_values(|c: Column| c.sql_type)
}

/// Every column of `cols` belongs to the table of the first one.
pub open spec fn same_table(cols: Seq<Column>) -> bool {
    forall|i: int| 0 <= i < cols.len() ==> (#[trigger] cols[i]).table@ == cols[0].table@
}

/// Two column sets name the same columns of the same table, in the same
/// order and with the same types.
pub open spec fn same_columns(a: ColumnList, b: ColumnList) -> bool {
    &&& a@.len() == b@.len()
    &&& forall|i: int|
        0 <= i < a@.len() ==> (#[trigger] a@[i]).table@ == b@[i].table@ && a@[i].name@ == b@[i].name@
            && a@[i].sql_type == b@[i].sql_type
}

/// An ordered, non-empty list of columns of one table.
pub struct ColumnList {
    columns: Vec<Column>,
}

impl ColumnList {
    pub closed spec fn view(&self) -> Seq<Column> {
        self.columns@
    }

    pub open spec fn wf(&self) -> bool {
        self.view().len() > 0 && same_table(self.view())
    }

    /// The column set of `columns`, in their order; fails where `columns` is
    /// empty or spans more than one table.
    pub fn new(columns: Vec<Column>) -> (r: Result<ColumnList, ColumnSetError>)
        ensures
            columns@.len() == 0 ==> r == Err::<ColumnList, ColumnSetError>(ColumnSetError::Empty),
            columns@.len() > 0 && !same_table(columns@) ==> r == Err::<ColumnList, ColumnSetError>(
                ColumnSetError::MixedTables,
            ),
            columns@.len() > 0 && same_table(columns@) ==> r is Ok && r.unwrap().view()
                == columns@,
            r is Ok ==> r.unwrap().wf(),
    {
        if columns.len() == 0 {
            return Err(ColumnSetError::Empty);
        }
        let mut i: usize = 1;
        while i < columns.len()
            invariant
                1 <= i <= columns@.len(),
                forall|j: int| 0 <= j < i ==> (#[trigger] columns@[j]).table@ == columns@[0].table@,
            decreases columns@.len() - i,
        {
            if columns[i].table != columns[0].table {
                return Err(ColumnSetError::MixedTables);
            }
            i = i + 1;
        }
        Ok(ColumnList { columns })
    }

    pub fn len(&self) -> (r: usize)
        ensures
            r == self.view().len(),
    {
        self.columns.len()
    }

    pub fn column(&self, i: usize) -> (r: &Column)
        requires
            i < self.view().len(),
        ensures
            *r == self.view()[i as int],
    {
        &self.columns[i]
    }

    /// Whether `other` names the same columns, in the same order.
    pub fn same_as(&self, other: &ColumnList) -> (r: bool)
        ensures
            r == same_columns(*self, *other),
    {
        if self.columns.len() != other.columns.len() {
            return false;
        }
        let mut i: usize = 0;
        while i < self.columns.len()
            invariant
                i <= self.columns@.len(),
                self.columns@.len() == other.columns@.len(),
                forall|j: int|
                    0 <= j < i ==> (#[trigger] self.columns@[j]).table@ == other.columns@[j].table@
                        && self.columns@[j].name@ == other.columns@[j].name@
                        && self.columns@[j].sql_type == other.columns@[j].sql_type,
            decreases self.columns@.len() - i,
        {
            let a = &self.columns[i];
            let b = &other.columns[i];
            if a.table != b.table || a.name != b.name || a.sql_type != b.sql_type {
                return false;
            }
            i = i + 1;
        }
        true
    }
}

impl InsertableColumns for ColumnList {
    open spec fn table_name(&self) -> Seq<char> {
        self.view()[0].table@
    }

    open spec fn fused_type(&self) -> Seq<SqlType> {
        column_types(self.view())
    }

    open spec fn names_view(&self) -> Seq<char> {
        join(column_names(self.view()), separator())
    }

    fn names(&self) -> (r: String) {
        let mut out = String::new();
        let mut i: usize = 0;
        proof {
            reveal_strlit(", ");
            assert(", "@ =~= separator());
        }
        while i < self.columns.len()
            invariant
                i <= self.columns@.len(),
                out@ == join(column_names(self.columns@.take(i as int)), separator()),
                ", "@ == separator(),
            decreases self.columns@.len() - i,
        {
            let ghost prefix = column_names(self.columns@.take(i as int));
            proof {
                crate::query_builder::lemma_join_push(prefix, separator(), self.columns@[i as int].name@);
                assert(column_names(self.columns@.take(i + 1)) =~= prefix.push(
                    self.columns@[i as int].name@,
                ));
            }
            if i > 0 {
                out.append(", ");
            }
            out.append(self.columns[i].name.as_str());
            i = i + 1;
        }
        assert(self.columns@.take(self.columns@.len() as int) =~= self.columns@);
        out
    }
}

} // verus!
