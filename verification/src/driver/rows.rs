//! Results of queries.

use std::collections::VecDeque;
use vstd::prelude::*;
use crate::driver::column;
use crate::driver::column::{bounds_error, copy_columns, find_index, find_name, names_of};
use crate::driver::column::{Column, ColumnModel};
use crate::driver::error;
use crate::driver::error::{Error, ErrorModel};
use crate::text::join3;
use crate::value;
use crate::value::{Value, ValueModel};

verus! {

/// A row of a result.
#[derive(Debug, PartialEq)]
pub struct Row {
    values: Vec<Value>,
}

impl View for Row {
    type V = Seq<ValueModel>;

    closed spec fn view(&self) -> Seq<ValueModel> {
        value::models(self.values@)
    }
}

/// What a column of a row can be asked for as.
pub trait FromValue: Sized {
    /// Whether `r` is what a value is read as.
    spec fn reads(value: ValueModel, r: Result<Self, Error>) -> bool;

    fn from_value(value: Value) -> (r: Result<Self, Error>)
        ensures
            Self::reads(value@, r),
    ;
}

impl FromValue for Value {
    /// A value reads as itself.
    open spec fn reads(value: ValueModel, r: Result<Value, Error>) -> bool {
        error::value_result(r) == Ok::<ValueModel, ErrorModel>(value)
    }

    fn from_value(value: Value) -> (r: Result<Value, Error>) {
        Ok(value)
    }
}

impl Row {
    pub fn new(values: Vec<Value>) -> (r: Row)
        ensures
            r@ == value::models(values@),
    {
        Row { values }
    }

    /// The value of a column.
    pub fn get_value(&self, idx: usize) -> (r: Result<Value, Error>)
        ensures
            error::value_result(r) == if idx < self@.len() {
                Ok::<ValueModel, ErrorModel>(self@[idx as int])
            } else {
                Err(column::out_of_bounds(idx, "row"@, self@.len()))
            },
    {
        if idx < self.values.len() {
            Ok(self.values[idx].copy())
        } else {
            Err(bounds_error(idx, "row", self.values.len()))
        }
    }

    /// The value of a column, read as another type.
    pub fn get<T: FromValue>(&self, idx: usize) -> (r: Result<T, Error>)
        ensures
            if idx < self@.len() {
                T::reads(self@[idx as int], r)
            } else {
                r matches Err(e) && e@ == column::out_of_bounds(idx, "row"@, self@.len())
            },
    {
        match self.get_value(idx) {
            Ok(value) => T::from_value(value),
            Err(e) => Err(e),
        }
    }

    /// How many columns the row has.
    pub fn column_count(&self) -> (r: usize)
        ensures
            r == self@.len(),
    {
        self.values.len()
    }
}

/// Rows, by what they hold.
pub open spec fn row_models(rows: Seq<Row>) -> Seq<Seq<ValueModel>> {
    rows.map_values(|r: Row| r@)
}

/// The result of a query: the rows that are left of it.
pub struct Rows {
    columns: Vec<Column>,
    rows: VecDeque<Row>,
}

/// The result of a query, by what it holds.
pub struct RowsModel {
    pub columns: Seq<ColumnModel>,
    pub rows: Seq<Seq<ValueModel>>,
}

impl View for Rows {
    type V = RowsModel;

    closed spec fn view(&self) -> RowsModel {
        RowsModel {
            columns: column::column_models(self.columns@),
            rows: row_models(self.rows@),
        }
    }
}

impl Rows {
    pub fn new(columns: Vec<Column>, rows: Vec<Row>) -> (r: Rows)
        ensures
            r@ == (RowsModel {
                columns: column::column_models(columns@),
                rows: row_models(rows@),
            }),
    {
        let mut queue: VecDeque<Row> = VecDeque::new();
        let ghost all = rows@;
        for row in it: rows.into_iter()
            invariant
                it.seq() == all,
                queue@ == all.take(it.index() as int),
        {
            queue.push_back(row);
            assert(queue@ =~= all.take(it.index() + 1));
        }
        assert(queue@ =~= all);
        Rows { columns, rows: queue }
    }

    /// Takes the next row. There is always an answer, since the whole result is
    /// here.
    pub fn next(&mut self) -> (r: Result<Option<Row>, Error>)
        ensures
            final(self)@.columns == old(self)@.columns,
            if old(self)@.rows.len() > 0 {
                &&& r matches Ok(Some(row)) && row@ == old(self)@.rows[0]
                &&& final(self)@.rows == old(self)@.rows.skip(1)
            } else {
                &&& r == Ok::<Option<Row>, Error>(None)
                &&& final(self)@.rows == old(self)@.rows
            },
    {
        let ghost before = self.rows@;
        let row = self.rows.pop_front();
        proof {
            if before.len() > 0 {
                assert(row_models(self.rows@) =~= row_models(before).skip(1));
                assert(row_models(before)[0] == before[0]@);
            } else {
                assert(row_models(self.rows@) =~= row_models(before));
            }
        }
        Ok(row)
    }

    /// How many columns the result has.
    pub fn column_count(&self) -> (r: usize)
        ensures
            r == self@.columns.len(),
    {
        self.columns.len()
    }

    /// The name of a column.
    pub fn column_name(&self, idx: usize) -> (r: Result<String, Error>)
        ensures
            match r {
                Ok(s) => column::name_at(self@.columns, idx, "result"@) == Ok::<
                    Seq<char>,
                    ErrorModel,
                >(s@),
                Err(e) => column::name_at(self@.columns, idx, "result"@) == Err::<
                    Seq<char>,
                    ErrorModel,
                >(e@),
            },
    {
        find_name(&self.columns, idx, "result")
    }

    /// The names of all columns.
    pub fn column_names(&self) -> (r: Vec<String>)
        ensures
            column::text_views(r@) == column::names(self@.columns),
    {
        names_of(&self.columns)
    }

    /// The first column with a name, whatever the case of its letters.
    pub fn column_index(&self, name: &str) -> (r: Result<usize, Error>)
        ensures
            match r {
                Ok(i) => column::index_from(self@.columns, name@, 0) == Some(i as nat),
                Err(e) => column::index_from(self@.columns, name@, 0) is None && e@
                    == ErrorModel::Misuse("column '"@ + name@ + "' not found in result set"@),
            },
    {
        match find_index(&self.columns, name) {
            Some(i) => Ok(i),
            None => Err(Error::Misuse(join3("column '", name, "' not found in result set"))),
        }
    }

    /// The columns.
    pub fn columns(&self) -> (r: Vec<Column>)
        ensures
            column::column_models(r@) == self@.columns,
    {
        copy_columns(&self.columns)
    }
}

} // verus!
