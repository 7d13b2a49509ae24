//! Prepared statements. The server keeps none: preparing one describes it, and
//! each execution sends its text.

use vstd::prelude::*;
use crate::driver::column;
use crate::driver::column::{copy_columns, find_index, find_name, names_of};
use crate::driver::column::{Column, ColumnModel};
use crate::driver::error::{Error, ErrorModel};
use crate::driver::rows::{Row, Rows};
use crate::text::join3;

verus! {

/// A prepared statement.
pub struct Statement {
    sql: String,
    columns: Vec<Column>,
    last_n_change: u64,
}

/// A prepared statement, by what it holds.
pub struct StatementModel {
    pub sql: Seq<char>,
    pub columns: Seq<ColumnModel>,
    pub changed: u64,
}

impl View for Statement {
    type V = StatementModel;

    closed spec fn view(&self) -> StatementModel {
        StatementModel {
            sql: self.sql@,
            columns: column::column_models(self.columns@),
            changed: self.last_n_change,
        }
    }
}

impl Statement {
    /// A statement that was not executed yet.
    pub fn new(sql: String, columns: Vec<Column>) -> (r: Statement)
        ensures
            r@ == (StatementModel {
                sql: sql@,
                columns: column::column_models(columns@),
                changed: 0,
            }),
    {
        Statement { sql, columns, last_n_change: 0 }
    }

    /// The text that each execution sends.
    pub fn sql(&self) -> (r: &str)
        ensures
            r@ == self@.sql,
    {
        self.sql.as_str()
    }

    /// Takes note of what an execution came to: how many rows it changed, or that
    /// it failed, which leaves the last count as it is.
    pub fn execute(&mut self, outcome: Result<u64, Error>) -> (r: Result<u64, Error>)
        ensures
            r == outcome,
            final(self)@ == (StatementModel {
                changed: match outcome {
                    Ok(n) => n,
                    Err(_) => old(self)@.changed,
                },
                ..old(self)@
            }),
    {
        match outcome {
            Ok(n) => {
                self.last_n_change = n;
                Ok(n)
            },
            Err(e) => Err(e),
        }
    }

    /// The first row of a result, which must have one.
    pub fn query_row(rows: &mut Rows) -> (r: Result<Row, Error>)
        ensures
            match r {
                Ok(row) => old(rows)@.rows.len() > 0 && row@ == old(rows)@.rows[0],
                Err(e) => old(rows)@.rows.len() == 0 && e@ == ErrorModel::QueryReturnedNoRows,
            },
            final(rows)@.columns == old(rows)@.columns,
            final(rows)@.rows == if old(rows)@.rows.len() > 0 {
                old(rows)@.rows.skip(1)
            } else {
                old(rows)@.rows
            },
    {
        match rows.next() {
            Ok(Some(row)) => Ok(row),
            Ok(None) => Err(Error::QueryReturnedNoRows),
            Err(e) => Err(e),
        }
    }

    /// How many columns the result has.
    pub fn column_count(&self) -> (r: usize)
        ensures
            r == self@.columns.len(),
    {
        self.columns.len()
    }

    /// The name of a column.
    pub fn column_name(&self, idx: usize) -> (r: Result<String, Error>)
        ensures
            match r {
                Ok(s) => column::name_at(self@.columns, idx, "statement"@) == Ok::<
                    Seq<char>,
                    ErrorModel,
                >(s@),
                Err(e) => column::name_at(self@.columns, idx, "statement"@) == Err::<
                    Seq<char>,
                    ErrorModel,
                >(e@),
            },
    {
        find_name(&self.columns, idx, "statement")
    }

    /// The names of all columns.
    pub fn column_names(&self) -> (r: Vec<String>)
        ensures
            column::text_views(r@) == column::names(self@.columns),
    {
        names_of(&self.columns)
    }

    /// The first column with a name, whatever the case of its letters.
    pub fn column_index(&self, name: &str) -> (r: Result<usize, Error>)
        ensures
            match r {
                Ok(i) => column::index_from(self@.columns, name@, 0) == Some(i as nat),
                Err(e) => column::index_from(self@.columns, name@, 0) is None && e@
                    == ErrorModel::Misuse("no column named '"@ + name@ + "'"@),
            },
    {
        match find_index(&self.columns, name) {
            Some(i) => Ok(i),
            None => Err(Error::Misuse(join3("no column named '", name, "'"))),
        }
    }

    /// The columns.
    pub fn columns(&self) -> (r: Vec<Column>)
        ensures
            column::column_models(r@) == self@.columns,
    {
        copy_columns(&self.columns)
    }

    /// How many rows the last execution changed.
    pub fn n_change(&self) -> (r: u64)
        ensures
            r == self@.changed,
    {
        self.last_n_change
    }

    /// Does nothing: there is nothing to reset.
    pub fn reset(&self) -> (r: Result<(), Error>)
        ensures
            r is Ok,
    {
        Ok(())
    }
}

} // verus!
