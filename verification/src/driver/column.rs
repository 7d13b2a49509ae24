//! Columns of a result.

use vstd::prelude::*;
use vstd::string::StringExecFns;
use crate::driver::error::{Error, ErrorModel};
use crate::driver::protocol::ProtoCol;
use crate::scan;
use crate::text;
use crate::text::{chars_of, copy_optional, print_u64, same, string_of};

verus! {

/// A column of a result.
#[derive(Debug, PartialEq)]
pub struct Column {
    pub name: String,
    pub decl_type: Option<String>,
}

/// A column, by what it holds.
pub struct ColumnModel {
    pub name: Seq<char>,
    pub decl_type: Option<Seq<char>>,
}

impl View for Column {
    type V = ColumnModel;

    open spec fn view(&self) -> ColumnModel {
        ColumnModel { name: self.name@, decl_type: text::optional_text(self.decl_type) }
    }
}

impl Column {
    /// The name of the column.
    pub fn name(&self) -> (r: &str)
        ensures
            r@ == self@.name,
    {
        self.name.as_str()
    }

    /// The type that the column was declared with, when known.
    pub fn decl_type(&self) -> (r: Option<&str>)
        ensures
            match r {
                Some(s) => self@.decl_type == Some(s@),
                None => self@.decl_type is None,
            },
    {
        match &self.decl_type {
            Some(s) => Some(s.as_str()),
            None => None,
        }
    }

    /// A copy of the column.
    pub fn copy(&self) -> (r: Column)
        ensures
            r@ == self@,
    {
        Column { name: self.name.clone(), decl_type: copy_optional(&self.decl_type) }
    }
}

/// Columns, by what they hold.
pub open spec fn column_models(columns: Seq<Column>) -> Seq<ColumnModel> {
    columns.map_values(|c: Column| c@)
}

/// The names of columns.
pub open spec fn names(columns: Seq<ColumnModel>) -> Seq<Seq<char>> {
    columns.map_values(|c: ColumnModel| c.name)
}

/// Texts, by what they hold.
pub open spec fn text_views(texts: Seq<String>) -> Seq<Seq<char>> {
    texts.map_values(|s: String| s@)
}

/// Copies columns.
pub fn copy_columns(columns: &Vec<Column>) -> (r: Vec<Column>)
    ensures
        column_models(r@) == column_models(columns@),
{
    let mut r: Vec<Column> = Vec::new();
    let mut i: usize = 0;
    assert(column_models(r@) =~= column_models(columns@).take(0));
    while i < columns.len()
        invariant
            i <= columns@.len(),
            column_models(r@) == column_models(columns@).take(i as int),
        decreases columns@.len() - i,
    {
        let ghost before = r@;
        r.push(columns[i].copy());
        i = i + 1;
        assert(column_models(r@) =~= column_models(before).push(columns@[i - 1]@));
        assert(column_models(r@) =~= column_models(columns@).take(i as int));
    }
    assert(column_models(r@) =~= column_models(columns@));
    r
}

/// The names of columns.
pub fn names_of(columns: &Vec<Column>) -> (r: Vec<String>)
    ensures
        text_views(r@) == names(column_models(columns@)),
{
    let mut r: Vec<String> = Vec::new();
    let mut i: usize = 0;
    let ghost all = names(column_models(columns@));
    assert(text_views(r@) =~= all.take(0));
    while i < columns.len()
        invariant
            i <= columns@.len(),
            all == names(column_models(columns@)),
            text_views(r@) == all.take(i as int),
        decreases columns@.len() - i,
    {
        let ghost before = r@;
        r.push(columns[i].name().to_owned());
        i = i + 1;
        assert(text_views(r@) =~= text_views(before).push(all[i - 1]));
        assert(text_views(r@) =~= all.take(i as int));
    }
    assert(text_views(r@) =~= all);
    r
}

/// What is said of an index beyond the columns of `owner`.
pub open spec fn out_of_bounds(idx: usize, owner: Seq<char>, count: nat) -> ErrorModel {
    ErrorModel::Misuse(
        "column index "@ + text::decimal(idx as nat) + " out of bounds ("@ + owner + " has "@
            + text::decimal(count) + " columns)"@,
    )
}

pub(crate) fn bounds_error(idx: usize, owner: &str, count: usize) -> (r: Error)
    ensures
        r@ == out_of_bounds(idx, owner@, count as nat),
{
    let mut s = "column index ".to_owned();
    s.append(print_u64(idx as u64).as_str());
    s.append(" out of bounds (");
    s.append(owner);
    s.append(" has ");
    s.append(print_u64(count as u64).as_str());
    s.append(" columns)");
    Error::Misuse(s)
}

/// The name of a column of `owner` by its index.
pub open spec fn name_at(columns: Seq<ColumnModel>, idx: usize, owner: Seq<char>) -> Result<
    Seq<char>,
    ErrorModel,
> {
    if idx < columns.len() {
        Ok(columns[idx as int].name)
    } else {
        Err(out_of_bounds(idx, owner, columns.len()))
    }
}

pub(crate) fn find_name(columns: &Vec<Column>, idx: usize, owner: &str) -> (r: Result<
    String,
    Error,
>)
    ensures
        match r {
            Ok(s) => name_at(column_models(columns@), idx, owner@) == Ok::<Seq<char>, ErrorModel>(
                s@,
            ),
            Err(e) => name_at(column_models(columns@), idx, owner@) == Err::<Seq<char>, ErrorModel>(
                e@,
            ),
        },
{
    if idx < columns.len() {
        Ok(columns[idx].name().to_owned())
    } else {
        Err(bounds_error(idx, owner, columns.len()))
    }
}

/// Whether two names are the same but for the case of ASCII letters.
pub open spec fn same_name(a: Seq<char>, b: Seq<char>) -> bool {
    text::ascii_lower(a) == text::ascii_lower(b)
}

fn is_same_name(a: &str, b: &str) -> (r: bool)
    ensures
        r == same_name(a@, b@),
{
    let a = chars_of(a);
    let b = chars_of(b);
    assert(a@.skip(0) =~= a@);
    assert(b@.skip(0) =~= b@);
    same(
        string_of(scan::lower_ascii(&a, 0).as_slice()).as_str(),
        string_of(scan::lower_ascii(&b, 0).as_slice()).as_str(),
    )
}

/// The first column from `from` on that has a name.
pub open spec fn index_from(columns: Seq<ColumnModel>, name: Seq<char>, from: nat) -> Option<nat>
    decreases columns.len() - from,
{
    if from >= columns.len() {
        None
    } else if same_name(columns[from as int].name, name) {
        Some(from)
    } else {
        index_from(columns, name, from + 1)
    }
}

pub(crate) fn find_index(columns: &Vec<Column>, name: &str) -> (r: Option<usize>)
    ensures
        match r {
            Some(i) => index_from(column_models(columns@), name@, 0) == Some(i as nat),
            None => index_from(column_models(columns@), name@, 0) is None,
        },
{
    let mut i: usize = 0;
    while i < columns.len()
        invariant
            i <= columns@.len(),
            index_from(column_models(columns@), name@, 0) == index_from(
                column_models(columns@),
                name@,
                i as nat,
            ),
        decreases columns@.len() - i,
    {
        if is_same_name(columns[i].name(), name) {
            return Some(i);
        }
        i = i + 1;
    }
    None
}

/// A column as it is described, by what it holds: a name that is missing is
/// empty.
pub open spec fn described_column(col: ProtoCol) -> ColumnModel {
    ColumnModel {
        name: match col.name {
            Some(s) => s@,
            None => Seq::empty(),
        },
        decl_type: text::optional_text(col.decltype),
    }
}

pub open spec fn described_columns(cols: Seq<ProtoCol>) -> Seq<ColumnModel> {
    cols.map_values(|c: ProtoCol| described_column(c))
}

/// The columns that a description gives.
pub fn columns_of(cols: &Vec<ProtoCol>) -> (r: Vec<Column>)
    ensures
        column_models(r@) == described_columns(cols@),
{
    let mut r: Vec<Column> = Vec::new();
    let mut i: usize = 0;
    assert(column_models(r@) =~= described_columns(cols@).take(0));
    while i < cols.len()
        invariant
            i <= cols@.len(),
            column_models(r@) == described_columns(cols@).take(i as int),
        decreases cols@.len() - i,
    {
        let name = match &cols[i].name {
            Some(s) => s.clone(),
            None => String::new(),
        };
        let ghost before = r@;
        r.push(Column { name, decl_type: copy_optional(&cols[i].decltype) });
        i = i + 1;
        assert(r@.last()@.name =~= described_column(cols@[i - 1]).name);
        assert(column_models(r@) =~= column_models(before).push(described_column(cols@[i - 1])));
        assert(column_models(r@) =~= described_columns(cols@).take(i as int));
    }
    assert(column_models(r@) =~= described_columns(cols@));
    r
}

} // verus!
