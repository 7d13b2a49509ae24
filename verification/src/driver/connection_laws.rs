//! What a connection sends and makes of the answers.

use vstd::prelude::*;
use crate::driver::column;
use crate::driver::column::ColumnModel;
use crate::driver::connection;
use crate::driver::connection::Cleanup;
use crate::driver::error::ErrorModel;
use crate::driver::params::ParamsModel;
use crate::driver::protocol;
use crate::driver::protocol::{StmtModel, StreamResponse, StreamResult};
use crate::driver::transaction;
use crate::driver::transaction::{DropBehavior, Server, TransactionEnd};
use crate::scan;
use crate::text;
use crate::value::ValueModel;

verus! {

/// Whether a value cannot be sent.
pub open spec fn refused(value: ValueModel) -> bool {
    value matches ValueModel::Real(r) && r.infinite() && !r.nan()
}

/// Values are sent one for one, in their order: the server reads each back as it
/// was, but for numbers that are none, which it reads as NULL. Nothing is sent
/// where one of them is infinite.
pub proof fn values_are_sent_in_order(values: Seq<ValueModel>, n: nat)
    requires
        n <= values.len(),
    ensures
        match connection::encodings(values, n) {
            Ok(sent) => sent.len() == n && forall|i: int|
                0 <= i < n ==> !refused(#[trigger] values[i]) && protocol::decoding(sent[i]) == Ok::<
                    ValueModel,
                    ErrorModel,
                >(received(values[i])),
            Err(_) => exists|i: int| 0 <= i < n && refused(#[trigger] values[i]),
        },
    decreases n,
{
    if n > 0 {
        let k = (n - 1) as nat;
        values_are_sent_in_order(values, k);
        let last = values[k as int];
        if !(last matches ValueModel::Real(r) && r.infinite()) {
            protocol::value_round_trip(last);
        }
        match connection::encodings(values, n) {
            Ok(sent) => {
                let before = connection::encodings(values, k)->Ok_0;
                assert forall|i: int| 0 <= i < n implies !refused(#[trigger] values[i])
                    && protocol::decoding(sent[i]) == Ok::<ValueModel, ErrorModel>(
                    received(values[i]),
                ) by {
                    if i < k {
                        assert(sent[i] == before[i]);
                    }
                }
            },
            Err(_) => {
                if connection::encodings(values, k) is Ok {
                    assert(refused(values[k as int]));
                }
            },
        }
    }
}

/// What the server reads of a value that was sent.
pub open spec fn received(value: ValueModel) -> ValueModel {
    if value matches ValueModel::Real(r) && r.nan() {
        ValueModel::Null
    } else {
        value
    }
}

/// Named values are sent under their names, in their order.
pub proof fn named_values_are_sent_under_their_names(
    values: Seq<(Seq<char>, ValueModel)>,
    n: nat,
)
    requires
        n <= values.len(),
    ensures
        match connection::named_encodings(values, n) {
            Ok(sent) => sent.len() == n && forall|i: int|
                0 <= i < n ==> !refused((#[trigger] values[i]).1) && sent[i].0 == values[i].0
                    && protocol::decoding(sent[i].1) == Ok::<ValueModel, ErrorModel>(
                    received(values[i].1),
                ),
            Err(_) => exists|i: int| 0 <= i < n && refused((#[trigger] values[i]).1),
        },
    decreases n,
{
    if n > 0 {
        let k = (n - 1) as nat;
        named_values_are_sent_under_their_names(values, k);
        let last = values[k as int].1;
        if !(last matches ValueModel::Real(r) && r.infinite()) {
            protocol::value_round_trip(last);
        }
        match connection::named_encodings(values, n) {
            Ok(sent) => {
                let before = connection::named_encodings(values, k)->Ok_0;
                assert forall|i: int| 0 <= i < n implies !refused((#[trigger] values[i]).1)
                    && sent[i].0 == values[i].0 && protocol::decoding(sent[i].1) == Ok::<
                    ValueModel,
                    ErrorModel,
                >(received(values[i].1)) by {
                    if i < k {
                        assert(sent[i] == before[i]);
                    }
                }
            },
            Err(_) => {
                if connection::named_encodings(values, k) is Ok {
                    assert(refused(values[k as int].1));
                }
            },
        }
    }
}

/// A statement is sent as it is written, and says whether rows are wanted. Values
/// go by position or by name, never by both, and none goes without being given.
pub proof fn statements_are_sent_as_written(
    sql: Seq<char>,
    params: ParamsModel,
    want_rows: bool,
    sent: StmtModel,
)
    requires
        connection::statement(sql, params, want_rows) == Ok::<StmtModel, ErrorModel>(sent),
    ensures
        sent.sql == Some(sql),
        sent.want_rows == want_rows,
        match params {
            ParamsModel::Empty => sent.args.len() == 0 && sent.named_args.len() == 0,
            ParamsModel::Positional(values) => sent.args.len() == values.len()
                && sent.named_args.len() == 0 && forall|i: int|
                0 <= i < values.len() ==> protocol::decoding(sent.args[i]) == Ok::<
                    ValueModel,
                    ErrorModel,
                >(received(#[trigger] values[i])),
            ParamsModel::Named(values) => sent.args.len() == 0 && sent.named_args.len()
                == values.len() && forall|i: int|
                0 <= i < values.len() ==> sent.named_args[i].0 == (#[trigger] values[i]).0
                    && protocol::decoding(sent.named_args[i].1) == Ok::<ValueModel, ErrorModel>(
                    received(values[i].1),
                ),
        },
{
    match params {
        ParamsModel::Empty => {},
        ParamsModel::Positional(values) => {
            values_are_sent_in_order(values, values.len());
        },
        ParamsModel::Named(values) => {
            named_values_are_sent_under_their_names(values, values.len());
        },
    }
}

/// The count of changed rows and the number of the row that was inserted are what
/// the server printed.
pub proof fn executions_report_what_the_server_says(answer: StreamResult, n: i64)
    requires
        answer matches StreamResult::Answer { response: StreamResponse::Execute { result } } && (
        result.last_insert_rowid matches Some(s) ==> s@ == text::signed_decimal(n as int)),
    ensures
        ({
            let result = answer->response->Execute_result;
            connection::execution(Some(answer)) == Ok::<(u64, Option<i64>), ErrorModel>(
                (
                    result.affected_row_count,
                    if result.last_insert_rowid is Some {
                        Some(n)
                    } else {
                        None
                    },
                ),
            )
        }),
{
    scan::printed_integer_reads_back(n);
}

/// An error of the server is handed on as such, whatever was asked. An answer is
/// never taken for one to another question, and no answer is an error too.
pub proof fn errors_are_handed_on(answer: StreamResult, missing: Seq<char>)
    ensures
        answer matches StreamResult::Error { error } ==> {
            &&& connection::execution(Some(answer)) == Err::<(u64, Option<i64>), ErrorModel>(
                ErrorModel::Server(error@),
            )
            &&& connection::sequence(Some(answer), missing) == Err::<(), ErrorModel>(
                ErrorModel::Server(error@),
            )
            &&& connection::description(Some(answer)) == Err::<Seq<ColumnModel>, ErrorModel>(
                ErrorModel::Server(error@),
            )
        },
        answer is Answer ==> {
            &&& connection::sequence(Some(answer), missing) is Ok
            &&& connection::execution(Some(answer)) is Ok ==> answer->response is Execute
            &&& connection::description(Some(answer)) is Ok <==> answer->response is Describe
        },
        connection::execution(None) matches Err(ErrorModel::Http(_)),
        connection::sequence(None, missing) == Err::<(), ErrorModel>(ErrorModel::Http(missing)),
        connection::description(None) matches Err(ErrorModel::Http(_)),
{
}

/// The server behind the cleanup of a connection: a statement that ends the
/// transaction is executed where the cleanup says so.
pub open spec fn cleaned<T>(action: Cleanup, s: Server<T>) -> Server<T> {
    match action {
        Cleanup::Run(end) => transaction::serve(transaction::end_statement(end), s),
        _ => s,
    }
}

/// Before a connection is used again, a transaction that was dropped is ended as
/// it was to be: its changes are stored where it was to be committed, and gone
/// where it was to be rolled back. Where none is open, nothing is done, and nothing
/// is done twice.
pub proof fn dropped_transactions_are_cleaned_up<T>(
    dangling: DropBehavior,
    autocommit: bool,
    s: Server<T>,
)
    requires
        s.open == !autocommit,
    ensures
        ({
            let (action, rest) = connection::cleanup(dangling, autocommit);
            let t = cleaned(action, s);
            &&& s.open && dangling == DropBehavior::Commit ==> t.stored == s.working && !t.open
            &&& s.open && dangling == DropBehavior::Rollback ==> t.stored == s.stored && t.working
                == s.stored && !t.open
            &&& !s.open || dangling == DropBehavior::Ignore || dangling == DropBehavior::Panic ==> t
                == s
            &&& action == Cleanup::Panic <==> dangling == DropBehavior::Panic
            &&& rest == DropBehavior::Ignore || (rest == DropBehavior::Panic && dangling
                == DropBehavior::Panic)
        }),
{
    reveal_strlit("COMMIT");
    reveal_strlit("ROLLBACK");
    assert(transaction::end_statement(TransactionEnd::Commit) =~= seq![
        'C',
        'O',
        'M',
        'M',
        'I',
        'T',
    ]);
    let back = transaction::end_statement(TransactionEnd::Rollback);
    assert(back =~= seq!['R', 'O', 'L', 'L', 'B', 'A', 'C', 'K']);
    assert(back.len() == 8);
}

proof fn found_first(columns: Seq<ColumnModel>, name: Seq<char>, from: nat)
    requires
        from <= columns.len(),
    ensures
        match column::index_from(columns, name, from) {
            Some(i) => from <= i < columns.len() && column::same_name(
                columns[i as int].name,
                name,
            ) && forall|j: int|
                from <= j < i ==> !column::same_name((#[trigger] columns[j]).name, name),
            None => forall|j: int|
                from <= j < columns.len() ==> !column::same_name(
                    (#[trigger] columns[j]).name,
                    name,
                ),
        },
    decreases columns.len() - from,
{
    if from < columns.len() && !column::same_name(columns[from as int].name, name) {
        found_first(columns, name, from + 1);
    }
}

/// A column is found by its name in any case: the first that has it, and none
/// where none has.
pub proof fn columns_are_found_by_name(columns: Seq<ColumnModel>, name: Seq<char>)
    ensures
        match column::index_from(columns, name, 0) {
            Some(i) => i < columns.len() && text::ascii_lower(columns[i as int].name)
                == text::ascii_lower(name) && forall|j: int|
                0 <= j < i ==> text::ascii_lower((#[trigger] columns[j]).name)
                    != text::ascii_lower(name),
            None => forall|j: int|
                0 <= j < columns.len() ==> text::ascii_lower((#[trigger] columns[j]).name)
                    != text::ascii_lower(name),
        },
        column::index_from(columns, text::ascii_lower(name), 0) == column::index_from(
            columns,
            name,
            0,
        ),
{
    found_first(columns, name, 0);
    found_first(columns, text::ascii_lower(name), 0);
    assert(text::ascii_lower(text::ascii_lower(name)) =~= text::ascii_lower(name)) by {
        assert forall|i: int| 0 <= i < name.len() implies text::ascii_lower_char(
            text::ascii_lower_char(#[trigger] name[i]),
        ) == text::ascii_lower_char(name[i]) by {}
    }
}

} // verus!
