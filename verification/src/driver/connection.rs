//! A connection, as far as it is kept on this side: what is sent on it, what the
//! answers mean, and what is left to be done on it.

use vstd::prelude::*;
use crate::driver::column;
use crate::driver::column::{columns_of, copy_columns, Column, ColumnModel};
use crate::driver::error::{Error, ErrorModel};
use crate::driver::params::{Params, ParamsModel};
use crate::driver::protocol;
use crate::driver::protocol::{
    encode_value, parse_rowid, NamedArg, ProtoModel, ProtoValue, Stmt, StmtModel, StreamResponse,
    StreamResult,
};
use crate::driver::statement::{Statement, StatementModel};
use crate::driver::transaction;
use crate::driver::transaction::{DropBehavior, TransactionBehavior, TransactionEnd};
use crate::names::Named;
use crate::text;
use crate::text::join2;
use crate::value::{Value, ValueModel};
use vstd::string::StringExecFns;

verus! {

/// A connection to a remote database.
pub struct Connection {
    url: String,
    auth_token: Option<String>,
    transaction_behavior: TransactionBehavior,
    dangling_tx: u8,
    autocommit: bool,
    last_insert_rowid: i64,
    cached_statements: Named<Vec<Column>>,
}

/// A connection, by what it holds.
#[verifier::ext_equal]
pub struct ConnectionModel {
    pub url: Seq<char>,
    pub auth_token: Option<Seq<char>>,
    pub transaction_behavior: TransactionBehavior,
    /// What is to be done with a transaction that was dropped.
    pub dangling: DropBehavior,
    /// Whether no transaction is open, by the server's last answer.
    pub autocommit: bool,
    pub last_insert_rowid: i64,
    /// The columns of statements that were described, by their texts.
    pub cached: Map<Seq<char>, Seq<ColumnModel>>,
}

/// The columns that are remembered for texts, by what they hold.
pub open spec fn cache_map(cached: Map<Seq<char>, Vec<Column>>) -> Map<
    Seq<char>,
    Seq<ColumnModel>,
> {
    cached.map_values(|columns: Vec<Column>| column::column_models(columns@))
}

/// What is to be done before the next statement.
#[derive(Clone, Copy, Debug, PartialEq, Eq, Structural)]
pub enum Cleanup {
    Nothing,
    /// Execute a statement that ends a transaction.
    Run(TransactionEnd),
    /// Panic.
    Panic,
}

/// What is to be done with a transaction that was dropped, and what is left to
/// be done behind that. Where no transaction is open any more there is nothing
/// to do.
pub open spec fn cleanup(dangling: DropBehavior, autocommit: bool) -> (Cleanup, DropBehavior) {
    match dangling {
        DropBehavior::Ignore => (Cleanup::Nothing, DropBehavior::Ignore),
        DropBehavior::Panic => (Cleanup::Panic, DropBehavior::Panic),
        DropBehavior::Rollback => if autocommit {
            (Cleanup::Nothing, DropBehavior::Ignore)
        } else {
            (Cleanup::Run(TransactionEnd::Rollback), DropBehavior::Ignore)
        },
        DropBehavior::Commit => if autocommit {
            (Cleanup::Nothing, DropBehavior::Ignore)
        } else {
            (Cleanup::Run(TransactionEnd::Commit), DropBehavior::Ignore)
        },
    }
}

/// The first of the answers to a pipeline.
pub open spec fn first(results: Seq<StreamResult>) -> Option<StreamResult> {
    if results.len() > 0 {
        Some(results[0])
    } else {
        None
    }
}

/// What an answer to an execution comes to: the rows that changed, and the
/// number of the row that was inserted, if the answer gives one.
pub open spec fn execution(answer: Option<StreamResult>) -> Result<(u64, Option<i64>), ErrorModel> {
    match answer {
        Some(StreamResult::Answer { response: StreamResponse::Execute { result } }) => {
            match result.last_insert_rowid {
                Some(s) => match protocol::rowid_text(s@) {
                    Ok(n) => Ok((result.affected_row_count, Some(n))),
                    Err(e) => Err(e),
                },
                None => Ok((result.affected_row_count, None)),
            }
        },
        Some(StreamResult::Error { error }) => Err(ErrorModel::Server(error@)),
        _ => Err(ErrorModel::Http("missing execute result in pipeline response"@)),
    }
}

/// What an answer to a sequence of statements comes to: any answer but an error
/// is success.
pub open spec fn sequence(answer: Option<StreamResult>, missing: Seq<char>) -> Result<
    (),
    ErrorModel,
> {
    match answer {
        Some(StreamResult::Answer { .. }) => Ok(()),
        Some(StreamResult::Error { error }) => Err(ErrorModel::Server(error@)),
        None => Err(ErrorModel::Http(missing)),
    }
}

/// What an answer to a request for a description comes to: the columns.
pub open spec fn description(answer: Option<StreamResult>) -> Result<
    Seq<ColumnModel>,
    ErrorModel,
> {
    match answer {
        Some(StreamResult::Answer { response: StreamResponse::Describe { result } }) => Ok(
            column::described_columns(result.cols@),
        ),
        Some(StreamResult::Error { error }) => Err(ErrorModel::Server(error@)),
        _ => Err(ErrorModel::Http("missing describe result in pipeline response"@)),
    }
}

/// Values as they are sent, up to the first that cannot be.
pub open spec fn encodings(values: Seq<ValueModel>, n: nat) -> Result<Seq<ProtoModel>, ErrorModel>
    decreases n,
{
    if n == 0 {
        Ok(Seq::empty())
    } else {
        match encodings(values, (n - 1) as nat) {
            Err(e) => Err(e),
            Ok(sent) => match protocol::encoding(values[n - 1]) {
                Err(e) => Err(e),
                Ok(p) => Ok(sent.push(p)),
            },
        }
    }
}

/// Named values as they are sent, up to the first that cannot be.
pub open spec fn named_encodings(values: Seq<(Seq<char>, ValueModel)>, n: nat) -> Result<
    Seq<(Seq<char>, ProtoModel)>,
    ErrorModel,
>
    decreases n,
{
    if n == 0 {
        Ok(Seq::empty())
    } else {
        match named_encodings(values, (n - 1) as nat) {
            Err(e) => Err(e),
            Ok(sent) => match protocol::encoding(values[n - 1].1) {
                Err(e) => Err(e),
                Ok(p) => Ok(sent.push((values[n - 1].0, p))),
            },
        }
    }
}

/// A statement with its parameters, or why it cannot be sent.
pub open spec fn statement(sql: Seq<char>, params: ParamsModel, want_rows: bool) -> Result<
    StmtModel,
    ErrorModel,
> {
    let bare = protocol::bare_stmt(sql, want_rows);
    match params {
        ParamsModel::Empty => Ok(bare),
        ParamsModel::Positional(values) => match encodings(values, values.len()) {
            Ok(args) => Ok(StmtModel { args, ..bare }),
            Err(e) => Err(e),
        },
        ParamsModel::Named(values) => match named_encodings(values, values.len()) {
            Ok(named_args) => Ok(StmtModel { named_args, ..bare }),
            Err(e) => Err(e),
        },
    }
}

/// Whether all values among parameters can be counted.
pub open spec fn params_sendable(params: ParamsModel) -> bool {
    match params {
        ParamsModel::Empty => true,
        ParamsModel::Positional(values) => forall|i: int|
            0 <= i < values.len() ==> protocol::sendable(#[trigger] values[i]),
        ParamsModel::Named(values) => forall|i: int|
            0 <= i < values.len() ==> protocol::sendable((#[trigger] values[i]).1),
    }
}

fn take_first(results: Vec<StreamResult>) -> (r: Option<StreamResult>)
    ensures
        r == first(results@),
{
    let mut results = results;
    if results.len() > 0 {
        Some(results.remove(0))
    } else {
        None
    }
}

impl View for Connection {
    type V = ConnectionModel;

    closed spec fn view(&self) -> ConnectionModel {
        ConnectionModel {
            url: self.url@,
            auth_token: text::optional_text(self.auth_token),
            transaction_behavior: self.transaction_behavior,
            dangling: DropBehavior::of_code(self.dangling_tx),
            autocommit: self.autocommit,
            last_insert_rowid: self.last_insert_rowid,
            cached: cache_map(self.cached_statements@),
        }
    }
}

impl Connection {
    /// Whether what is left to be done is noted by a number that stands for it.
    pub closed spec fn valid(self) -> bool {
        self.dangling_tx <= 3
    }

    /// A connection on which nothing was sent yet.
    pub fn new(url: &str, auth_token: Option<String>) -> (r: Connection)
        ensures
            r.valid(),
            r@ == (ConnectionModel {
                url: url@,
                auth_token: text::optional_text(auth_token),
                transaction_behavior: TransactionBehavior::Deferred,
                dangling: DropBehavior::Ignore,
                autocommit: true,
                last_insert_rowid: 0,
                cached: Map::empty(),
            }),
    {
        let r = Connection {
            url: url.to_owned(),
            auth_token,
            transaction_behavior: TransactionBehavior::Deferred,
            dangling_tx: u8::from(DropBehavior::Ignore),
            autocommit: true,
            last_insert_rowid: 0,
            cached_statements: Named::new(),
        };
        assert(r@.cached =~= Map::empty());
        r
    }

    /// Where the database is.
    pub fn url(&self) -> (r: &str)
        ensures
            r@ == self@.url,
    {
        self.url.as_str()
    }

    /// The statement that begins a transaction with the connection's behavior.
    pub fn begin_sql(&self) -> (r: &'static str)
        ensures
            r@ == transaction::begin_statement(self@.transaction_behavior),
    {
        self.transaction_behavior.begin_sql()
    }

    /// Sets how transactions begin.
    pub fn set_transaction_behavior(&mut self, behavior: TransactionBehavior)
        requires
            old(self).valid(),
        ensures
            final(self).valid(),
            final(self)@ == (ConnectionModel { transaction_behavior: behavior, ..old(self)@ }),
    {
        self.transaction_behavior = behavior;
    }

    /// The number of the row that was inserted last.
    pub fn last_insert_rowid(&self) -> (r: i64)
        ensures
            r == self@.last_insert_rowid,
    {
        self.last_insert_rowid
    }

    /// Whether no transaction is open, by the server's last answer.
    pub fn is_autocommit(&self) -> (r: Result<bool, Error>)
        ensures
            r == Ok::<bool, Error>(self@.autocommit),
    {
        Ok(self.autocommit)
    }

    /// Takes note of what the server says of whether a transaction is open.
    pub fn set_autocommit(&mut self, autocommit: bool)
        requires
            old(self).valid(),
        ensures
            final(self).valid(),
            final(self)@ == (ConnectionModel { autocommit, ..old(self)@ }),
    {
        self.autocommit = autocommit;
    }

    /// Takes note of what is to be done with a transaction that was dropped.
    pub fn set_dangling_tx(&mut self, behavior: DropBehavior)
        requires
            old(self).valid(),
        ensures
            final(self).valid(),
            final(self)@ == (ConnectionModel { dangling: behavior, ..old(self)@ }),
    {
        self.dangling_tx = u8::from(behavior);
    }

    /// What is to be done before the next statement, so that it does not become
    /// part of a transaction that was dropped.
    pub fn take_dangling_tx(&mut self) -> (r: Cleanup)
        requires
            old(self).valid(),
        ensures
            final(self).valid(),
            r == cleanup(old(self)@.dangling, old(self)@.autocommit).0,
            final(self)@ == (ConnectionModel {
                dangling: cleanup(old(self)@.dangling, old(self)@.autocommit).1,
                ..old(self)@
            }),
    {
        let behavior = DropBehavior::from_code(self.dangling_tx);
        let end = match behavior {
            DropBehavior::Ignore => return Cleanup::Nothing,
            DropBehavior::Panic => return Cleanup::Panic,
            DropBehavior::Rollback => TransactionEnd::Rollback,
            DropBehavior::Commit => TransactionEnd::Commit,
        };
        self.set_dangling_tx(DropBehavior::Ignore);
        if self.autocommit {
            Cleanup::Nothing
        } else {
            Cleanup::Run(end)
        }
    }

    /// What came of the statement that ended a dropped transaction. That a
    /// rollback failed does not matter: if the stream is gone, the server has
    /// rolled back. That a commit failed does.
    pub fn finish_dangling_tx(end: TransactionEnd, outcome: Result<Vec<StreamResult>, Error>) -> (r:
        Result<(), Error>)
        ensures
            match (end, outcome) {
                (TransactionEnd::Rollback, _) => r is Ok,
                (TransactionEnd::Commit, Err(e)) => r == Err::<(), Error>(e),
                (TransactionEnd::Commit, Ok(results)) => match r {
                    Ok(_) => sequence(
                        first(results@),
                        "missing execute result in pipeline response"@,
                    ) is Ok,
                    Err(e) => sequence(
                        first(results@),
                        "missing execute result in pipeline response"@,
                    ) == Err::<(), ErrorModel>(e@),
                },
            },
    {
        match end {
            TransactionEnd::Rollback => Ok(()),
            TransactionEnd::Commit => match outcome {
                Err(e) => Err(e),
                Ok(results) => match take_first(results) {
                    Some(StreamResult::Answer { .. }) => Ok(()),
                    Some(StreamResult::Error { error }) => Err(Error::Server(error)),
                    None => Err(
                        Error::Http("missing execute result in pipeline response".to_owned()),
                    ),
                },
            },
        }
    }

    fn encode_positional(values: &Vec<Value>) -> (r: Result<Vec<ProtoValue>, Error>)
        requires
            forall|i: int| 0 <= i < values@.len() ==> protocol::sendable(#[trigger] values@[i]@),
        ensures
            ({
                let sent = encodings(crate::value::models(values@), values@.len());
                match r {
                    Ok(args) => sent == Ok::<Seq<ProtoModel>, ErrorModel>(
                        args@.map_values(|v: ProtoValue| v@),
                    ),
                    Err(e) => sent == Err::<Seq<ProtoModel>, ErrorModel>(e@),
                }
            }),
    {
        let mut args: Vec<ProtoValue> = Vec::new();
        let mut i: usize = 0;
        let ghost all = crate::value::models(values@);
        assert(args@.map_values(|v: ProtoValue| v@) =~= Seq::empty());
        while i < values.len()
            invariant
                i <= values@.len(),
                all == crate::value::models(values@),
                forall|j: int| 0 <= j < values@.len() ==> protocol::sendable(#[trigger] values@[j]@),
                encodings(all, i as nat) == Ok::<Seq<ProtoModel>, ErrorModel>(
                    args@.map_values(|v: ProtoValue| v@),
                ),
            decreases values@.len() - i,
        {
            assert(all[i as int] == values@[i as int]@);
            match encode_value(&values[i]) {
                Ok(p) => {
                    let ghost before = args@;
                    args.push(p);
                    assert(args@.map_values(|v: ProtoValue| v@) =~= before.map_values(
                        |v: ProtoValue| v@,
                    ).push(p@));
                },
                Err(e) => {
                    proof {
                        failing_stays(all, i as nat + 1, values@.len());
                    }
                    return Err(e);
                },
            }
            i = i + 1;
        }
        Ok(args)
    }

    fn encode_named(values: &Vec<(String, Value)>) -> (r: Result<Vec<NamedArg>, Error>)
        requires
            forall|i: int| 0 <= i < values@.len() ==> protocol::sendable((#[trigger] values@[i]).1@),
        ensures
            ({
                let sent = named_encodings(
                    crate::driver::params::named_models(values@),
                    values@.len(),
                );
                match r {
                    Ok(args) => sent == Ok::<Seq<(Seq<char>, ProtoModel)>, ErrorModel>(
                        args@.map_values(|a: NamedArg| (a.name@, a.value@)),
                    ),
                    Err(e) => sent == Err::<Seq<(Seq<char>, ProtoModel)>, ErrorModel>(e@),
                }
            }),
    {
        let mut args: Vec<NamedArg> = Vec::new();
        let mut i: usize = 0;
        let ghost all = crate::driver::params::named_models(values@);
        assert(args@.map_values(|a: NamedArg| (a.name@, a.value@)) =~= Seq::empty());
        while i < values.len()
            invariant
                i <= values@.len(),
                all == crate::driver::params::named_models(values@),
                forall|j: int|
                    0 <= j < values@.len() ==> protocol::sendable((#[trigger] values@[j]).1@),
                named_encodings(all, i as nat) == Ok::<Seq<(Seq<char>, ProtoModel)>, ErrorModel>(
                    args@.map_values(|a: NamedArg| (a.name@, a.value@)),
                ),
            decreases values@.len() - i,
        {
            assert(all[i as int] == (values@[i as int].0@, values@[i as int].1@));
            match encode_value(&values[i].1) {
                Ok(p) => {
                    let ghost before = args@;
                    let arg = NamedArg { name: values[i].0.clone(), value: p };
                    args.push(arg);
                    assert(args@.map_values(|a: NamedArg| (a.name@, a.value@))
                        =~= before.map_values(|a: NamedArg| (a.name@, a.value@)).push(
                        (values@[i as int].0@, p@),
                    ));
                },
                Err(e) => {
                    proof {
                        named_failing_stays(all, i as nat + 1, values@.len());
                    }
                    return Err(e);
                },
            }
            i = i + 1;
        }
        Ok(args)
    }

    /// A statement with its parameters.
    pub fn build_stmt(sql: &str, params: &Params, want_rows: bool) -> (r: Result<Stmt, Error>)
        requires
            params_sendable(params@),
        ensures
            match r {
                Ok(stmt) => statement(sql@, params@, want_rows) == Ok::<StmtModel, ErrorModel>(
                    stmt@,
                ),
                Err(e) => statement(sql@, params@, want_rows) == Err::<StmtModel, ErrorModel>(e@),
            },
    {
        let mut stmt = Stmt::new(sql, want_rows);
        match params {
            Params::Empty => {},
            Params::Positional(values) => {
                assert forall|i: int| 0 <= i < values@.len() implies protocol::sendable(
                    #[trigger] values@[i]@,
                ) by {
                    assert(crate::value::models(values@)[i] == values@[i]@);
                }
                match Self::encode_positional(values) {
                    Ok(args) => {
                        stmt.args = args;
                    },
                    Err(e) => return Err(e),
                }
            },
            Params::Named(values) => {
                assert forall|i: int| 0 <= i < values@.len() implies protocol::sendable(
                    (#[trigger] values@[i]).1@,
                ) by {
                    assert(crate::driver::params::named_models(values@)[i] == (
                        values@[i].0@,
                        values@[i].1@,
                    ));
                }
                match Self::encode_named(values) {
                    Ok(args) => {
                        stmt.named_args = args;
                    },
                    Err(e) => return Err(e),
                }
            },
        }
        Ok(stmt)
    }

    /// What came of an execution: how many rows it changed. The number of the
    /// row that it inserted is kept.
    pub fn finish_execute(&mut self, results: Vec<StreamResult>) -> (r: Result<u64, Error>)
        requires
            old(self).valid(),
        ensures
            final(self).valid(),
            match r {
                Ok(n) => execution(first(results@)) matches Ok(done) && done.0 == n,
                Err(e) => execution(first(results@)) == Err::<(u64, Option<i64>), ErrorModel>(e@),
            },
            final(self)@ == match execution(first(results@)) {
                Ok((_, Some(rowid))) => ConnectionModel {
                    last_insert_rowid: rowid,
                    ..old(self)@
                },
                _ => old(self)@,
            },
    {
        match take_first(results) {
            Some(StreamResult::Answer { response: StreamResponse::Execute { result } }) => {
                if let Some(rowid) = &result.last_insert_rowid {
                    match parse_rowid(rowid.as_str()) {
                        Ok(n) => {
                            self.last_insert_rowid = n;
                        },
                        Err(e) => return Err(e),
                    }
                }
                Ok(result.affected_row_count)
            },
            Some(StreamResult::Error { error }) => Err(Error::Server(error)),
            _ => Err(Error::Http("missing execute result in pipeline response".to_owned())),
        }
    }

    /// What came of a sequence of statements.
    pub fn finish_batch(results: Vec<StreamResult>) -> (r: Result<(), Error>)
        ensures
            match r {
                Ok(_) => sequence(
                    first(results@),
                    "missing sequence result in pipeline response"@,
                ) is Ok,
                Err(e) => sequence(
                    first(results@),
                    "missing sequence result in pipeline response"@,
                ) == Err::<(), ErrorModel>(e@),
            },
    {
        match take_first(results) {
            Some(StreamResult::Answer { .. }) => Ok(()),
            Some(StreamResult::Error { error }) => Err(Error::Server(error)),
            None => Err(Error::Http("missing sequence result in pipeline response".to_owned())),
        }
    }

    /// The statement that an answer describes.
    pub fn finish_prepare(sql: &str, results: Vec<StreamResult>) -> (r: Result<Statement, Error>)
        ensures
            match r {
                Ok(stmt) => description(first(results@)) matches Ok(columns) && stmt@ == (
                StatementModel { sql: sql@, columns, changed: 0 }),
                Err(e) => description(first(results@)) == Err::<Seq<ColumnModel>, ErrorModel>(e@),
            },
    {
        match take_first(results) {
            Some(StreamResult::Answer { response: StreamResponse::Describe { result } }) => Ok(
                Statement::new(sql.to_owned(), columns_of(&result.cols)),
            ),
            Some(StreamResult::Error { error }) => Err(Error::Server(error)),
            _ => Err(Error::Http("missing describe result in pipeline response".to_owned())),
        }
    }

    /// A statement that was described before.
    pub fn cached_statement(&self, sql: &str) -> (r: Option<Statement>)
        ensures
            match r {
                Some(stmt) => self@.cached.contains_key(sql@) && stmt@ == (StatementModel {
                    sql: sql@,
                    columns: self@.cached[sql@],
                    changed: 0,
                }),
                None => !self@.cached.contains_key(sql@),
            },
    {
        match self.cached_statements.get(sql) {
            Some(columns) => Some(Statement::new(sql.to_owned(), copy_columns(columns))),
            None => None,
        }
    }

    /// Remembers the columns of a statement.
    pub fn cache_statement(&mut self, sql: &str, stmt: &Statement)
        requires
            old(self).valid(),
        ensures
            final(self).valid(),
            final(self)@ == (ConnectionModel {
                cached: old(self)@.cached.insert(sql@, stmt@.columns),
                ..old(self)@
            }),
    {
        self.cached_statements.insert(sql.to_owned(), stmt.columns());
        assert(self@.cached =~= old(self)@.cached.insert(sql@, stmt@.columns));
    }

    /// The statement that asks for a pragma.
    pub fn pragma_query_sql(pragma_name: &str) -> (r: String)
        ensures
            r@ == "PRAGMA "@ + pragma_name@,
    {
        join2("PRAGMA ", pragma_name)
    }

    /// The statement that sets a pragma to what a value prints as.
    pub fn pragma_update_sql(pragma_name: &str, pragma_value: &str) -> (r: String)
        ensures
            r@ == "PRAGMA "@ + pragma_name@ + " = "@ + pragma_value@,
    {
        let mut r = join2("PRAGMA ", pragma_name);
        r.append(" = ");
        r.append(pragma_value);
        r
    }
}

proof fn failing_stays(values: Seq<ValueModel>, m: nat, n: nat)
    requires
        m <= n,
        encodings(values, m) is Err,
    ensures
        encodings(values, n) == encodings(values, m),
    decreases n - m,
{
    if m < n {
        failing_stays(values, m, (n - 1) as nat);
    }
}

proof fn named_failing_stays(values: Seq<(Seq<char>, ValueModel)>, m: nat, n: nat)
    requires
        m <= n,
        named_encodings(values, m) is Err,
    ensures
        named_encodings(values, n) == named_encodings(values, m),
    decreases n - m,
{
    if m < n {
        named_failing_stays(values, m, (n - 1) as nat);
    }
}

/// A transaction that was dropped is ended as it asked for before the next
/// statement, if it is still open, and only once; one that was finished is left
/// alone.
pub proof fn dropped_transaction_is_ended(t: transaction::TransactionModel, autocommit: bool)
    ensures
        t.in_progress && t.drop_behavior == DropBehavior::Rollback && !autocommit ==> cleanup(
            transaction::left_behind(t),
            autocommit,
        ).0 == Cleanup::Run(TransactionEnd::Rollback),
        t.in_progress && t.drop_behavior == DropBehavior::Commit && !autocommit ==> cleanup(
            transaction::left_behind(t),
            autocommit,
        ).0 == Cleanup::Run(TransactionEnd::Commit),
        !t.in_progress ==> cleanup(transaction::left_behind(t), autocommit).0 == Cleanup::Nothing,
        autocommit ==> !(cleanup(transaction::left_behind(t), autocommit).0 is Run),
        cleanup(transaction::left_behind(t), autocommit).0 is Run ==> cleanup(
            cleanup(transaction::left_behind(t), autocommit).1,
            autocommit,
        ).0 == Cleanup::Nothing,
{
}

} // verus!
