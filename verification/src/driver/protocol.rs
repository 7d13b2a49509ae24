//! What goes over the wire: requests, answers, and the values in them.

use vstd::prelude::*;
use crate::driver::blob;
use crate::driver::error::{Error, ErrorModel};
use crate::scan;
use crate::text;
use crate::text::{chars_of, join2, print_i64};
use crate::value::{Real, Value, ValueModel};

verus! {

/// A value on the wire. Integers are sent as decimal text, since numbers there
/// cannot hold all of 64 bits; blobs in base64.
#[allow(inconsistent_fields)]
#[derive(Debug, PartialEq)]
pub enum ProtoValue {
    Null,
    Integer { value: String },
    Float { value: Option<Real> },
    Text { value: String },
    Blob { base64: String },
}

/// A value on the wire, by what it holds.
pub enum ProtoModel {
    Null,
    Integer(Seq<char>),
    Float(Option<Real>),
    Text(Seq<char>),
    Blob(Seq<char>),
}

impl View for ProtoValue {
    type V = ProtoModel;

    open spec fn view(&self) -> ProtoModel {
        match self {
            ProtoValue::Null => ProtoModel::Null,
            ProtoValue::Integer { value } => ProtoModel::Integer(value@),
            ProtoValue::Float { value } => ProtoModel::Float(*value),
            ProtoValue::Text { value } => ProtoModel::Text(value@),
            ProtoValue::Blob { base64 } => ProtoModel::Blob(base64@),
        }
    }
}

/// Whether the text of a value can be counted.
pub open spec fn sendable(value: ValueModel) -> bool {
    value matches ValueModel::Blob(b) ==> blob::countable(b.len())
}

/// A value as it is sent. What is no number is sent as `NULL`, which is what
/// SQL binds it as; what is infinite cannot be sent.
pub open spec fn encoding(value: ValueModel) -> Result<ProtoModel, ErrorModel> {
    match value {
        ValueModel::Null => Ok(ProtoModel::Null),
        ValueModel::Integer(n) => Ok(ProtoModel::Integer(text::signed_decimal(n as int))),
        ValueModel::Real(r) => if r.nan() {
            Ok(ProtoModel::Null)
        } else if r.infinite() {
            Err(
                ErrorModel::ToSqlConversionFailure(
                    "infinite float values cannot be sent over the protocol"@,
                ),
            )
        } else {
            Ok(ProtoModel::Float(Some(r)))
        },
        ValueModel::Text(s) => Ok(ProtoModel::Text(s)),
        ValueModel::Blob(b) => Ok(ProtoModel::Blob(blob::padded(b))),
    }
}

/// Encodes a value for the wire.
pub fn encode_value(value: &Value) -> (r: Result<ProtoValue, Error>)
    requires
        sendable(value@),
    ensures
        match r {
            Ok(p) => encoding(value@) == Ok::<ProtoModel, ErrorModel>(p@),
            Err(e) => encoding(value@) == Err::<ProtoModel, ErrorModel>(e@),
        },
{
    match value {
        Value::Null => Ok(ProtoValue::Null),
        Value::Integer(n) => Ok(ProtoValue::Integer { value: print_i64(*n) }),
        Value::Real(r) => if r.is_nan() {
            Ok(ProtoValue::Null)
        } else if r.is_infinite() {
            Err(
                Error::ToSqlConversionFailure(
                    "infinite float values cannot be sent over the protocol".to_owned(),
                ),
            )
        } else {
            Ok(ProtoValue::Float { value: Some(*r) })
        },
        Value::Text(s) => Ok(ProtoValue::Text { value: s.clone() }),
        Value::Blob(b) => Ok(ProtoValue::Blob { base64: blob::encode(b.as_slice()) }),
    }
}

/// The bits of the number that stands for none.
pub const NOT_A_NUMBER: u64 = 0x7ff8_0000_0000_0000;

/// The value that was sent. A number that is missing was none.
pub open spec fn decoding(value: ProtoModel) -> Result<ValueModel, ErrorModel> {
    match value {
        ProtoModel::Null => Ok(ValueModel::Null),
        ProtoModel::Integer(s) => match scan::i64_text(s) {
            Ok(n) => Ok(ValueModel::Integer(n)),
            Err(e) => Err(
                ErrorModel::Error("invalid integer value in server response: "@ + e.text()),
            ),
        },
        ProtoModel::Float(value) => match value {
            Some(r) => Ok(ValueModel::Real(r)),
            None => Ok(ValueModel::Real(Real { bits: NOT_A_NUMBER })),
        },
        ProtoModel::Text(s) => Ok(ValueModel::Text(s)),
        ProtoModel::Blob(s) => match blob::blob_of(s) {
            Some(b) => Ok(ValueModel::Blob(b)),
            None => Err(
                ErrorModel::Error(
                    "invalid base64 in server response: "@ + blob::decode_error(
                        blob::without_padding(s),
                    ),
                ),
            ),
        },
    }
}

/// Decodes a value from the wire.
pub fn decode_value(value: &ProtoValue) -> (r: Result<Value, Error>)
    ensures
        match r {
            Ok(v) => decoding(value@) == Ok::<ValueModel, ErrorModel>(v@),
            Err(e) => decoding(value@) == Err::<ValueModel, ErrorModel>(e@),
        },
        value@ == ProtoModel::Float(None) ==> (r matches Ok(Value::Real(f)) && f.nan()),
{
    match value {
        ProtoValue::Null => Ok(Value::Null),
        ProtoValue::Integer { value } => match scan::parse_i64(&chars_of(value.as_str())) {
            Ok(n) => Ok(Value::Integer(n)),
            Err(e) => Err(
                Error::Error(join2("invalid integer value in server response: ", e.message())),
            ),
        },
        ProtoValue::Float { value } => match value {
            Some(r) => Ok(Value::Real(*r)),
            None => Ok(Value::Real(Real { bits: NOT_A_NUMBER })),
        },
        ProtoValue::Text { value } => Ok(Value::Text(value.clone())),
        ProtoValue::Blob { base64 } => match blob::read_blob(base64.as_str()) {
            Ok(b) => Ok(Value::Blob(b)),
            Err(e) => Err(
                Error::Error(join2("invalid base64 in server response: ", e.as_str())),
            ),
        },
    }
}

/// A value that can be sent reads back as it was; what is no number reads back
/// as `NULL`.
pub proof fn value_round_trip(value: ValueModel)
    requires
        !(value matches ValueModel::Real(r) && r.infinite()),
    ensures
        encoding(value) matches Ok(sent) && decoding(sent) == Ok::<ValueModel, ErrorModel>(
            if value matches ValueModel::Real(r) && r.nan() {
                ValueModel::Null
            } else {
                value
            },
        ),
{
    match value {
        ValueModel::Integer(n) => {
            scan::printed_integer_reads_back(n);
        },
        ValueModel::Blob(b) => {
            blob::blob_round_trip(b);
        },
        _ => {},
    }
}

/// An argument with a name.
#[derive(Debug)]
pub struct NamedArg {
    pub name: String,
    pub value: ProtoValue,
}

/// A statement with its arguments.
#[derive(Debug)]
pub struct Stmt {
    pub sql: Option<String>,
    pub sql_id: Option<i32>,
    pub args: Vec<ProtoValue>,
    pub named_args: Vec<NamedArg>,
    pub want_rows: bool,
}

/// A statement, by what it holds.
pub struct StmtModel {
    pub sql: Option<Seq<char>>,
    pub sql_id: Option<i32>,
    pub args: Seq<ProtoModel>,
    pub named_args: Seq<(Seq<char>, ProtoModel)>,
    pub want_rows: bool,
}

impl View for Stmt {
    type V = StmtModel;

    open spec fn view(&self) -> StmtModel {
        StmtModel {
            sql: text::optional_text(self.sql),
            sql_id: self.sql_id,
            args: self.args@.map_values(|v: ProtoValue| v@),
            named_args: self.named_args@.map_values(|a: NamedArg| (a.name@, a.value@)),
            want_rows: self.want_rows,
        }
    }
}

/// A statement by its text, without arguments.
pub open spec fn bare_stmt(sql: Seq<char>, want_rows: bool) -> StmtModel {
    StmtModel {
        sql: Some(sql),
        sql_id: None,
        args: Seq::empty(),
        named_args: Seq::empty(),
        want_rows,
    }
}

impl Stmt {
    /// A statement by its text, without arguments.
    pub fn new(sql: &str, want_rows: bool) -> (r: Stmt)
        ensures
            r@ == bare_stmt(sql@, want_rows),
    {
        let r = Stmt {
            sql: Some(sql.to_owned()),
            sql_id: None,
            args: Vec::new(),
            named_args: Vec::new(),
            want_rows,
        };
        assert(r@.args =~= Seq::empty());
        assert(r@.named_args =~= Seq::empty());
        r
    }
}

/// When a step of a batch is executed.
#[derive(Debug)]
pub enum BatchCond {
    StepOk { step: u32 },
    StepError { step: u32 },
    Not { cond: Box<BatchCond> },
    And { conds: Vec<BatchCond> },
    Or { conds: Vec<BatchCond> },
    IsAutocommit,
}

/// One step of a batch.
#[derive(Debug)]
pub struct BatchStep {
    pub condition: Option<BatchCond>,
    pub stmt: Stmt,
}

#[derive(Debug)]
pub struct Batch {
    pub steps: Vec<BatchStep>,
}

/// A request in a pipeline.
#[derive(Debug)]
pub enum StreamRequest {
    Execute { stmt: Stmt },
    Batch { batch: Batch },
    Sequence { sql: String },
    Describe { sql: String },
    StoreSql { sql_id: i32, sql: String },
    CloseSql { sql_id: i32 },
    GetAutocommit,
    Close,
}

#[derive(Debug)]
pub struct PipelineRequest {
    pub baton: Option<String>,
    pub requests: Vec<StreamRequest>,
}

/// What the server says when it refuses.
#[derive(Debug, PartialEq)]
pub struct ProtoError {
    pub message: String,
    pub code: Option<String>,
    pub extended_code: Option<String>,
}

/// What the server says when it refuses, by what it holds.
pub struct ProtoErrorModel {
    pub message: Seq<char>,
    pub code: Option<Seq<char>>,
    pub extended_code: Option<Seq<char>>,
}

impl View for ProtoError {
    type V = ProtoErrorModel;

    open spec fn view(&self) -> ProtoErrorModel {
        ProtoErrorModel {
            message: self.message@,
            code: text::optional_text(self.code),
            extended_code: text::optional_text(self.extended_code),
        }
    }
}

/// A column of a result.
#[derive(Debug)]
pub struct ProtoCol {
    pub name: Option<String>,
    pub decltype: Option<String>,
}

/// The result of a statement.
#[derive(Debug)]
pub struct StmtResult {
    pub cols: Vec<ProtoCol>,
    pub rows: Vec<Vec<ProtoValue>>,
    pub affected_row_count: u64,
    pub last_insert_rowid: Option<String>,
}

/// The result of a batch.
#[derive(Debug)]
pub struct BatchResult {
    pub step_results: Vec<Option<StmtResult>>,
    pub step_errors: Vec<Option<ProtoError>>,
}

/// What a statement is described as.
#[derive(Debug)]
pub struct DescribeResult {
    pub params: Vec<DescribeParam>,
    pub cols: Vec<ProtoCol>,
    pub is_explain: bool,
    pub is_readonly: bool,
}

#[derive(Debug)]
pub struct DescribeParam {
    pub name: Option<String>,
}

/// An answer to one request of a pipeline.
#[allow(inconsistent_fields)]
#[derive(Debug)]
pub enum StreamResponse {
    Execute { result: StmtResult },
    Batch { result: BatchResult },
    Sequence,
    Describe { result: DescribeResult },
    StoreSql,
    CloseSql,
    GetAutocommit { is_autocommit: bool },
    Close,
}

/// What became of one request of a pipeline.
#[derive(Debug)]
pub enum StreamResult {
    Answer { response: StreamResponse },
    Error { error: ProtoError },
}

#[derive(Debug)]
pub struct PipelineResponse {
    pub baton: Option<String>,
    pub base_url: Option<String>,
    pub results: Vec<StreamResult>,
}

#[derive(Debug)]
pub struct CursorRequest {
    pub baton: Option<String>,
    pub batch: Batch,
}

/// The first line of a cursor's answer.
#[derive(Debug)]
pub struct CursorResponse {
    pub baton: Option<String>,
    pub base_url: Option<String>,
}

/// A row's number in a cursor's answer, as a number or as decimal text.
#[derive(Debug)]
pub enum CursorRowid {
    Number(i64),
    Text(String),
}

/// The row's number that a text is, or the error that it is none.
pub open spec fn rowid_text(s: Seq<char>) -> Result<i64, ErrorModel> {
    match scan::i64_text(s) {
        Ok(n) => Ok(n),
        Err(e) => Err(ErrorModel::Error("invalid rowid in server response: "@ + e.text())),
    }
}

/// Reads a row's number from text.
pub fn parse_rowid(s: &str) -> (r: Result<i64, Error>)
    ensures
        match r {
            Ok(n) => rowid_text(s@) == Ok::<i64, ErrorModel>(n),
            Err(e) => rowid_text(s@) == Err::<i64, ErrorModel>(e@),
        },
{
    match scan::parse_i64(&chars_of(s)) {
        Ok(n) => Ok(n),
        Err(e) => Err(Error::Error(join2("invalid rowid in server response: ", e.message()))),
    }
}

impl CursorRowid {
    /// The row's number.
    pub fn to_i64(&self) -> (r: Result<i64, Error>)
        ensures
            match (self, r) {
                (CursorRowid::Number(n), _) => r == Ok::<i64, Error>(*n),
                (CursorRowid::Text(s), Ok(n)) => rowid_text(s@) == Ok::<i64, ErrorModel>(n),
                (CursorRowid::Text(s), Err(e)) => rowid_text(s@) == Err::<i64, ErrorModel>(e@),
            },
    {
        match self {
            CursorRowid::Number(n) => Ok(*n),
            CursorRowid::Text(s) => parse_rowid(s.as_str()),
        }
    }
}

/// An entry of a cursor's answer. Entries of other types are ignored.
#[derive(Debug)]
pub enum CursorEntry {
    StepBegin { step: u32, cols: Vec<ProtoCol> },
    Row { row: Vec<ProtoValue> },
    StepEnd { affected_row_count: u64, last_insert_rowid: Option<CursorRowid> },
    StepError { step: u32, error: ProtoError },
    Error { error: ProtoError },
    ReplicationIndex,
    Unknown,
}

} // verus!
