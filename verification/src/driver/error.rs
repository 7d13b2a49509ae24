//! Errors of the driver.

use vstd::prelude::*;
use crate::driver::protocol::{ProtoError, ProtoErrorModel};
use crate::value::{Value, ValueModel};

verus! {

/// An error of the driver.
#[derive(Debug, PartialEq)]
pub enum Error {
    /// A value cannot be sent.
    ToSqlConversionFailure(String),
    /// An answer of the server makes no sense.
    Error(String),
    /// The driver was not used as it is meant to be.
    Misuse(String),
    /// An answer of the server is not complete.
    Http(String),
    /// A query that was asked for one row has none.
    QueryReturnedNoRows,
    /// The server refused.
    Server(ProtoError),
}

/// An error, by what it holds.
pub enum ErrorModel {
    ToSqlConversionFailure(Seq<char>),
    Error(Seq<char>),
    Misuse(Seq<char>),
    Http(Seq<char>),
    QueryReturnedNoRows,
    Server(ProtoErrorModel),
}

impl View for Error {
    type V = ErrorModel;

    open spec fn view(&self) -> ErrorModel {
        match self {
            Error::ToSqlConversionFailure(s) => ErrorModel::ToSqlConversionFailure(s@),
            Error::Error(s) => ErrorModel::Error(s@),
            Error::Misuse(s) => ErrorModel::Misuse(s@),
            Error::Http(s) => ErrorModel::Http(s@),
            Error::QueryReturnedNoRows => ErrorModel::QueryReturnedNoRows,
            Error::Server(e) => ErrorModel::Server(e@),
        }
    }
}

/// A value or an error, by what it holds.
pub open spec fn value_result(r: Result<Value, Error>) -> Result<ValueModel, ErrorModel> {
    match r {
        Ok(v) => Ok(v@),
        Err(e) => Err(e@),
    }
}

} // verus!
