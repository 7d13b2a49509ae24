//! Databases of a connection, and how texts of several statements are run.

use vstd::prelude::*;
use crate::error::LimboError;
use crate::scan;
use crate::text;
use crate::text::{chars_of, join2, string_of, text_of_utf8};

verus! {

/// The number of the main database.
pub const MAIN_DB_ID: usize = 0;

/// The number of the database for temporary tables.
pub const TEMP_DB_ID: usize = 1;

/// The first number of databases that are attached.
pub const FIRST_ATTACHED_DB_ID: usize = 2;

/// The number of a database that is not there.
pub const INVALID_DB_ID: usize = usize::MAX;

/// Whether a number is that of the main database or of the temporary one.
pub fn is_main_or_temp_db(database_id: usize) -> (r: bool)
    ensures
        r == (database_id == MAIN_DB_ID || database_id == TEMP_DB_ID),
{
    database_id == MAIN_DB_ID || database_id == TEMP_DB_ID
}

/// Whether a number is that of an attached database.
pub fn is_attached_db(database_id: usize) -> (r: bool)
    ensures
        r == (database_id >= FIRST_ATTACHED_DB_ID),
{
    database_id >= FIRST_ATTACHED_DB_ID
}

/// A database is either attached, or the main or the temporary one.
pub proof fn databases_are_told_apart(database_id: usize)
    ensures
        (database_id >= FIRST_ATTACHED_DB_ID) != (database_id == MAIN_DB_ID || database_id
            == TEMP_DB_ID),
{
}

/// When what is written is forced to disk.
#[derive(Clone, Copy, Debug, PartialEq, Eq, Structural)]
pub enum SyncMode {
    Off,
    Normal,
    Full,
}

impl SyncMode {
    /// The number that stands for the mode.
    pub fn code(self) -> (r: u8)
        ensures
            r == match self {
                SyncMode::Off => 0u8,
                SyncMode::Normal => 1,
                SyncMode::Full => 2,
            },
    {
        match self {
            SyncMode::Off => 0,
            SyncMode::Normal => 1,
            SyncMode::Full => 2,
        }
    }
}

/// Where temporary tables are kept.
#[derive(Clone, Copy, Debug, PartialEq, Eq, Structural)]
pub enum TempStore {
    /// Where they are kept unless something else is said.
    Default,
    File,
    Memory,
}

impl TempStore {
    /// The number that stands for the place.
    pub fn code(self) -> (r: u8)
        ensures
            r == match self {
                TempStore::Default => 0u8,
                TempStore::File => 1,
                TempStore::Memory => 2,
            },
    {
        match self {
            TempStore::Default => 0,
            TempStore::File => 1,
            TempStore::Memory => 2,
        }
    }
}

impl Default for TempStore {
    fn default() -> (r: TempStore)
        ensures
            r == TempStore::Default,
    {
        TempStore::Default
    }
}

/// A cursor on the record in a register, as a table of one row. It holds no
/// data itself.
pub struct PseudoCursor {
    content_reg: usize,
}

impl View for PseudoCursor {
    type V = usize;

    closed spec fn view(&self) -> usize {
        self.content_reg
    }
}

impl PseudoCursor {
    #[inline]
    pub fn new(content_reg: usize) -> (r: PseudoCursor)
        ensures
            r@ == content_reg,
    {
        PseudoCursor { content_reg }
    }

    /// The register that the record is in.
    #[inline]
    pub fn content_reg(&self) -> (r: usize)
        ensures
            r == self@,
    {
        self.content_reg
    }
}

/// Runs the statements of a text one after another.
pub struct QueryRunner {
    statements: String,
    pending_error: Option<LimboError>,
    last_offset: usize,
}

/// A runner, by what it holds.
pub struct RunnerModel {
    /// The text.
    pub statements: Seq<char>,
    /// What is wrong with the text, if that was not reported yet.
    pub pending: Option<Seq<char>>,
    /// How many bytes of the text were run.
    pub offset: nat,
}

impl RunnerModel {
    /// The bytes of the text.
    pub open spec fn bytes(self) -> Seq<u8> {
        vstd::utf8::encode_utf8(self.statements)
    }

    /// The bytes that are left.
    pub open spec fn rest(self) -> Seq<u8> {
        self.bytes().skip(self.offset as int)
    }
}

/// What is to be done for the next statement.
#[derive(Debug)]
pub enum RunnerStep {
    /// Report an error.
    Fail(LimboError),
    /// Parse the first statement of a text.
    Parse(String),
}

/// What parsing the first statement of a text came to.
#[derive(Debug)]
pub enum ParseOutcome {
    /// A statement that ends after so many bytes.
    Statement { end: usize },
    /// There is no statement.
    Nothing,
    /// The text cannot be parsed.
    Failed(LimboError),
}

/// What is to be done behind parsing.
#[derive(Debug)]
pub enum RunnerAction {
    /// Run the statement with this text.
    Run(String),
    /// Report an error.
    Fail(LimboError),
    /// Nothing: all statements were run.
    Finished,
}

/// The text of bytes that are no UTF-8 is empty, and the error is kept.
pub open spec fn new_runner(statements: Seq<u8>) -> RunnerModel {
    if vstd::utf8::valid_utf8(statements) {
        RunnerModel { statements: vstd::utf8::decode_utf8(statements), pending: None, offset: 0 }
    } else {
        RunnerModel {
            statements: Seq::empty(),
            pending: Some("invalid UTF-8 in SQL input: "@ + text::utf8_error(statements)),
            offset: 0,
        }
    }
}

impl View for QueryRunner {
    type V = RunnerModel;

    closed spec fn view(&self) -> RunnerModel {
        RunnerModel {
            statements: self.statements@,
            pending: match self.pending_error {
                Some(LimboError::ParseError(m)) => Some(m@),
                _ => None,
            },
            offset: self.last_offset as nat,
        }
    }
}

impl QueryRunner {
    /// Whether what was run ends where a character does, and the error that is
    /// kept is one of parsing.
    pub closed spec fn valid(self) -> bool {
        &&& vstd::utf8::is_char_boundary(vstd::utf8::encode_utf8(self.statements@), self.last_offset as int)
        &&& self.pending_error matches Some(e) ==> e is ParseError
    }

    pub fn new(statements: &[u8]) -> (r: QueryRunner)
        ensures
            r.valid(),
            r@ == new_runner(statements@),
    {
        let r = match text_of_utf8(statements) {
            Ok(s) => QueryRunner { statements: s, pending_error: None, last_offset: 0 },
            Err(e) => QueryRunner {
                statements: String::new(),
                pending_error: Some(
                    LimboError::ParseError(join2("invalid UTF-8 in SQL input: ", e.as_str())),
                ),
                last_offset: 0,
            },
        };
        assert(r.statements@ =~= new_runner(statements@).statements);
        proof {
            vstd::utf8::encode_utf8_valid_utf8(r.statements@);
            vstd::utf8::is_char_boundary_start_end_of_seq(vstd::utf8::encode_utf8(r.statements@));
        }
        r
    }

    /// Begins the next statement: the error that is kept, once, or else the text
    /// that is left.
    pub fn next(&mut self) -> (r: RunnerStep)
        requires
            old(self).valid(),
        ensures
            final(self).valid(),
            match old(self)@.pending {
                Some(m) => r matches RunnerStep::Fail(e) && e.is_parse_error(m) && final(self)@ == (
                RunnerModel { pending: None, ..old(self)@ }),
                None => r matches RunnerStep::Parse(s) && vstd::utf8::encode_utf8(s@)
                    == old(self)@.rest() && final(self)@ == old(self)@,
            },
    {
        match self.pending_error.take() {
            Some(e) => RunnerStep::Fail(e),
            None => {
                let (_, rest) = self.statements.as_str().split_at(self.last_offset);
                let rest = rest.to_owned();
                RunnerStep::Parse(rest)
            },
        }
    }

    /// Goes on behind parsing: a statement is run, and the next one is looked for
    /// behind it; an error ends the run; and where there is no statement, nothing
    /// is left to be done.
    pub fn after_parse(&mut self, outcome: ParseOutcome) -> (r: RunnerAction)
        requires
            old(self).valid(),
            outcome matches ParseOutcome::Statement { end } ==> end <= old(self)@.rest().len()
                && vstd::utf8::is_char_boundary(old(self)@.rest(), end as int),
        ensures
            final(self).valid(),
            match outcome {
                ParseOutcome::Statement { end } => {
                    &&& r matches RunnerAction::Run(s) && s@ == scan::trim(
                        vstd::utf8::decode_utf8(old(self)@.rest().take(end as int)),
                    )
                    &&& final(self)@ == (RunnerModel {
                        offset: (old(self)@.offset + end) as nat,
                        ..old(self)@
                    })
                },
                ParseOutcome::Nothing => r is Finished && final(self)@ == old(self)@,
                ParseOutcome::Failed(e) => {
                    &&& r matches RunnerAction::Fail(f) && f == e
                    &&& final(self)@ == (RunnerModel {
                        offset: old(self)@.bytes().len(),
                        ..old(self)@
                    })
                },
            },
    {
        match outcome {
            ParseOutcome::Statement { end } => RunnerAction::Run(self.advance(end)),
            ParseOutcome::Nothing => RunnerAction::Finished,
            ParseOutcome::Failed(e) => {
                self.stop();
                RunnerAction::Fail(e)
            },
        }
    }

    /// Goes on behind a statement that ends after `end` bytes of the text that was
    /// left, and gives the text of the statement.
    pub fn advance(&mut self, end: usize) -> (r: String)
        requires
            old(self).valid(),
            end <= old(self)@.rest().len(),
            vstd::utf8::is_char_boundary(old(self)@.rest(), end as int),
        ensures
            final(self).valid(),
            final(self)@ == (RunnerModel { offset: (old(self)@.offset + end) as nat, ..old(self)@ }),
            final(self)@.rest() == old(self)@.rest().skip(end as int),
            r@ == scan::trim(vstd::utf8::decode_utf8(old(self)@.rest().take(end as int))),
    {
        let all = self.statements.as_str();
        let n: usize = all.as_bytes().len();
        let (_, rest) = all.split_at(self.last_offset);
        let ghost left = vstd::utf8::encode_utf8(rest@);
        assert(left =~= self@.rest());
        let (first, _) = rest.split_at(end);
        proof {
            let bytes = vstd::utf8::encode_utf8(all@);
            let at = self.last_offset as int;
            assert(vstd::utf8::encode_utf8(first@) =~= left.take(end as int));
            vstd::utf8::encode_utf8_decode_utf8(first@);
            vstd::utf8::encode_utf8_valid_utf8(all@);
            vstd::utf8::encode_utf8_valid_utf8(rest@);
            if at + end < bytes.len() {
                assert(left[end as int] == bytes[at + end]);
                vstd::utf8::is_char_boundary_iff_not_is_continuation_byte(left, end as int);
                vstd::utf8::is_char_boundary_iff_not_is_continuation_byte(bytes, at + end);
            } else {
                vstd::utf8::is_char_boundary_start_end_of_seq(bytes);
            }
        }
        let input = string_of(scan::trimmed(&chars_of(first)).as_slice());
        self.last_offset = self.last_offset + end;
        input
    }

    /// Ends the run behind a statement that cannot be parsed.
    pub fn stop(&mut self)
        requires
            old(self).valid(),
        ensures
            final(self).valid(),
            final(self)@ == (RunnerModel { offset: old(self)@.bytes().len(), ..old(self)@ }),
            final(self)@.rest().len() == 0,
    {
        self.last_offset = self.statements.as_str().as_bytes().len();
        proof {
            vstd::utf8::encode_utf8_valid_utf8(self.statements@);
            vstd::utf8::is_char_boundary_start_end_of_seq(vstd::utf8::encode_utf8(self.statements@));
        }
    }
}

} // verus!
