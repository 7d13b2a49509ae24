//! Transactions: how they begin, how they are finished, and what becomes of one
//! that is dropped.

use vstd::prelude::*;

verus! {

/// How a transaction begins.
#[derive(Clone, Copy, Debug, PartialEq, Eq, Structural)]
#[non_exhaustive]
pub enum TransactionBehavior {
    /// It starts when the database is first accessed.
    Deferred,
    /// It starts as a writer at once.
    Immediate,
    /// Others cannot read while it is underway.
    Exclusive,
    /// There may be several writers; conflicts are found when it is committed.
    Concurrent,
}

/// The statement that begins a transaction.
pub open spec fn begin_statement(behavior: TransactionBehavior) -> Seq<char> {
    match behavior {
        TransactionBehavior::Deferred => "BEGIN DEFERRED"@,
        TransactionBehavior::Immediate => "BEGIN IMMEDIATE"@,
        TransactionBehavior::Exclusive => "BEGIN EXCLUSIVE"@,
        TransactionBehavior::Concurrent => "BEGIN CONCURRENT"@,
    }
}

impl TransactionBehavior {
    /// The statement that begins a transaction.
    pub fn begin_sql(self) -> (r: &'static str)
        ensures
            r@ == begin_statement(self),
            match self {
                TransactionBehavior::Deferred => r@ == "BEGIN DEFERRED"@,
                TransactionBehavior::Immediate => r@ == "BEGIN IMMEDIATE"@,
                TransactionBehavior::Exclusive => r@ == "BEGIN EXCLUSIVE"@,
                TransactionBehavior::Concurrent => r@ == "BEGIN CONCURRENT"@,
            },
    {
        match self {
            TransactionBehavior::Deferred => "BEGIN DEFERRED",
            TransactionBehavior::Immediate => "BEGIN IMMEDIATE",
            TransactionBehavior::Exclusive => "BEGIN EXCLUSIVE",
            TransactionBehavior::Concurrent => "BEGIN CONCURRENT",
        }
    }
}

/// What becomes of a transaction that is dropped.
#[derive(Clone, Copy, Debug, PartialEq, Eq, Structural)]
#[non_exhaustive]
pub enum DropBehavior {
    /// Its changes are rolled back.
    Rollback,
    /// Its changes are committed.
    Commit,
    /// It stays open.
    Ignore,
    /// The program panics.
    Panic,
}

impl DropBehavior {
    /// The number that stands for a behavior.
    pub open spec fn code(self) -> u8 {
        match self {
            DropBehavior::Rollback => 0,
            DropBehavior::Commit => 1,
            DropBehavior::Ignore => 2,
            DropBehavior::Panic => 3,
        }
    }

    /// The behavior that a number stands for.
    pub open spec fn of_code(code: u8) -> DropBehavior {
        if code == 0 {
            DropBehavior::Rollback
        } else if code == 1 {
            DropBehavior::Commit
        } else if code == 2 {
            DropBehavior::Ignore
        } else {
            DropBehavior::Panic
        }
    }

    /// The behavior that a number stands for; there are four.
    pub fn from_code(code: u8) -> (r: DropBehavior)
        requires
            code <= 3,
        ensures
            r == DropBehavior::of_code(code),
            r.code() == code,
    {
        match code {
            0 => DropBehavior::Rollback,
            1 => DropBehavior::Commit,
            2 => DropBehavior::Ignore,
            _ => DropBehavior::Panic,
        }
    }
}

impl vstd::std_specs::convert::FromSpecImpl<DropBehavior> for u8 {
    open spec fn obeys_from_spec() -> bool {
        true
    }

    open spec fn from_spec(behavior: DropBehavior) -> u8 {
        behavior.code()
    }
}

impl From<DropBehavior> for u8 {
    fn from(behavior: DropBehavior) -> (r: u8) {
        match behavior {
            DropBehavior::Rollback => 0,
            DropBehavior::Commit => 1,
            DropBehavior::Ignore => 2,
            DropBehavior::Panic => 3,
        }
    }
}

/// Every behavior reads back from its number.
pub proof fn drop_behavior_round_trip(behavior: DropBehavior)
    ensures
        behavior.code() <= 3,
        DropBehavior::of_code(behavior.code()) == behavior,
{
}

/// A statement that ends a transaction.
#[derive(Clone, Copy, Debug, PartialEq, Eq, Structural)]
pub enum TransactionEnd {
    Commit,
    Rollback,
}

/// The text of a statement that ends a transaction.
pub open spec fn end_statement(end: TransactionEnd) -> Seq<char> {
    match end {
        TransactionEnd::Commit => "COMMIT"@,
        TransactionEnd::Rollback => "ROLLBACK"@,
    }
}

impl TransactionEnd {
    pub fn sql(self) -> (r: &'static str)
        ensures
            r@ == end_statement(self),
            match self {
                TransactionEnd::Commit => r@ == "COMMIT"@,
                TransactionEnd::Rollback => r@ == "ROLLBACK"@,
            },
    {
        match self {
            TransactionEnd::Commit => "COMMIT",
            TransactionEnd::Rollback => "ROLLBACK",
        }
    }
}

/// What is to be done next to finish a transaction.
#[derive(Clone, Copy, Debug, PartialEq, Eq, Structural)]
pub enum FinishStep {
    /// Nothing: it is finished.
    Finished,
    /// Nothing: it could not be finished, and the error of the last statement
    /// is to be returned.
    Failed,
    /// Nothing: it is rolled back because it could not be committed, and the
    /// error of the commit is to be returned.
    FailedCommit,
    /// Execute a statement.
    Run(TransactionEnd),
    /// Panic.
    Panic,
}

/// A transaction that has begun.
#[derive(Debug)]
pub struct Transaction {
    drop_behavior: DropBehavior,
    in_progress: bool,
    commit_failed: bool,
}

/// A transaction, by what it holds.
pub struct TransactionModel {
    pub drop_behavior: DropBehavior,
    pub in_progress: bool,
    /// Whether a commit failed while the transaction was being finished.
    pub commit_failed: bool,
}

impl View for Transaction {
    type V = TransactionModel;

    closed spec fn view(&self) -> TransactionModel {
        TransactionModel {
            drop_behavior: self.drop_behavior,
            in_progress: self.in_progress,
            commit_failed: self.commit_failed,
        }
    }
}

/// A transaction that is over.
pub open spec fn ended(t: TransactionModel) -> TransactionModel {
    TransactionModel { in_progress: false, ..t }
}

/// How finishing begins. `autocommit` says that no transaction is open on the
/// connection.
pub open spec fn finish_start(t: TransactionModel, autocommit: bool) -> (
    FinishStep,
    TransactionModel,
) {
    if autocommit {
        (FinishStep::Finished, ended(t))
    } else {
        match t.drop_behavior {
            DropBehavior::Commit => (FinishStep::Run(TransactionEnd::Commit), t),
            DropBehavior::Rollback => (FinishStep::Run(TransactionEnd::Rollback), t),
            DropBehavior::Ignore => (FinishStep::Finished, ended(t)),
            DropBehavior::Panic => (FinishStep::Panic, t),
        }
    }
}

/// How finishing goes on behind a statement: a commit that fails is followed by
/// a rollback, and is not forgotten where that succeeds.
pub open spec fn finish_next(t: TransactionModel, ran: TransactionEnd, succeeded: bool) -> (
    FinishStep,
    TransactionModel,
) {
    if succeeded {
        if ran == TransactionEnd::Rollback && t.commit_failed {
            (FinishStep::FailedCommit, ended(t))
        } else {
            (FinishStep::Finished, ended(t))
        }
    } else {
        match ran {
            TransactionEnd::Commit => (
                FinishStep::Run(TransactionEnd::Rollback),
                TransactionModel { commit_failed: true, ..t },
            ),
            TransactionEnd::Rollback => (FinishStep::Failed, t),
        }
    }
}

/// What the connection is to do with a transaction that is dropped: its
/// behavior, if it is not over.
pub open spec fn left_behind(t: TransactionModel) -> DropBehavior {
    if t.in_progress {
        t.drop_behavior
    } else {
        DropBehavior::Ignore
    }
}

impl Transaction {
    /// A transaction whose first statement was executed. It is rolled back when
    /// it is dropped.
    pub fn new() -> (r: Transaction)
        ensures
            r@ == (TransactionModel {
                drop_behavior: DropBehavior::Rollback,
                in_progress: true,
                commit_failed: false,
            }),
    {
        Transaction {
            drop_behavior: DropBehavior::Rollback,
            in_progress: true,
            commit_failed: false,
        }
    }

    /// What becomes of the transaction when it is dropped.
    #[must_use]
    pub fn drop_behavior(&self) -> (r: DropBehavior)
        ensures
            r == self@.drop_behavior,
    {
        self.drop_behavior
    }

    /// Sets what becomes of the transaction when it is dropped.
    pub fn set_drop_behavior(&mut self, drop_behavior: DropBehavior)
        ensures
            final(self)@ == (TransactionModel { drop_behavior, ..old(self)@ }),
    {
        self.drop_behavior = drop_behavior;
    }

    /// Takes note of what the statement came to that was to end the transaction.
    /// If it failed, the transaction goes on.
    pub fn end(&mut self, succeeded: bool)
        ensures
            final(self)@ == if succeeded {
                ended(old(self)@)
            } else {
                old(self)@
            },
    {
        if succeeded {
            self.in_progress = false;
        }
    }

    /// Begins to finish the transaction as it would be when dropped.
    pub fn finish(&mut self, autocommit: bool) -> (r: FinishStep)
        ensures
            (r, final(self)@) == finish_start(old(self)@, autocommit),
    {
        if autocommit {
            self.in_progress = false;
            return FinishStep::Finished;
        }
        match self.drop_behavior {
            DropBehavior::Commit => FinishStep::Run(TransactionEnd::Commit),
            DropBehavior::Rollback => FinishStep::Run(TransactionEnd::Rollback),
            DropBehavior::Ignore => {
                self.in_progress = false;
                FinishStep::Finished
            },
            DropBehavior::Panic => FinishStep::Panic,
        }
    }

    /// Goes on finishing the transaction behind a statement.
    pub fn finish_after(&mut self, ran: TransactionEnd, succeeded: bool) -> (r: FinishStep)
        ensures
            (r, final(self)@) == finish_next(old(self)@, ran, succeeded),
    {
        self.end(succeeded);
        match (ran, succeeded) {
            (TransactionEnd::Commit, true) => FinishStep::Finished,
            (TransactionEnd::Commit, false) => {
                self.commit_failed = true;
                FinishStep::Run(TransactionEnd::Rollback)
            },
            (TransactionEnd::Rollback, true) => {
                if self.commit_failed {
                    FinishStep::FailedCommit
                } else {
                    FinishStep::Finished
                }
            },
            (TransactionEnd::Rollback, false) => FinishStep::Failed,
        }
    }

    /// What the connection is to do when the transaction is dropped.
    pub fn dangling(&self) -> (r: DropBehavior)
        ensures
            r == left_behind(self@),
    {
        if self.in_progress {
            self.drop_behavior
        } else {
            DropBehavior::Ignore
        }
    }
}

/// A transaction that says it is finished, or rolled back behind a commit that
/// failed, leaves nothing for the connection to do, at whatever step it says so.
pub proof fn finished_leaves_nothing(
    t: TransactionModel,
    autocommit: bool,
    ran: TransactionEnd,
    succeeded: bool,
)
    ensures
        ({
            let (step, after) = finish_start(t, autocommit);
            step == FinishStep::Finished ==> left_behind(after) == DropBehavior::Ignore
        }),
        ({
            let (step, after) = finish_next(t, ran, succeeded);
            step == FinishStep::Finished || step == FinishStep::FailedCommit ==> left_behind(
                after,
            ) == DropBehavior::Ignore
        }),
{
}

/// Finishing executes at most a commit and a rollback, in that order: a commit
/// that fails is followed by a rollback, and a rollback by nothing. A commit that
/// failed is never reported as a transaction that is finished.
pub proof fn finishing_ends(t: TransactionModel, autocommit: bool, first: bool, second: bool)
    ensures
        finish_start(t, autocommit).0 matches FinishStep::Run(ran) ==> {
            let (step, t1) = finish_next(t, ran, first);
            match step {
                FinishStep::Run(again) => {
                    &&& ran == TransactionEnd::Commit && !first
                    &&& again == TransactionEnd::Rollback
                    &&& finish_next(t1, again, second).0 == if second {
                        FinishStep::FailedCommit
                    } else {
                        FinishStep::Failed
                    }
                },
                FinishStep::Finished => first,
                FinishStep::FailedCommit => first && t.commit_failed,
                FinishStep::Failed => ran == TransactionEnd::Rollback && !first,
                FinishStep::Panic => false,
            }
        },
{
}

/// A database as a server keeps it for one connection: what is stored, what the
/// open transaction has made of it, and whether one is open.
pub struct Server<T> {
    pub stored: T,
    pub working: T,
    pub open: bool,
}

/// What a statement that begins or ends a transaction does on a server, by its
/// text: what follows BEGIN says how locks are taken, and changes nothing else.
pub open spec fn serve<T>(text: Seq<char>, s: Server<T>) -> Server<T> {
    if text == seq!['C', 'O', 'M', 'M', 'I', 'T'] {
        Server { stored: s.working, working: s.working, open: false }
    } else if text == seq!['R', 'O', 'L', 'L', 'B', 'A', 'C', 'K'] {
        Server { stored: s.stored, working: s.stored, open: false }
    } else if text.len() >= 6 && text.take(6) == seq!['B', 'E', 'G', 'I', 'N', ' '] {
        Server { stored: s.stored, working: s.stored, open: true }
    } else {
        s
    }
}

/// What a statement that ends a transaction does on a server that refuses it or
/// not.
pub open spec fn serve_end<T>(end: TransactionEnd, accepted: bool, s: Server<T>) -> Server<T> {
    if accepted {
        serve(end_statement(end), s)
    } else {
        s
    }
}

/// On a server, a transaction that is committed keeps its changes, and one that
/// is rolled back leaves what was stored before it began. Until then nothing
/// that it does is stored.
pub proof fn transactions_keep_or_drop_their_changes<T>(
    behavior: TransactionBehavior,
    before: Server<T>,
    changed: T,
)
    ensures
        ({
            let begun = serve(begin_statement(behavior), before);
            let worked = Server { working: changed, ..begun };
            let committed = serve(end_statement(TransactionEnd::Commit), worked);
            let dropped = serve(end_statement(TransactionEnd::Rollback), worked);
            &&& begun.open && begun.stored == before.stored && begun.working == before.stored
            &&& worked.stored == before.stored
            &&& committed.stored == changed && committed.working == changed && !committed.open
            &&& dropped.stored == before.stored && dropped.working == before.stored
                && !dropped.open
        }),
{
    reveal_strlit("BEGIN DEFERRED");
    reveal_strlit("BEGIN IMMEDIATE");
    reveal_strlit("BEGIN EXCLUSIVE");
    reveal_strlit("BEGIN CONCURRENT");
    reveal_strlit("COMMIT");
    reveal_strlit("ROLLBACK");
    let begin = begin_statement(behavior);
    assert(begin.take(6) =~= seq!['B', 'E', 'G', 'I', 'N', ' ']);
    assert(begin.len() > 8);
    assert("COMMIT"@ =~= seq!['C', 'O', 'M', 'M', 'I', 'T']);
    assert("ROLLBACK"@ =~= seq!['R', 'O', 'L', 'L', 'B', 'A', 'C', 'K']);
    assert("ROLLBACK"@.len() != seq!['C', 'O', 'M', 'M', 'I', 'T'].len());
}

/// Each way to begin a transaction has a statement of its own: behind BEGIN it
/// names the way.
pub proof fn begin_statements_name_their_behavior(a: TransactionBehavior, b: TransactionBehavior)
    ensures
        begin_statement(a) == begin_statement(b) ==> a == b,
        begin_statement(a)[6] == match a {
            TransactionBehavior::Deferred => 'D',
            TransactionBehavior::Immediate => 'I',
            TransactionBehavior::Exclusive => 'E',
            TransactionBehavior::Concurrent => 'C',
        },
{
    reveal_strlit("BEGIN DEFERRED");
    reveal_strlit("BEGIN IMMEDIATE");
    reveal_strlit("BEGIN EXCLUSIVE");
    reveal_strlit("BEGIN CONCURRENT");
}

/// The server and the last step behind finishing a transaction; `first` and
/// `second` say whether the server accepts the statements that are run.
pub open spec fn finish_on<T>(
    t: TransactionModel,
    autocommit: bool,
    first: bool,
    second: bool,
    s: Server<T>,
) -> (FinishStep, Server<T>) {
    match finish_start(t, autocommit).0 {
        FinishStep::Run(ran) => {
            let s1 = serve_end(ran, first, s);
            let (step, t1) = finish_next(finish_start(t, autocommit).1, ran, first);
            match step {
                FinishStep::Run(again) => (
                    finish_next(t1, again, second).0,
                    serve_end(again, second, s1),
                ),
                other => (other, s1),
            }
        },
        other => (other, s),
    }
}

/// A transaction that is open on its server is finished as its drop behavior
/// says: its changes are stored if they are to be committed and the server
/// accepts that, and only then; else what was stored stays, and the transaction
/// is rolled back if the server accepts that. It is reported as finished exactly
/// where what was asked for was done.
pub proof fn finishing_does_what_was_asked<T>(
    t: TransactionModel,
    first: bool,
    second: bool,
    s: Server<T>,
)
    requires
        s.open,
        t.in_progress,
        !t.commit_failed,
    ensures
        ({
            let (step, after) = finish_on(t, false, first, second, s);
            match t.drop_behavior {
                DropBehavior::Commit => {
                    &&& step == FinishStep::Finished <==> first
                    &&& after.stored == if first {
                        s.working
                    } else {
                        s.stored
                    }
                    &&& after.open <==> !first && !second
                    &&& !first && second ==> step == FinishStep::FailedCommit && after.working
                        == s.stored
                    &&& !first && !second ==> step == FinishStep::Failed
                },
                DropBehavior::Rollback => {
                    &&& step == if first {
                        FinishStep::Finished
                    } else {
                        FinishStep::Failed
                    }
                    &&& after.stored == s.stored
                    &&& after.open <==> !first
                    &&& first ==> after.working == s.stored
                },
                DropBehavior::Ignore => step == FinishStep::Finished && after == s,
                DropBehavior::Panic => step == FinishStep::Panic && after == s,
            }
        }),
        finish_on(t, true, first, second, s) == (FinishStep::Finished, s),
{
    transactions_keep_or_drop_their_changes(TransactionBehavior::Deferred, s, s.working);
    reveal_strlit("COMMIT");
    reveal_strlit("ROLLBACK");
    assert("COMMIT"@ =~= seq!['C', 'O', 'M', 'M', 'I', 'T']);
    assert("ROLLBACK"@ =~= seq!['R', 'O', 'L', 'L', 'B', 'A', 'C', 'K']);
    assert("ROLLBACK"@.len() != seq!['C', 'O', 'M', 'M', 'I', 'T'].len());
}

/// A dropped transaction hands its drop behavior on exactly while it is not
/// over. The numbers of the behaviors count from zero, in the order rollback,
/// commit, ignore, panic.
pub proof fn dropped_transactions_hand_on_their_behavior(t: TransactionModel)
    ensures
        t.in_progress ==> left_behind(t) == t.drop_behavior,
        !t.in_progress ==> left_behind(t) == DropBehavior::Ignore,
        left_behind(ended(t)) == DropBehavior::Ignore,
        ended(t).drop_behavior == t.drop_behavior,
        DropBehavior::Rollback.code() == 0,
        DropBehavior::Commit.code() == 1,
        DropBehavior::Ignore.code() == 2,
        DropBehavior::Panic.code() == 3,
{
}

} // verus!
