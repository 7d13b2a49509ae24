//! A workload for measuring the memory of recursive queries: a queue of fixed
//! width, one that is ordered, one that is kept distinct, and a producer without
//! end that is stopped by a limit.

use vstd::prelude::*;
use crate::value;
use crate::value::{Value, ValueModel};

verus! {

/// Where a workload stands.
#[derive(Clone, Copy, Debug, PartialEq, Eq, Structural)]
pub enum Phase {
    Run,
    Done,
}

/// A statement to be executed.
#[derive(Debug)]
pub struct WorkItem {
    pub sql: String,
    pub params: Vec<Value>,
}

/// A statement to be executed, by what it holds.
pub struct WorkModel {
    pub sql: Seq<char>,
    pub params: Seq<ValueModel>,
}

impl View for WorkItem {
    type V = WorkModel;

    open spec fn view(&self) -> WorkModel {
        WorkModel { sql: self.sql@, params: value::models(self.params@) }
    }
}

/// Statements, by what they hold.
pub open spec fn work_models(items: Seq<WorkItem>) -> Seq<WorkModel> {
    items.map_values(|w: WorkItem| w@)
}

/// A statement with one number as its parameter.
pub open spec fn counting(sql: Seq<char>, rows: i64) -> WorkModel {
    WorkModel { sql, params: seq![ValueModel::Integer(rows)] }
}

/// The statements that one connection executes.
pub open spec fn queue_shapes(rows: i64) -> Seq<WorkModel> {
    seq![
        counting(
            "SELECT (WITH RECURSIVE seq(x) AS (VALUES(1) UNION ALL SELECT x + 1 FROM seq WHERE x < ?) SELECT count(*) FROM seq)"@,
            rows,
        ),
        counting(
            "SELECT (WITH RECURSIVE tree(x, depth) AS (VALUES(1, 0) UNION ALL SELECT x * 2, depth + 1 FROM tree WHERE depth < 20 UNION ALL SELECT x * 2 + 1, depth + 1 FROM tree WHERE depth < 20 ORDER BY 2, 1 LIMIT ?) SELECT count(*) FROM tree)"@,
            rows,
        ),
        counting(
            "SELECT (WITH RECURSIVE cycle(x) AS (VALUES(0) UNION SELECT (x + 1) % ? FROM cycle) SELECT count(*) FROM cycle)"@,
            rows,
        ),
        counting(
            "SELECT count(*) FROM (WITH RECURSIVE infinite(x) AS (VALUES(1) UNION ALL SELECT x + 1 FROM infinite) SELECT x FROM infinite LIMIT ?)"@,
            rows,
        ),
    ]
}

fn item(sql: &str, rows: i64) -> (r: WorkItem)
    ensures
        r@ == counting(sql@, rows),
{
    let mut params: Vec<Value> = Vec::new();
    params.push(Value::Integer(rows));
    assert(value::models(params@) =~= seq![ValueModel::Integer(rows)]);
    WorkItem { sql: sql.to_owned(), params }
}

fn shapes(rows: i64) -> (r: Vec<WorkItem>)
    ensures
        work_models(r@) == queue_shapes(rows),
{
    let mut r: Vec<WorkItem> = Vec::new();
    r.push(
        item(
            "SELECT (WITH RECURSIVE seq(x) AS (VALUES(1) UNION ALL SELECT x + 1 FROM seq WHERE x < ?) SELECT count(*) FROM seq)",
            rows,
        ),
    );
    r.push(
        item(
            "SELECT (WITH RECURSIVE tree(x, depth) AS (VALUES(1, 0) UNION ALL SELECT x * 2, depth + 1 FROM tree WHERE depth < 20 UNION ALL SELECT x * 2 + 1, depth + 1 FROM tree WHERE depth < 20 ORDER BY 2, 1 LIMIT ?) SELECT count(*) FROM tree)",
            rows,
        ),
    );
    r.push(
        item(
            "SELECT (WITH RECURSIVE cycle(x) AS (VALUES(0) UNION SELECT (x + 1) % ? FROM cycle) SELECT count(*) FROM cycle)",
            rows,
        ),
    );
    r.push(
        item(
            "SELECT count(*) FROM (WITH RECURSIVE infinite(x) AS (VALUES(1) UNION ALL SELECT x + 1 FROM infinite) SELECT x FROM infinite LIMIT ?)",
            rows,
        ),
    );
    assert(work_models(r@) =~= queue_shapes(rows));
    r
}

/// The workload: how often it is run, how many rows each statement gives, and
/// how often it was run.
pub struct RecursiveCte {
    iterations: usize,
    output_rows: usize,
    current_iteration: usize,
}

/// The workload, by what it holds.
pub struct ProfileModel {
    pub iterations: usize,
    pub output_rows: usize,
    pub current_iteration: usize,
}

impl View for RecursiveCte {
    type V = ProfileModel;

    closed spec fn view(&self) -> ProfileModel {
        ProfileModel {
            iterations: self.iterations,
            output_rows: self.output_rows,
            current_iteration: self.current_iteration,
        }
    }
}

/// Batches, one for each connection, by what they hold.
pub open spec fn batch_models(batches: Seq<Vec<WorkItem>>) -> Seq<Seq<WorkModel>> {
    batches.map_values(|b: Vec<WorkItem>| work_models(b@))
}

impl RecursiveCte {
    /// A workload that was not run yet. Each statement gives at least one row.
    pub fn new(iterations: usize, output_rows: usize) -> (r: RecursiveCte)
        ensures
            r@ == (ProfileModel {
                iterations,
                output_rows: if output_rows < 1 {
                    1
                } else {
                    output_rows
                },
                current_iteration: 0,
            }),
    {
        RecursiveCte {
            iterations,
            output_rows: if output_rows < 1 {
                1
            } else {
                output_rows
            },
            current_iteration: 0,
        }
    }

    /// The name of the workload.
    pub fn name(&self) -> (r: &'static str)
        ensures
            r@ == "recursive-cte"@,
    {
        "recursive-cte"
    }

    /// The next statements: the same for every connection, until the workload was
    /// run as often as it is to be.
    pub fn next_batch(&mut self, connections: usize) -> (r: (Phase, Vec<Vec<WorkItem>>))
        ensures
            if old(self)@.current_iteration >= old(self)@.iterations {
                &&& r.0 == Phase::Done
                &&& r.1@.len() == 0
                &&& final(self)@ == old(self)@
            } else {
                &&& r.0 == Phase::Run
                &&& batch_models(r.1@) == Seq::new(
                    connections as nat,
                    |i: int| queue_shapes(old(self)@.output_rows as i64),
                )
                &&& final(self)@ == (ProfileModel {
                    current_iteration: (old(self)@.current_iteration + 1) as usize,
                    ..old(self)@
                })
            },
    {
        if self.current_iteration >= self.iterations {
            return (Phase::Done, Vec::new());
        }
        #[verifier::truncate]
        let rows: i64 = self.output_rows as i64;
        let mut batches: Vec<Vec<WorkItem>> = Vec::new();
        let mut i: usize = 0;
        assert(batch_models(batches@) =~= Seq::new(0, |j: int| queue_shapes(rows)));
        while i < connections
            invariant
                i <= connections,
                batch_models(batches@) == Seq::new(i as nat, |j: int| queue_shapes(rows)),
            decreases connections - i,
        {
            let ghost before = batches@;
            batches.push(shapes(rows));
            i = i + 1;
            assert(batch_models(batches@) =~= batch_models(before).push(queue_shapes(rows)));
            assert(batch_models(batches@) =~= Seq::new(i as nat, |j: int| queue_shapes(rows)));
        }
        self.current_iteration = self.current_iteration + 1;
        (Phase::Run, batches)
    }
}

} // verus!
