//! Runs the code that is emitted for recursive expressions on a small machine.

use tursokit::error::LimboError;
use tursokit::translate::expr::Expr;
use tursokit::translate::program::{
    CollationSeq, Fragment, Insn, Item, Label, NullsOrder, ProgramBuilder, SortOrder,
};
use tursokit::translate::recursive_cte::{
    emit_recursive_cte, recursive_cte_query_result_column_collation,
    recursive_cte_result_column_collation, write_recursive_cte, ColumnName, CtePart, IndexColumn,
    QueryDestination, QueryPart, QueueDestination, QueueTerm, RecursiveCtePlan, SelectCollations,
};
use tursokit::translate::window_init::ResultSetColumn;

type Row = Vec<Option<i64>>;

fn select(collations: &[Option<CollationSeq>]) -> QueryPart {
    QueryPart::Select(SelectCollations {
        first_values: vec![],
        result_columns: collations.to_vec(),
    })
}

/// A part whose columns are the literals from a number on.
fn part(columns: usize, first_literal: u64) -> CtePart {
    CtePart {
        query: select(&vec![None; columns]),
        result_columns: (0..columns as u64)
            .map(|i| ResultSetColumn {
                expr: Expr::Literal(first_literal + i),
                contains_aggregates: false,
            })
            .collect(),
        destination: QueryDestination::Unset,
    }
}

fn plan(columns: usize, union_all: bool) -> RecursiveCtePlan {
    RecursiveCtePlan {
        name: "cte".to_string(),
        input_table_id: 7,
        union_all,
        queue_order: vec![],
        initial_query: part(columns, 100),
        recursive_query: part(columns, 200),
        has_limit: false,
        has_offset: false,
    }
}

fn term(column: usize, order: SortOrder, nulls: Option<NullsOrder>) -> QueueTerm {
    QueueTerm {
        result_column_index: column,
        order,
        nulls,
        collation: None,
    }
}

/// A row of the queue: where a key has a NULL rank of its own, that comes
/// first, and the number of the row tells equal keys apart.
fn queue_row(queue: &QueueDestination, sequence: i64, row: &Row) -> Row {
    queue
        .index
        .columns
        .iter()
        .map(|column| match column.name {
            ColumnName::NullRank(i) => {
                let key = &queue.sort_keys[i];
                let null = row[key.result_column_index].is_none();
                let last = key.nulls_override == Some(NullsOrder::Last);
                Some((null == last) as i64)
            }
            ColumnName::Priority(i) => row[queue.sort_keys[i].result_column_index],
            ColumnName::Sequence => Some(sequence),
            ColumnName::Result(i) => row[i],
            ColumnName::Distinct(_) => panic!("no column of the queue"),
        })
        .collect()
}

fn precedes(columns: &[IndexColumn], a: &Row, b: &Row) -> bool {
    for (i, column) in columns.iter().enumerate() {
        if a[i] != b[i] {
            return match column.order {
                SortOrder::Asc => a[i] < b[i],
                SortOrder::Desc => a[i] > b[i],
            };
        }
    }
    false
}

/// Runs the code, with the first rows and the step from a row to more rows.
fn run(
    plan: &mut RecursiveCtePlan,
    limit: i64,
    offset: i64,
    initial: Vec<Row>,
    step: impl Fn(&Row) -> Vec<Row>,
) -> Vec<Row> {
    let mut program = ProgramBuilder::new();
    let (queue, result_row_regs) = emit_recursive_cte(&mut program, plan).unwrap();
    let place = |label: &Label| {
        program
            .items
            .iter()
            .position(|item| matches!(item, Item::Bind(l) if l == label))
            .unwrap()
    };
    let mut regs = vec![None; program.next_reg];
    let mut rows: Vec<Row> = vec![];
    let mut seen: Vec<Row> = vec![];
    let mut sequence = 0;
    let mut current: Row = vec![];
    let mut input: Row = vec![];
    let mut output: Vec<Row> = vec![];
    let mut insert = |rows: &mut Vec<Row>, row: Row| {
        if queue.seen_rows.is_some() {
            if seen.contains(&row) {
                return;
            }
            seen.push(row.clone());
        }
        sequence += 1;
        rows.push(queue_row(&queue, sequence, &row));
    };
    let mut pc = 0;
    while pc < program.items.len() {
        let item = &program.items[pc];
        pc += 1;
        match item {
            Item::Bind(_) => {}
            Item::Fragment(Fragment::InitLimit {
                limit_reg,
                offset_reg,
                ..
            }) => {
                if let Some(reg) = limit_reg {
                    regs[*reg] = Some(limit);
                }
                if let Some(reg) = offset_reg {
                    regs[*reg] = Some(offset);
                }
            }
            Item::Fragment(Fragment::InitialQuery) => {
                for row in &initial {
                    insert(&mut rows, row.clone());
                }
            }
            Item::Fragment(Fragment::RecursiveQuery) => {
                for row in step(&input) {
                    insert(&mut rows, row);
                }
            }
            Item::Fragment(Fragment::ColumnsToDestination { start_reg, count }) => {
                assert_eq!(*start_reg, result_row_regs);
                output.push(regs[*start_reg..*start_reg + *count].to_vec());
            }
            Item::Fragment(Fragment::Explain(_) | Fragment::EndExplain) => {}
            Item::Fragment(_) => panic!("unexpected fragment"),
            Item::Op(insn) => match insn {
                Insn::OpenPseudo { .. } | Insn::OpenEphemeral { .. } | Insn::Close { .. } => {}
                Insn::Rewind { pc_if_empty, .. } => match rows.first() {
                    None => pc = place(pc_if_empty),
                    Some(first) => {
                        current = first.clone();
                        for row in &rows {
                            if precedes(&queue.index.columns, row, &current) {
                                current = row.clone();
                            }
                        }
                    }
                },
                Insn::Column { column, dest, .. } => regs[*dest] = current[*column],
                Insn::IdxDelete {
                    start_reg,
                    num_regs,
                    ..
                } => {
                    let key = regs[*start_reg..*start_reg + *num_regs].to_vec();
                    rows.retain(|row| *row != key);
                }
                Insn::MakeRecord {
                    start_reg, count, ..
                } => {
                    let start = *start_reg as usize;
                    input = regs[start..start + *count as usize].to_vec();
                }
                Insn::IfPos {
                    reg,
                    target_pc,
                    decrement_by,
                } => {
                    let n = regs[*reg].unwrap();
                    if n > 0 {
                        regs[*reg] = Some(n - *decrement_by as i64);
                        pc = place(target_pc);
                    }
                }
                Insn::DecrJumpZero { reg, target_pc } => {
                    let n = regs[*reg].unwrap() - 1;
                    regs[*reg] = Some(n);
                    if n == 0 {
                        pc = place(target_pc);
                    }
                }
                Insn::Goto { target_pc } => pc = place(target_pc),
                _ => panic!("unexpected instruction"),
            },
        }
    }
    output
}

fn ones(rows: &[i64]) -> Vec<Row> {
    rows.iter().map(|n| vec![Some(*n)]).collect()
}

#[test]
fn rows_are_counted_up() {
    let step = |row: &Row| match row[0] {
        Some(n) if n < 5 => ones(&[n + 1]),
        _ => vec![],
    };
    let got = run(&mut plan(1, true), 0, 0, ones(&[1]), step);
    assert_eq!(got, ones(&[1, 2, 3, 4, 5]));
}

#[test]
fn an_endless_expression_is_limited() {
    let mut p = plan(1, true);
    p.has_limit = true;
    p.has_offset = true;
    let got = run(&mut p, 3, 2, ones(&[1]), |row| ones(&[row[0].unwrap() + 1]));
    assert_eq!(got, ones(&[3, 4, 5]));
}

#[test]
fn union_keeps_a_row_once() {
    let step = |row: &Row| ones(&[(row[0].unwrap() * 3) % 7]);
    let got = run(&mut plan(1, false), 0, 0, ones(&[1, 1]), step);
    assert_eq!(got, ones(&[1, 3, 2, 6, 4, 5]));
}

#[test]
fn the_queue_is_ordered() {
    // A tree whose nodes have two children, walked depth first.
    let mut p = plan(2, true);
    p.queue_order = vec![term(1, SortOrder::Desc, None)];
    let step = |row: &Row| {
        let (n, depth) = (row[0].unwrap(), row[1].unwrap());
        if depth < 2 {
            vec![
                vec![Some(2 * n), Some(depth + 1)],
                vec![Some(2 * n + 1), Some(depth + 1)],
            ]
        } else {
            vec![]
        }
    };
    let walk = |p: &mut RecursiveCtePlan| -> Vec<i64> {
        run(p, 0, 0, vec![vec![Some(1), Some(0)]], step)
            .iter()
            .map(|row| row[0].unwrap())
            .collect()
    };
    assert_eq!(walk(&mut p), [1, 2, 4, 5, 3, 6, 7]);
    p.queue_order = vec![term(1, SortOrder::Asc, None)];
    assert_eq!(walk(&mut p), [1, 2, 3, 4, 5, 6, 7]);
    p.queue_order = vec![term(1, SortOrder::Asc, None), term(0, SortOrder::Desc, None)];
    assert_eq!(walk(&mut p), [1, 3, 2, 7, 6, 5, 4]);
}

#[test]
fn nulls_go_where_they_are_asked_to() {
    let rows = vec![vec![Some(2)], vec![None], vec![Some(1)]];
    let walk = |order: SortOrder, nulls: Option<NullsOrder>| {
        let mut p = plan(1, true);
        p.queue_order = vec![term(0, order, nulls)];
        run(&mut p, 0, 0, rows.clone(), |_| vec![])
    };
    let first = vec![vec![None], vec![Some(1)], vec![Some(2)]];
    let last = vec![vec![Some(1)], vec![Some(2)], vec![None]];
    assert_eq!(walk(SortOrder::Asc, None), first);
    assert_eq!(walk(SortOrder::Asc, Some(NullsOrder::First)), first);
    assert_eq!(walk(SortOrder::Asc, Some(NullsOrder::Last)), last);
    let down = vec![vec![None], vec![Some(2)], vec![Some(1)]];
    assert_eq!(walk(SortOrder::Desc, Some(NullsOrder::First)), down);
}

#[test]
fn queue_columns_are_named() {
    let mut p = plan(1, false);
    p.initial_query.query = select(&[Some(CollationSeq::NoCase)]);
    p.queue_order = vec![term(0, SortOrder::Asc, Some(NullsOrder::Last))];
    let mut program = ProgramBuilder::new();
    let (queue, _) = emit_recursive_cte(&mut program, &mut p).unwrap();
    let names: Vec<String> = queue.index.columns.iter().map(|c| c.name.name()).collect();
    assert_eq!(names, ["null-rank-0", "priority-0", "sequence", "result-0"]);
    assert_eq!(queue.index.columns[1].collation, Some(CollationSeq::NoCase));
    assert_eq!(queue.index.columns[3].collation, None);
    let seen = queue.seen_rows.unwrap();
    assert_eq!(seen.index.columns[0].name.name(), "distinct-0");
    assert_eq!(seen.index.columns[0].collation, Some(CollationSeq::NoCase));
    assert_eq!(queue.index.name, "recursive-queue-cte");
    assert!(queue.index.unique);
    assert_eq!(seen.index.name, "recursive-distinct-cte");
    assert!(!seen.index.unique);
}

fn is_queue(destination: &QueryDestination, queue: &QueueDestination) -> bool {
    match destination {
        QueryDestination::Unset => false,
        QueryDestination::RecursiveCteQueue(q) => {
            q.cursor_id == queue.cursor_id
                && q.index.name == queue.index.name
                && q.index.columns == queue.index.columns
                && q.sort_keys == queue.sort_keys
                && q.seen_rows.as_ref().map(|s| s.cursor_id)
                    == queue.seen_rows.as_ref().map(|s| s.cursor_id)
        }
    }
}

#[test]
fn both_parts_go_to_the_queue() {
    let mut p = plan(2, false);
    p.queue_order = vec![
        term(1, SortOrder::Desc, Some(NullsOrder::First)),
        term(0, SortOrder::Asc, Some(NullsOrder::First)),
    ];
    let mut program = ProgramBuilder::new();
    let (queue, regs) = emit_recursive_cte(&mut program, &mut p).unwrap();
    assert!(is_queue(&p.initial_query.destination, &queue));
    assert!(is_queue(&p.recursive_query.destination, &queue));
    assert_eq!(queue.sort_keys[0].nulls_override, Some(NullsOrder::First));
    assert_eq!(queue.sort_keys[1].nulls_override, None);
    // The rows of the result are those of the first part.
    assert_eq!(program.reg_result_cols_start, Some(regs));
    assert!(matches!(
        program.result_columns.as_slice(),
        [
            ResultSetColumn { expr: Expr::Literal(100), .. },
            ResultSetColumn { expr: Expr::Literal(101), .. }
        ]
    ));
}

#[test]
fn the_input_has_one_cursor() {
    let mut program = ProgramBuilder::new();
    let (first, _) = emit_recursive_cte(&mut program, &mut plan(1, true)).unwrap();
    assert_eq!(first.cursor_id, 1);
    assert_eq!(program.next_cursor, 2);
    // The table has a cursor by now.
    let (second, _) = emit_recursive_cte(&mut program, &mut plan(1, true)).unwrap();
    assert_eq!(second.cursor_id, 2);
    assert_eq!(program.next_cursor, 3);
    let mut other = plan(1, true);
    other.input_table_id = 8;
    let (third, _) = emit_recursive_cte(&mut program, &mut other).unwrap();
    assert_eq!(third.cursor_id, 4);
}

#[test]
fn code_is_written_for_columns_that_were_made() {
    let mut p = plan(1, true);
    let mut program = ProgramBuilder::new();
    let column = |name: ColumnName, pos_in_table: usize| IndexColumn {
        name,
        order: SortOrder::Asc,
        pos_in_table,
        collation: None,
    };
    let columns = vec![
        column(ColumnName::Sequence, 0),
        column(ColumnName::Result(0), 1),
    ];
    let (queue, regs) = write_recursive_cte(&mut program, &mut p, columns, vec![], vec![]);
    assert_eq!((queue.cursor_id, regs), (1, 3));
    let mut again = ProgramBuilder::new();
    emit_recursive_cte(&mut again, &mut plan(1, true)).unwrap();
    assert_eq!(program.items.len(), again.items.len());
}

#[test]
fn collations_come_from_the_first_query_that_has_one() {
    let compound = QueryPart::CompoundSelect {
        left: vec![
            SelectCollations {
                first_values: vec![None],
                result_columns: vec![Some(CollationSeq::Binary)],
            },
            SelectCollations {
                first_values: vec![],
                result_columns: vec![Some(CollationSeq::Rtrim)],
            },
        ],
        right_most: SelectCollations {
            first_values: vec![],
            result_columns: vec![Some(CollationSeq::NoCase)],
        },
    };
    // A VALUES clause hides the columns behind it.
    assert_eq!(
        recursive_cte_query_result_column_collation(&compound, 0).unwrap(),
        Some(CollationSeq::Rtrim)
    );
    let mut p = plan(1, true);
    p.recursive_query.query = compound;
    assert_eq!(
        recursive_cte_result_column_collation(&p, 0).unwrap(),
        Some(CollationSeq::Rtrim)
    );
    p.initial_query.query = select(&[Some(CollationSeq::NoCase)]);
    assert_eq!(
        recursive_cte_result_column_collation(&p, 0).unwrap(),
        Some(CollationSeq::NoCase)
    );
}

#[test]
fn a_collation_is_asked_of_queries_only() {
    let mut p = plan(1, true);
    p.recursive_query.query = QueryPart::Other;
    assert!(recursive_cte_result_column_collation(&p, 0).is_err());
    p.initial_query.query = select(&[Some(CollationSeq::NoCase)]);
    assert_eq!(
        recursive_cte_result_column_collation(&p, 0).unwrap(),
        Some(CollationSeq::NoCase)
    );
}

#[test]
fn both_parts_are_queries() {
    for initial in [true, false] {
        let mut p = plan(1, true);
        if initial {
            p.initial_query.query = QueryPart::Other;
        } else {
            p.recursive_query.query = QueryPart::Other;
        }
        let mut program = ProgramBuilder::new();
        match emit_recursive_cte(&mut program, &mut p) {
            Err(LimboError::InternalError(m)) => {
                assert_eq!(m, "recursive CTE query is not a SELECT")
            }
            _ => panic!("expected an error"),
        }
    }
}
