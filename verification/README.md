# tursokit

Parts of an SQL database and of what stands around it, with contracts that Verus
proves.

The library is under `src/`:

- `translate`: code for window functions and recursive expressions, and the
  planning of queries with windows. The code is a row of instructions, and the
  laws in `window_laws`, `window_rewrite_laws`, `window_plan_laws` and
  `window_planned_laws` say what holds of all of it.
- `dialect`: the functions and tables that SQLite's dialect knows.
- `log`: how the logical log is written down, and where encrypted chunks go.
- `pg`: what a PostgreSQL client sees: scalar functions, the checks of input, the
  catalog's definitions, wire types, parameters and command tags.
- `driver`: a driver for remote databases, without the network: values on the
  wire, parameters, rows, statements, transactions and the state of connections.
- `differential`: workloads that are made of random choices.
- `percentile`, `memory`, `engine`, `profile`: aggregates, allocation sites and
  collections that may fail to grow, the statements of a text, a benchmark.
- `text`, `scan`, `names`, `value`, `error`, `function`: what the others are made of.

Floating-point numbers are kept by their bits. What is computed with them, what
reads the network, the environment or the clock, and what belongs to a thread is
under `app/`.

Functions of other crates are called through a few trusted items, each with a
comment that says what is believed of it: in `text`, `log::serializer`,
`driver::blob` and `driver::params`.
