//! What a statement is reported as when it has been executed.

use vstd::prelude::*;
use crate::scan;
use crate::text;
use crate::text::{chars_of, same, starts_with, string_of, to_lowercase, to_uppercase};

verus! {

/// What the completion of a command says: the command, and with it the number
/// of an object and the count of rows where the command has them.
pub struct CommandTag {
    pub command: &'static str,
    pub oid: Option<u32>,
    pub rows: Option<usize>,
}

/// A command tag, by what it holds.
pub struct TagModel {
    pub command: Seq<char>,
    pub oid: Option<u32>,
    pub rows: Option<usize>,
}

impl View for CommandTag {
    type V = TagModel;

    open spec fn view(&self) -> TagModel {
        TagModel { command: self.command@, oid: self.oid, rows: self.rows }
    }
}

pub open spec fn plain_tag(command: Seq<char>) -> TagModel {
    TagModel { command, oid: None, rows: None }
}

pub open spec fn counting_tag(command: Seq<char>, rows: usize) -> TagModel {
    TagModel { command, oid: None, rows: Some(rows) }
}

impl CommandTag {
    fn plain(command: &'static str) -> (t: CommandTag)
        ensures
            t@ == plain_tag(command@),
    {
        CommandTag { command, oid: None, rows: None }
    }

    fn counting(command: &'static str, rows: usize) -> (t: CommandTag)
        ensures
            t@ == counting_tag(command@, rows),
    {
        CommandTag { command, oid: None, rows: Some(rows) }
    }
}

fn is_word(word: &Vec<char>, expected: &str) -> (r: bool)
    ensures
        r == (word@ == expected@),
{
    same(string_of(word.as_slice()).as_str(), expected)
}

/// A text without the white space and the semicolons at its end.
pub open spec fn without_trailing(s: Seq<char>) -> Seq<char>
    decreases s.len(),
{
    if s.len() > 0 && (scan::is_white_space(s.last()) || s.last() == ';') {
        without_trailing(s.drop_last())
    } else {
        s
    }
}

fn strip_trailing(v: &Vec<char>) -> (r: Vec<char>)
    ensures
        r@ == without_trailing(v@),
{
    let mut n: usize = v.len();
    assert(v@.take(n as int) =~= v@);
    while n > 0 && (scan::white_space(v[n - 1]) || v[n - 1] == ';')
        invariant
            n <= v@.len(),
            without_trailing(v@) == without_trailing(v@.take(n as int)),
        decreases n,
    {
        assert(v@.take(n as int).last() == v@[n - 1]);
        assert(v@.take(n as int).drop_last() =~= v@.take(n - 1));
        n = n - 1;
    }
    assert(n > 0 ==> v@.take(n as int).last() == v@[n - 1]);
    let r = scan::part(v, 0, n);
    assert(r@ =~= v@.take(n as int));
    r
}

/// Whether a statement in upper case ends with the words `WITH NO DATA`,
/// before white space and terminators.
pub open spec fn with_no_data(upper: Seq<char>) -> bool {
    let w = scan::words(without_trailing(upper));
    let n = w.len() as int;
    n >= 3 && w[n - 1] == "DATA"@ && w[n - 2] == "NO"@ && w[n - 3] == "WITH"@
}

/// Whether a statement in upper case ends with the words `WITH NO DATA`,
/// before white space and terminators.
pub fn ends_with_with_no_data(upper: &str) -> (r: bool)
    ensures
        r == with_no_data(upper@),
{
    let body = strip_trailing(&chars_of(upper));
    let w = scan::split_words(&body);
    let n: usize = w.len();
    proof {
        assert(scan::views(w@).len() == n);
    }
    n >= 3 && is_word(&w[n - 1], "DATA") && is_word(&w[n - 2], "NO") && is_word(&w[n - 3], "WITH")
}

pub open spec fn is_table_modifier(word: Seq<char>) -> bool {
    word == "TEMP"@ || word == "TEMPORARY"@ || word == "UNLOGGED"@ || word == "GLOBAL"@ || word
        == "LOCAL"@
}

fn table_modifier(word: &Vec<char>) -> (r: bool)
    ensures
        r == is_table_modifier(word@),
{
    is_word(word, "TEMP") || is_word(word, "TEMPORARY") || is_word(word, "UNLOGGED") || is_word(
        word,
        "GLOBAL",
    ) || is_word(word, "LOCAL")
}

/// Where the first word from `from` on stands that is no modifier of a table.
pub open spec fn after_modifiers(w: Seq<Seq<char>>, from: nat) -> nat
    decreases w.len() - from,
{
    if from < w.len() && is_table_modifier(w[from as int]) {
        after_modifiers(w, from + 1)
    } else {
        from
    }
}

/// Whether a word opens a quoted name and does not close it.
pub open spec fn opens_quote(word: Seq<char>) -> bool {
    word.len() > 0 && word[0] == '"' && (word.len() == 1 || word.last() != '"')
}

/// Where the name of a table stands whose place in the words is `at`, behind
/// `IF NOT EXISTS` where that stands there; none where those words are not
/// complete.
pub open spec fn name_at(w: Seq<Seq<char>>, at: nat) -> Option<nat> {
    if at < w.len() && w[at as int] == "IF"@ {
        if at + 2 < w.len() && w[at as int + 1] == "NOT"@ && w[at as int + 2] == "EXISTS"@ {
            Some(at + 3)
        } else {
            None
        }
    } else {
        Some(at)
    }
}

/// Whether the words are those of `CREATE TABLE <name> AS`.
pub open spec fn words_create_table_as(w: Seq<Seq<char>>) -> bool {
    let table = after_modifiers(w, 1);
    &&& w.len() > 0 && w[0] == "CREATE"@
    &&& table < w.len() && w[table as int] == "TABLE"@
    &&& match name_at(w, table + 1) {
        None => false,
        Some(name) => name + 1 < w.len() && !opens_quote(w[name as int]) && (w[name as int + 1] == "AS"@
            || text::starts(w[name as int + 1], "AS("@)),
    }
}

/// Whether a statement in upper case creates a table from a query.
pub open spec fn create_table_as(upper: Seq<char>) -> bool {
    words_create_table_as(scan::words(upper))
}

/// Whether a statement in upper case reads `CREATE [TEMP|UNLOGGED] TABLE
/// [IF NOT EXISTS] <name> AS ...`. A quoted name with white space in it is not
/// recognized.
pub fn is_create_table_as(upper: &str) -> (r: bool)
    ensures
        r == create_table_as(upper@),
{
    let w = scan::split_words(&chars_of(upper));
    let n: usize = w.len();
    let ghost all = scan::words(upper@);
    assert(all.len() == n);
    assert(forall|i: int| 0 <= i < n ==> all[i] == #[trigger] w@[i]@);
    if n == 0 || !is_word(&w[0], "CREATE") {
        return false;
    }
    let mut at: usize = 1;
    while at < n && table_modifier(&w[at])
        invariant
            1 <= at <= n,
            n == w@.len(),
            all.len() == n,
            forall|i: int| 0 <= i < n ==> all[i] == #[trigger] w@[i]@,
            after_modifiers(all, 1) == after_modifiers(all, at as nat),
        decreases n - at,
    {
        at = at + 1;
    }
    if at >= n || !is_word(&w[at], "TABLE") {
        return false;
    }
    let mut name: usize = at + 1;
    if name < n && is_word(&w[name], "IF") {
        if n - name <= 2 || !is_word(&w[name + 1], "NOT") || !is_word(&w[name + 2], "EXISTS") {
            return false;
        }
        name = name + 3;
    }
    if name >= n || n - name <= 1 {
        return false;
    }
    let quoted = &w[name];
    if quoted.len() > 0 && quoted[0] == '"' && (quoted.len() == 1 || quoted[quoted.len() - 1]
        != '"') {
        return false;
    }
    let next = string_of(w[name + 1].as_slice());
    same(next.as_str(), "AS") || starts_with(next.as_str(), "AS(")
}

/// The tag of a statement in upper case that changed `rows` rows. A table that
/// is created from a query is reported as the query, with the rows that it
/// gave, unless it was created without data. A `SELECT` that is reported at all
/// is one that fills a table.
pub open spec fn statement_tag(upper: Seq<char>, rows: usize) -> TagModel {
    if text::starts(upper, "INSERT"@) {
        TagModel { command: "INSERT"@, oid: Some(0), rows: Some(rows) }
    } else if text::starts(upper, "UPDATE"@) {
        counting_tag("UPDATE"@, rows)
    } else if text::starts(upper, "DELETE"@) || text::starts(upper, "TRUNCATE"@) {
        counting_tag("DELETE"@, rows)
    } else if text::starts(upper, "CREATE VIEW"@) {
        plain_tag("CREATE VIEW"@)
    } else if text::starts(upper, "CREATE INDEX"@) {
        plain_tag("CREATE INDEX"@)
    } else if text::starts(upper, "CREATE SCHEMA"@) {
        plain_tag("CREATE SCHEMA"@)
    } else if create_table_as(upper) {
        if with_no_data(upper) {
            plain_tag("CREATE TABLE AS"@)
        } else {
            counting_tag("SELECT"@, rows)
        }
    } else if text::starts(upper, "CREATE"@) {
        plain_tag("CREATE TABLE"@)
    } else if text::starts(upper, "DROP VIEW"@) {
        plain_tag("DROP VIEW"@)
    } else if text::starts(upper, "DROP INDEX"@) {
        plain_tag("DROP INDEX"@)
    } else if text::starts(upper, "DROP SCHEMA"@) {
        plain_tag("DROP SCHEMA"@)
    } else if text::starts(upper, "DROP"@) {
        plain_tag("DROP TABLE"@)
    } else if text::starts(upper, "ALTER"@) {
        plain_tag("ALTER TABLE"@)
    } else if text::starts(upper, "BEGIN"@) || text::starts(upper, "START"@) {
        plain_tag("BEGIN"@)
    } else if text::starts(upper, "COMMIT"@) {
        plain_tag("COMMIT"@)
    } else if text::starts(upper, "ROLLBACK"@) {
        plain_tag("ROLLBACK"@)
    } else if text::starts(upper, "SAVEPOINT"@) {
        plain_tag("SAVEPOINT"@)
    } else if text::starts(upper, "RELEASE"@) {
        plain_tag("RELEASE"@)
    } else if text::starts(upper, "SET"@) {
        plain_tag("SET"@)
    } else if text::starts(upper, "COPY"@) {
        counting_tag("COPY"@, rows)
    } else if text::starts(upper, "COMMENT"@) {
        plain_tag("COMMENT"@)
    } else if text::starts(upper, "SELECT"@) || text::starts(upper, "WITH"@) {
        counting_tag("SELECT"@, rows)
    } else {
        plain_tag("OK"@)
    }
}

/// The tag of a statement in upper case.
pub fn upper_command_tag(upper: &str, affected_rows: usize) -> (r: CommandTag)
    ensures
        r@ == statement_tag(upper@, affected_rows),
{
    if starts_with(upper, "INSERT") {
        CommandTag { command: "INSERT", oid: Some(0), rows: Some(affected_rows) }
    } else if starts_with(upper, "UPDATE") {
        CommandTag::counting("UPDATE", affected_rows)
    } else if starts_with(upper, "DELETE") || starts_with(upper, "TRUNCATE") {
        CommandTag::counting("DELETE", affected_rows)
    } else if starts_with(upper, "CREATE VIEW") {
        CommandTag::plain("CREATE VIEW")
    } else if starts_with(upper, "CREATE INDEX") {
        CommandTag::plain("CREATE INDEX")
    } else if starts_with(upper, "CREATE SCHEMA") {
        CommandTag::plain("CREATE SCHEMA")
    } else if is_create_table_as(upper) {
        if ends_with_with_no_data(upper) {
            CommandTag::plain("CREATE TABLE AS")
        } else {
            CommandTag::counting("SELECT", affected_rows)
        }
    } else if starts_with(upper, "CREATE") {
        CommandTag::plain("CREATE TABLE")
    } else if starts_with(upper, "DROP VIEW") {
        CommandTag::plain("DROP VIEW")
    } else if starts_with(upper, "DROP INDEX") {
        CommandTag::plain("DROP INDEX")
    } else if starts_with(upper, "DROP SCHEMA") {
        CommandTag::plain("DROP SCHEMA")
    } else if starts_with(upper, "DROP") {
        CommandTag::plain("DROP TABLE")
    } else if starts_with(upper, "ALTER") {
        CommandTag::plain("ALTER TABLE")
    } else if starts_with(upper, "BEGIN") || starts_with(upper, "START") {
        CommandTag::plain("BEGIN")
    } else if starts_with(upper, "COMMIT") {
        CommandTag::plain("COMMIT")
    } else if starts_with(upper, "ROLLBACK") {
        CommandTag::plain("ROLLBACK")
    } else if starts_with(upper, "SAVEPOINT") {
        CommandTag::plain("SAVEPOINT")
    } else if starts_with(upper, "RELEASE") {
        CommandTag::plain("RELEASE")
    } else if starts_with(upper, "SET") {
        CommandTag::plain("SET")
    } else if starts_with(upper, "COPY") {
        CommandTag::counting("COPY", affected_rows)
    } else if starts_with(upper, "COMMENT") {
        CommandTag::plain("COMMENT")
    } else if starts_with(upper, "SELECT") || starts_with(upper, "WITH") {
        CommandTag::counting("SELECT", affected_rows)
    } else {
        CommandTag::plain("OK")
    }
}

/// A text without the white space around it.
pub fn trim_text(s: &str) -> (r: String)
    ensures
        r@ == scan::trim(s@),
{
    string_of(scan::trimmed(&chars_of(s)).as_slice())
}

/// The tag of a statement that changed `affected_rows` rows.
pub fn command_tag(query: &str, affected_rows: usize) -> (r: CommandTag)
    ensures
        r@ == statement_tag(text::uppercase(scan::trim(query@)), affected_rows),
        text::is_ascii_text(scan::trim(query@)) ==> r@ == statement_tag(
            text::ascii_upper(scan::trim(query@)),
            affected_rows,
        ),
{
    upper_command_tag(to_uppercase(trim_text(query).as_str()).as_str(), affected_rows)
}

/// Whether a statement in upper case is answered with a tag though it is
/// prepared as a query.
pub open spec fn answered_by_tag(upper: Seq<char>) -> bool {
    text::starts(upper, "COPY"@) || text::starts(upper, "CREATE SCHEMA"@) || text::starts(
        upper,
        "DROP SCHEMA"@,
    ) || text::starts(upper, "REFRESH MATERIALIZED VIEW"@) || text::starts(upper, "COMMENT"@)
}

/// Whether a statement in upper case is answered with a tag though it is
/// prepared as a query.
pub fn is_upper_non_query(upper: &str) -> (r: bool)
    ensures
        r == answered_by_tag(upper@),
{
    starts_with(upper, "COPY") || starts_with(upper, "CREATE SCHEMA") || starts_with(
        upper,
        "DROP SCHEMA",
    ) || starts_with(upper, "REFRESH MATERIALIZED VIEW") || starts_with(upper, "COMMENT")
}

/// Whether a statement is answered with a tag though it is prepared as a query.
pub fn is_pg_non_query(sql: &str) -> (r: bool)
    ensures
        r == answered_by_tag(text::uppercase(scan::trim(sql@))),
        text::is_ascii_text(scan::trim(sql@)) ==> r == answered_by_tag(
            text::ascii_upper(scan::trim(sql@)),
        ),
{
    is_upper_non_query(to_uppercase(trim_text(sql).as_str()).as_str())
}

/// Whether a statement with this many result columns is answered with a tag
/// rather than with rows.
pub fn answers_with_tag(columns: usize, sql: &str) -> (r: bool)
    ensures
        r == (columns == 0 || answered_by_tag(text::uppercase(scan::trim(sql@)))),
{
    columns == 0 || is_pg_non_query(sql)
}

/// A text without the quotes around it.
pub open spec fn without_leading_quotes(s: Seq<char>) -> Seq<char>
    decreases s.len(),
{
    if s.len() > 0 && s[0] == '"' {
        without_leading_quotes(s.skip(1))
    } else {
        s
    }
}

pub open spec fn without_trailing_quotes(s: Seq<char>) -> Seq<char>
    decreases s.len(),
{
    if s.len() > 0 && s.last() == '"' {
        without_trailing_quotes(s.drop_last())
    } else {
        s
    }
}

/// A text without the double quotes on both sides.
pub open spec fn unquoted(s: Seq<char>) -> Seq<char> {
    without_trailing_quotes(without_leading_quotes(s))
}

fn strip_quotes(v: &Vec<char>) -> (r: Vec<char>)
    ensures
        r@ == unquoted(v@),
{
    let mut start: usize = 0;
    assert(v@.skip(0) =~= v@);
    while start < v.len() && v[start] == '"'
        invariant
            start <= v@.len(),
            without_leading_quotes(v@) == without_leading_quotes(v@.skip(start as int)),
        decreases v@.len() - start,
    {
        assert(v@.skip(start as int)[0] == v@[start as int]);
        assert(v@.skip(start as int).skip(1) =~= v@.skip(start + 1));
        start = start + 1;
    }
    let ghost rest = v@.skip(start as int);
    assert(start < v@.len() ==> rest[0] == v@[start as int]);
    assert(without_leading_quotes(v@) == rest);
    let mut end: usize = v.len();
    assert(rest.take(end - start) =~= rest);
    while end > start && v[end - 1] == '"'
        invariant
            start <= end <= v@.len(),
            rest == v@.skip(start as int),
            without_trailing_quotes(rest) == without_trailing_quotes(rest.take(end - start)),
        decreases end,
    {
        assert(rest.take(end - start).last() == v@[end - 1]);
        assert(rest.take(end - start).drop_last() =~= rest.take(end - start - 1));
        end = end - 1;
    }
    assert(end > start ==> rest.take(end - start).last() == v@[end - 1]);
    let r = scan::part(v, start, end);
    assert(r@ =~= rest.take(end - start));
    r
}

/// A text without a prefix, trimmed; the text itself where it does not start
/// with the prefix.
pub open spec fn after_prefix(s: Seq<char>, prefix: Seq<char>) -> Option<Seq<char>> {
    if text::starts(s, prefix) {
        Some(scan::trim(s.skip(prefix.len() as int)))
    } else {
        None
    }
}

fn strip_prefix_and_trim(s: &Vec<char>, prefix: &str) -> (r: Option<Vec<char>>)
    ensures
        match r {
            Some(v) => after_prefix(s@, prefix@) == Some(v@),
            None => after_prefix(s@, prefix@) is None,
        },
{
    let whole = string_of(s.as_slice());
    if starts_with(whole.as_str(), prefix) {
        let n: usize = chars_of(prefix).len();
        let rest = scan::part(s, n, s.len());
        assert(rest@ =~= s@.skip(n as int));
        Some(scan::trimmed(&rest))
    } else {
        None
    }
}

/// The schema that a statement in lower case drops, if it is a `DROP SCHEMA`
/// of a schema that has a file of its own.
pub open spec fn dropped_schema(lower: Seq<char>) -> Option<Seq<char>> {
    match after_prefix(lower, "drop schema"@) {
        None => None,
        Some(target) => {
            let target = match after_prefix(target, "if exists"@) {
                Some(rest) => rest,
                None => target,
            };
            let words = scan::words(target);
            if words.len() == 0 {
                None
            } else {
                let name = unquoted(words[0]);
                if name.len() == 0 || name == "public"@ {
                    None
                } else {
                    Some(name)
                }
            }
        },
    }
}

/// The schema that a statement in lower case drops.
pub fn lower_dropped_schema(lower: &str) -> (r: Option<String>)
    ensures
        match r {
            Some(name) => dropped_schema(lower@) == Some(name@),
            None => dropped_schema(lower@) is None,
        },
{
    let target = match strip_prefix_and_trim(&chars_of(lower), "drop schema") {
        None => return None,
        Some(target) => target,
    };
    let target = match strip_prefix_and_trim(&target, "if exists") {
        Some(rest) => rest,
        None => target,
    };
    let words = scan::split_words(&target);
    assert(scan::views(words@).len() == words@.len());
    if words.len() == 0 {
        return None;
    }
    let name = strip_quotes(&words[0]);
    if name.len() == 0 || is_word(&name, "public") {
        None
    } else {
        Some(string_of(name.as_slice()))
    }
}

/// The file of a schema, beside the file of the database.
pub open spec fn schema_file(name: Seq<char>) -> Seq<char> {
    "turso-postgres-schema-"@ + name + ".db"@
}

/// The name of the file that a statement leaves without use: that of the schema
/// it drops. A database in memory has no files.
pub fn dropped_schema_file(db_file: &str, query: &str) -> (r: Option<String>)
    ensures
        match r {
            Some(file) => db_file@ != ":memory:"@ && match dropped_schema(
                text::lowercase(scan::trim(query@)),
            ) {
                Some(name) => file@ == schema_file(name),
                None => false,
            },
            None => db_file@ == ":memory:"@ || dropped_schema(
                text::lowercase(scan::trim(query@)),
            ) is None,
        },
{
    if same(db_file, ":memory:") {
        return None;
    }
    match lower_dropped_schema(to_lowercase(trim_text(query).as_str()).as_str()) {
        None => None,
        Some(name) => Some(text::join3("turso-postgres-schema-", name.as_str(), ".db")),
    }
}

} // verus!
