//! What the completion of a command says of the statement.

use vstd::prelude::*;
use crate::pg::command;
use crate::scan;
use crate::text;

verus! {

/// Whether a command counts rows.
pub open spec fn counts(name: Seq<char>) -> bool {
    name == "INSERT"@ || name == "UPDATE"@ || name == "DELETE"@ || name == "SELECT"@ || name
        == "COPY"@
}

/// A tag carries the count of rows exactly where its command counts them, and the
/// number of an object exactly for an insertion.
#[verifier::rlimit(60)]
pub proof fn tags_count_what_commands_count(upper: Seq<char>, rows: usize)
    ensures
        ({
            let tag = command::statement_tag(upper, rows);
            &&& tag.rows == if counts(tag.command) {
                Some(rows)
            } else {
                None
            }
            &&& tag.oid == if tag.command == "INSERT"@ {
                Some(0u32)
            } else {
                None
            }
        }),
{
    first_letters();
    let tag = command::statement_tag(upper, rows);
    assert(tag.command[0] == tag.command[0]);
}

proof fn first_letters()
    ensures
        "INSERT"@.len() == 6 && "INSERT"@[0] == 'I',
        "UPDATE"@.len() == 6 && "UPDATE"@[0] == 'U',
        "DELETE"@.len() == 6 && "DELETE"@[0] == 'D',
        "SELECT"@.len() == 6 && "SELECT"@[0] == 'S',
        "COPY"@.len() == 4,
        "CREATE VIEW"@.len() == 11,
        "CREATE INDEX"@.len() == 12,
        "CREATE SCHEMA"@.len() == 13,
        "CREATE TABLE AS"@.len() == 15,
        "CREATE TABLE"@.len() == 12,
        "DROP VIEW"@.len() == 9,
        "DROP INDEX"@.len() == 10,
        "DROP SCHEMA"@.len() == 11,
        "DROP TABLE"@.len() == 10,
        "ALTER TABLE"@.len() == 11,
        "BEGIN"@.len() == 5,
        "COMMIT"@.len() == 6 && "COMMIT"@[0] == 'C',
        "ROLLBACK"@.len() == 8,
        "SAVEPOINT"@.len() == 9,
        "RELEASE"@.len() == 7,
        "SET"@.len() == 3,
        "COMMENT"@.len() == 7,
        "OK"@.len() == 2,
{
    reveal_strlit("INSERT");
    reveal_strlit("UPDATE");
    reveal_strlit("DELETE");
    reveal_strlit("SELECT");
    reveal_strlit("COPY");
    reveal_strlit("CREATE VIEW");
    reveal_strlit("CREATE INDEX");
    reveal_strlit("CREATE SCHEMA");
    reveal_strlit("CREATE TABLE AS");
    reveal_strlit("CREATE TABLE");
    reveal_strlit("DROP VIEW");
    reveal_strlit("DROP INDEX");
    reveal_strlit("DROP SCHEMA");
    reveal_strlit("DROP TABLE");
    reveal_strlit("ALTER TABLE");
    reveal_strlit("BEGIN");
    reveal_strlit("COMMIT");
    reveal_strlit("ROLLBACK");
    reveal_strlit("SAVEPOINT");
    reveal_strlit("RELEASE");
    reveal_strlit("SET");
    reveal_strlit("COMMENT");
    reveal_strlit("OK");
}

/// A tag names the statement: the statement starts with the command, but for those
/// that are reported as others. A truncation is reported as a deletion, a query
/// with common table expressions or one that fills a new table as a selection, the
/// start of a transaction as its beginning, and what is created, dropped or altered
/// as a table where it is nothing else that has a tag.
pub proof fn tags_name_their_statement(upper: Seq<char>, rows: usize)
    ensures
        ({
            let name = command::statement_tag(upper, rows).command;
            ||| text::starts(upper, name)
            ||| name == "DELETE"@ && text::starts(upper, "TRUNCATE"@)
            ||| name == "SELECT"@ && (text::starts(upper, "WITH"@) || command::create_table_as(
                upper,
            ))
            ||| name == "CREATE TABLE AS"@ && command::create_table_as(upper)
                && command::with_no_data(upper)
            ||| name == "BEGIN"@ && text::starts(upper, "START"@)
            ||| name == "CREATE TABLE"@ && text::starts(upper, "CREATE"@)
            ||| name == "DROP TABLE"@ && text::starts(upper, "DROP"@)
            ||| name == "ALTER TABLE"@ && text::starts(upper, "ALTER"@)
            ||| name == "OK"@
        }),
{
}

/// Statements that end a transaction or part of one are reported as what they do,
/// whatever follows the word.
#[verifier::rlimit(60)]
pub proof fn transactions_are_reported_as_what_they_do(upper: Seq<char>, rows: usize)
    ensures
        text::starts(upper, "COMMIT"@) ==> command::statement_tag(upper, rows).command
            == "COMMIT"@,
        text::starts(upper, "ROLLBACK"@) ==> command::statement_tag(upper, rows).command
            == "ROLLBACK"@,
        text::starts(upper, "SAVEPOINT"@) ==> command::statement_tag(upper, rows).command
            == "SAVEPOINT"@,
        text::starts(upper, "RELEASE"@) ==> command::statement_tag(upper, rows).command
            == "RELEASE"@,
        text::starts(upper, "BEGIN"@) ==> command::statement_tag(upper, rows).command
            == "BEGIN"@,
        text::starts(upper, "SET"@) ==> command::statement_tag(upper, rows).command == "SET"@,
        text::starts(upper, "UPDATE"@) ==> command::statement_tag(upper, rows).command
            == "UPDATE"@,
        text::starts(upper, "DELETE"@) ==> command::statement_tag(upper, rows).command
            == "DELETE"@,
        text::starts(upper, "INSERT"@) ==> command::statement_tag(upper, rows).command
            == "INSERT"@,
{
    openings();
    openings_differ(upper);
}

proof fn openings()
    ensures
        "INSERT"@.len() == 6 && "INSERT"@[0] == 'I',
        "UPDATE"@.len() == 6 && "UPDATE"@[0] == 'U',
        "DELETE"@.len() == 6 && "DELETE"@[0] == 'D' && "DELETE"@[1] == 'E',
        "TRUNCATE"@.len() == 8 && "TRUNCATE"@[0] == 'T',
        "CREATE"@.len() == 6 && "CREATE"@[0] == 'C' && "CREATE"@[1] == 'R',
        "CREATE VIEW"@.len() == 11 && "CREATE VIEW"@[0] == 'C' && "CREATE VIEW"@[1] == 'R',
        "CREATE INDEX"@.len() == 12 && "CREATE INDEX"@[0] == 'C' && "CREATE INDEX"@[1] == 'R',
        "CREATE SCHEMA"@.len() == 13 && "CREATE SCHEMA"@[0] == 'C' && "CREATE SCHEMA"@[1] == 'R',
        "DROP"@.len() == 4 && "DROP"@[0] == 'D' && "DROP"@[1] == 'R',
        "DROP VIEW"@.len() == 9 && "DROP VIEW"@[0] == 'D' && "DROP VIEW"@[1] == 'R',
        "DROP INDEX"@.len() == 10 && "DROP INDEX"@[0] == 'D' && "DROP INDEX"@[1] == 'R',
        "DROP SCHEMA"@.len() == 11 && "DROP SCHEMA"@[0] == 'D' && "DROP SCHEMA"@[1] == 'R',
        "ALTER"@.len() == 5 && "ALTER"@[0] == 'A',
        "BEGIN"@.len() == 5 && "BEGIN"@[0] == 'B' && "BEGIN"@[1] == 'E',
        "START"@.len() == 5 && "START"@[0] == 'S' && "START"@[1] == 'T',
        "COMMIT"@.len() == 6 && "COMMIT"@[0] == 'C' && "COMMIT"@[1] == 'O',
        "ROLLBACK"@.len() == 8 && "ROLLBACK"@[0] == 'R' && "ROLLBACK"@[1] == 'O',
        "SAVEPOINT"@.len() == 9 && "SAVEPOINT"@[0] == 'S' && "SAVEPOINT"@[1] == 'A',
        "RELEASE"@.len() == 7 && "RELEASE"@[0] == 'R' && "RELEASE"@[1] == 'E',
        "SET"@.len() == 3 && "SET"@[0] == 'S' && "SET"@[1] == 'E',
{
    reveal_strlit("INSERT");
    reveal_strlit("UPDATE");
    reveal_strlit("DELETE");
    reveal_strlit("TRUNCATE");
    reveal_strlit("CREATE");
    reveal_strlit("CREATE VIEW");
    reveal_strlit("CREATE INDEX");
    reveal_strlit("CREATE SCHEMA");
    reveal_strlit("DROP");
    reveal_strlit("DROP VIEW");
    reveal_strlit("DROP INDEX");
    reveal_strlit("DROP SCHEMA");
    reveal_strlit("ALTER");
    reveal_strlit("BEGIN");
    reveal_strlit("START");
    reveal_strlit("COMMIT");
    reveal_strlit("ROLLBACK");
    reveal_strlit("SAVEPOINT");
    reveal_strlit("RELEASE");
    reveal_strlit("SET");
}

proof fn starts_by_letter(s: Seq<char>, a: Seq<char>)
    requires
        a.len() >= 2,
    ensures
        text::starts(s, a) ==> s.len() >= 2 && s[0] == a[0] && s[1] == a[1],
{
}

proof fn openings_differ(s: Seq<char>)
    ensures
        forall|a: Seq<char>| #[trigger]
            text::starts(s, a) && a.len() >= 2 ==> s.len() >= 2 && s[0] == a[0] && s[1] == a[1],
        command::create_table_as(s) && s.len() >= 2 && !scan::is_white_space(s[0])
            && !scan::is_white_space(s[1]) ==> s[0] == 'C' && s[1] == 'R',
{
    if command::create_table_as(s) && s.len() >= 2 && !scan::is_white_space(s[0])
        && !scan::is_white_space(s[1]) {
        openings();
        let n = scan::word_len(s);
        assert(scan::trim_start(s) == s);
        reveal_with_fuel(scan::word_len, 3);
        assert(s.skip(1)[0] == s[1]);
        assert(n >= 2);
        assert(n <= s.len()) by {
            word_is_in_text(s);
        }
        let word = scan::words(s)[0];
        assert(word == s.take(n as int));
        assert(word[0] == s[0] && word[1] == s[1]);
    }
    assert forall|a: Seq<char>| #[trigger] text::starts(s, a) && a.len() >= 2 implies s.len() >= 2
        && s[0] == a[0] && s[1] == a[1] by {
        starts_by_letter(s, a);
    }
}

proof fn word_is_in_text(s: Seq<char>)
    ensures
        scan::word_len(s) <= s.len(),
    decreases s.len(),
{
    if s.len() > 0 && !scan::is_white_space(s[0]) {
        word_is_in_text(s.skip(1));
    }
}

/// A table is created from a query exactly where the words say so: behind the
/// word that creates and any modifiers stand the table, its name, which is not a
/// quoted one that goes on, and the word that leads to the query; between them it
/// may be said that the table need not be new.
pub proof fn tables_are_created_from_queries_by_grammar(w: Seq<Seq<char>>, k: int)
    requires
        1 <= k < w.len(),
        w[0] == "CREATE"@,
        forall|i: int| 1 <= i < k ==> command::is_table_modifier(#[trigger] w[i]),
        w[k] == "TABLE"@,
    ensures
        k + 2 < w.len() && w[k + 1] != "IF"@ ==> (command::words_create_table_as(w)
            <==> !command::opens_quote(w[k + 1]) && (w[k + 2] == "AS"@ || text::starts(
            w[k + 2],
            "AS("@,
        ))),
        k + 5 < w.len() && w[k + 1] == "IF"@ && w[k + 2] == "NOT"@ && w[k + 3] == "EXISTS"@ ==> (
        command::words_create_table_as(w) <==> !command::opens_quote(w[k + 4]) && (w[k + 5]
            == "AS"@ || text::starts(w[k + 5], "AS("@))),
        k + 2 >= w.len() ==> !command::words_create_table_as(w),
{
    reveal_strlit("TABLE");
    reveal_strlit("TEMP");
    reveal_strlit("TEMPORARY");
    reveal_strlit("UNLOGGED");
    reveal_strlit("GLOBAL");
    reveal_strlit("LOCAL");
    assert("TABLE"@.len() == 5 && "TABLE"@[0] == 'T');
    assert("LOCAL"@.len() == 5 && "LOCAL"@[0] == 'L');
    assert("TEMP"@.len() == 4 && "TEMPORARY"@.len() == 9 && "UNLOGGED"@.len() == 8
        && "GLOBAL"@.len() == 6);
    modifiers_end(w, 1, k);
}

proof fn modifiers_end(w: Seq<Seq<char>>, from: nat, k: int)
    requires
        from <= k < w.len(),
        forall|i: int| from <= i < k ==> command::is_table_modifier(#[trigger] w[i]),
        !command::is_table_modifier(w[k]),
    ensures
        command::after_modifiers(w, from) == k,
    decreases k - from,
{
    if from < k {
        modifiers_end(w, from + 1, k);
    }
}

/// The files of schemas are told apart by the schemas' names.
pub proof fn schemas_have_files_of_their_own(a: Seq<char>, b: Seq<char>)
    requires
        command::schema_file(a) == command::schema_file(b),
    ensures
        a == b,
{
    reveal_strlit("turso-postgres-schema-");
    reveal_strlit(".db");
    let n = "turso-postgres-schema-"@.len() as int;
    let f = command::schema_file(a);
    let g = command::schema_file(b);
    assert(f.len() == n + a.len() + ".db"@.len());
    assert(g.len() == n + b.len() + ".db"@.len());
    assert forall|i: int| 0 <= i < a.len() implies a[i] == b[i] by {
        assert(f[n + i] == a[i]);
        assert(g[n + i] == b[i]);
    }
    assert(a =~= b);
}

/// A name keeps what stands between its quotes: no quote is left at either end.
pub proof fn quotes_are_taken_off(s: Seq<char>)
    ensures
        command::unquoted(s).len() > 0 ==> command::unquoted(s)[0] != '"' && command::unquoted(
            s,
        ).last() != '"',
        s.len() > 0 && s[0] != '"' && s.last() != '"' ==> command::unquoted(s) == s,
        command::unquoted(s.push('"')) == command::unquoted(s),
{
    let t = command::without_leading_quotes(s);
    leading_off(s);
    trailing_off(t);
    if s.len() > 0 && s[0] != '"' && s.last() != '"' {
        assert(t == s);
    }
    let u = s.push('"');
    leading_off(u);
    leading_of_pushed(s);
}

proof fn leading_off(s: Seq<char>)
    ensures
        command::without_leading_quotes(s).len() > 0 ==> command::without_leading_quotes(s)[0]
            != '"',
    decreases s.len(),
{
    if s.len() > 0 && s[0] == '"' {
        leading_off(s.skip(1));
    }
}

proof fn trailing_off(s: Seq<char>)
    ensures
        command::without_trailing_quotes(s).len() > 0 ==> command::without_trailing_quotes(
            s,
        ).last() != '"' && s.len() > 0 && command::without_trailing_quotes(s)[0] == s[0],
    decreases s.len(),
{
    if s.len() > 0 && s.last() == '"' {
        trailing_off(s.drop_last());
    }
}

proof fn leading_of_pushed(s: Seq<char>)
    ensures
        command::unquoted(s.push('"')) == command::unquoted(s),
    decreases s.len(),
{
    let u = s.push('"');
    if s.len() == 0 {
        assert(u.skip(1) =~= s);
        assert(command::without_leading_quotes(u) == command::without_leading_quotes(u.skip(1)));
    } else if s[0] == '"' {
        assert(u.skip(1) =~= s.skip(1).push('"'));
        leading_of_pushed(s.skip(1));
    } else {
        assert(u.drop_last() =~= s);
    }
}

} // verus!
