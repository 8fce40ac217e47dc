//! Statement texts: escaping of what a caller supplies, and the fixed
//! templates into which it is substituted.

use vstd::prelude::*;
use crate::text::{push_char, str_chars};

verus! {

/// `s` with every occurrence of `q` written twice.
pub open spec fn doubled(s: Seq<char>, q: char) -> Seq<char>
    decreases s.len(),
{
    if s.len() == 0 {
        Seq::empty()
    } else if s.last() == q {
        doubled(s.drop_last(), q).push(q).push(q)
    } else {
        doubled(s.drop_last(), q).push(s.last())
    }
}

/// A value as it stands between single quotes: every quote doubled.
pub open spec fn literal(value: Seq<char>) -> Seq<char> {
    doubled(value, '\'')
}

/// A name as it stands between square brackets: every quote doubled, then
/// every closing bracket doubled.
pub open spec fn identifier(name: Seq<char>) -> Seq<char> {
    doubled(doubled(name, '\''), ']')
}

fn push_doubled(out: &mut String, s: &str, q: char)
    ensures
        final(out)@ == old(out)@ + doubled(s@, q),
{
    let ghost before = out@;
    let chars = str_chars(s);
    let mut i: usize = 0;
    while i < chars.len()
        invariant
            i <= chars@.len(),
            chars@ == s@,
            out@ == before + doubled(chars@.take(i as int), q),
        decreases chars@.len() - i,
    {
        let c = chars[i];
        push_char(out, c);
        if c == q {
            push_char(out, c);
        }
        proof {
            assert(chars@.take(i + 1).drop_last() =~= chars@.take(i as int));
            assert(out@ =~= before + doubled(chars@.take(i + 1), q));
        }
        i += 1;
    }
    assert(chars@.take(chars@.len() as int) =~= chars@);
}

/// Appends `value`, escaped for use between single quotes.
pub fn push_literal(out: &mut String, value: &str)
    ensures
        final(out)@ == old(out)@ + literal(value@),
{
    push_doubled(out, value, '\'');
}

/// Appends `name`, escaped for use between square brackets.
pub fn push_identifier(out: &mut String, name: &str)
    ensures
        final(out)@ == old(out)@ + identifier(name@),
{
    let mut quoted = String::new();
    push_doubled(&mut quoted, name, '\'');
    assert(quoted@ =~= doubled(name@, '\''));
    push_doubled(out, quoted.as_str(), ']');
}

/// `value`, escaped for use between single quotes.
pub fn escape_literal(value: &str) -> (r: String)
    ensures
        r@ == literal(value@),
{
    let mut out = String::new();
    push_literal(&mut out, value);
    assert(out@ =~= literal(value@));
    out
}

/// `name`, escaped for use between square brackets.
pub fn escape_identifier(name: &str) -> (r: String)
    ensures
        r@ == identifier(name@),
{
    let mut out = String::new();
    push_identifier(&mut out, name);
    assert(out@ =~= identifier(name@));
    out
}

/// The number of times `q` occurs in `s`.
pub open spec fn occurrences(s: Seq<char>, q: char) -> nat
    decreases s.len(),
{
    if s.len() == 0 {
        0
    } else {
        occurrences(s.drop_last(), q) + if s.last() == q {
            1nat
        } else {
            0nat
        }
    }
}

/// Doubling adds one character for each occurrence, and leaves an even number
/// of occurrences behind.
pub proof fn lemma_doubled_counts(s: Seq<char>, q: char)
    ensures
        doubled(s, q).len() == s.len() + occurrences(s, q),
        occurrences(doubled(s, q), q) == 2 * occurrences(s, q),
    decreases s.len(),
{
    if s.len() > 0 {
        lemma_doubled_counts(s.drop_last(), q);
        let d = doubled(s.drop_last(), q);
        if s.last() == q {
            assert(d.push(q).push(q).drop_last() =~= d.push(q));
            assert(d.push(q).drop_last() =~= d);
            assert(occurrences(d.push(q), q) == occurrences(d, q) + 1);
            assert(occurrences(d.push(q).push(q), q) == occurrences(d, q) + 2);
        } else {
            assert(d.push(s.last()).drop_last() =~= d);
            assert(occurrences(d.push(s.last()), q) == occurrences(d, q));
        }
    }
}

/// Doubling loses nothing: two texts with the same doubled form are the same
/// text.
pub proof fn lemma_doubled_injective(a: Seq<char>, b: Seq<char>, q: char)
    requires
        doubled(a, q) == doubled(b, q),
    ensures
        a == b,
    decreases a.len(),
{
    lemma_doubled_counts(a, q);
    lemma_doubled_counts(b, q);
    if a.len() == 0 {
        assert(b.len() == 0);
        assert(a =~= b);
    } else {
        assert(b.len() > 0);
        let da = doubled(a.drop_last(), q);
        let db = doubled(b.drop_last(), q);
        assert(doubled(a, q).last() == a.last());
        assert(doubled(b, q).last() == b.last());
        if a.last() == q {
            assert(da.push(q).push(q).drop_last().drop_last() =~= da);
            assert(db.push(q).push(q).drop_last().drop_last() =~= db);
        } else {
            assert(da.push(a.last()).drop_last() =~= da);
            assert(db.push(b.last()).drop_last() =~= db);
        }
        assert(da == db);
        lemma_doubled_injective(a.drop_last(), b.drop_last(), q);
        assert(a =~= a.drop_last().push(a.last()));
        assert(b =~= b.drop_last().push(b.last()));
    }
}

/// Escaping a name for brackets loses nothing of it.
pub proof fn lemma_identifier_injective(a: Seq<char>, b: Seq<char>)
    requires
        identifier(a) == identifier(b),
    ensures
        a == b,
{
    lemma_doubled_injective(doubled(a, '\''), doubled(b, '\''), ']');
    lemma_doubled_injective(a, b, '\'');
}

pub const LIST_DATABASES: &'static str = "SELECT name FROM sys.databases ORDER BY name";

pub const USE_OPEN: &'static str = "USE [";

pub const LIST_TABLES_TAIL: &'static str =
    "]; SELECT TABLE_SCHEMA, TABLE_NAME, TABLE_TYPE FROM INFORMATION_SCHEMA.TABLES ORDER BY TABLE_SCHEMA, TABLE_NAME";

pub const COLUMNS_HEAD: &'static str =
    "];\n\nSELECT\n    c.COLUMN_NAME,\n    c.DATA_TYPE,\n    c.CHARACTER_MAXIMUM_LENGTH,\n    c.NUMERIC_PRECISION,\n    c.NUMERIC_SCALE,\n    c.IS_NULLABLE,\n    CASE WHEN pk.COLUMN_NAME IS NOT NULL THEN 'YES' ELSE 'NO' END AS IS_PRIMARY_KEY\nFROM INFORMATION_SCHEMA.COLUMNS c\nLEFT JOIN (\n    SELECT ku.TABLE_SCHEMA, ku.TABLE_NAME, ku.COLUMN_NAME\n    FROM INFORMATION_SCHEMA.TABLE_CONSTRAINTS tc\n    JOIN INFORMATION_SCHEMA.KEY_COLUMN_USAGE ku\n        ON tc.CONSTRAINT_NAME = ku.CONSTRAINT_NAME\n        AND tc.TABLE_SCHEMA = ku.TABLE_SCHEMA\n    WHERE tc.CONSTRAINT_TYPE = 'PRIMARY KEY'\n) pk ON c.TABLE_SCHEMA = pk.TABLE_SCHEMA\n    AND c.TABLE_NAME = pk.TABLE_NAME\n    AND c.COLUMN_NAME = pk.COLUMN_NAME\nWHERE c.TABLE_SCHEMA = '";

pub const COLUMNS_MIDDLE: &'static str = "' AND c.TABLE_NAME = '";

pub const COLUMNS_TAIL: &'static str = "'\nORDER BY c.ORDINAL_POSITION";

pub const FOREIGN_KEYS_HEAD: &'static str =
    "];\n\nSELECT\n    fk.name AS FK_NAME,\n    COL_NAME(fkc.parent_object_id, fkc.parent_column_id) AS COLUMN_NAME,\n    OBJECT_SCHEMA_NAME(fkc.referenced_object_id) AS REF_SCHEMA,\n    OBJECT_NAME(fkc.referenced_object_id) AS REF_TABLE,\n    COL_NAME(fkc.referenced_object_id, fkc.referenced_column_id) AS REF_COLUMN\nFROM sys.foreign_keys fk\nJOIN sys.foreign_key_columns fkc ON fk.object_id = fkc.constraint_object_id\nWHERE fk.parent_object_id = OBJECT_ID('";

pub const FOREIGN_KEYS_TAIL: &'static str = "')\nORDER BY fk.name";

pub const READ_UNCOMMITTED: &'static str =
    "SET TRANSACTION ISOLATION LEVEL READ UNCOMMITTED; SET NOCOUNT ON;\n";

pub const SHOWPLAN_ON: &'static str = "SET SHOWPLAN_TEXT ON;\n";

pub const SHOWPLAN_OFF: &'static str = "\nSET SHOWPLAN_TEXT OFF;";

pub const ACTIVE_SESSIONS: &'static str =
    "SELECT s.session_id, s.login_name, s.status, r.command, r.wait_type, r.blocking_session_id, s.cpu_time, s.reads, s.writes FROM sys.dm_exec_sessions s LEFT JOIN sys.dm_exec_requests r ON s.session_id = r.session_id WHERE s.is_user_process = 1 ORDER BY s.cpu_time DESC";

pub const BLOCKING_CHAINS: &'static str =
    "SELECT\n    r.session_id AS blocked_session,\n    r.blocking_session_id AS blocking_session,\n    s.login_name AS blocked_login,\n    bs.login_name AS blocking_login,\n    r.wait_type,\n    r.wait_time,\n    r.status AS blocked_status,\n    r.command AS blocked_command\nFROM sys.dm_exec_requests r\nJOIN sys.dm_exec_sessions s ON r.session_id = s.session_id\nLEFT JOIN sys.dm_exec_sessions bs ON r.blocking_session_id = bs.session_id\nWHERE r.blocking_session_id <> 0\nORDER BY r.blocking_session_id, r.session_id";

pub const INDEX_USAGE_HEAD: &'static str =
    "-- Missing indexes\nSELECT TOP 20\n    DB_NAME(d.database_id) AS [database],\n    d.equality_columns,\n    d.inequality_columns,\n    d.included_columns,\n    gs.unique_compiles,\n    gs.user_seeks,\n    gs.avg_total_user_cost * gs.avg_user_impact * (gs.user_seeks + gs.user_scans) AS improvement_measure\nFROM sys.dm_db_missing_index_details d\nJOIN sys.dm_db_missing_index_groups g ON d.index_handle = g.index_handle\nJOIN sys.dm_db_missing_index_group_stats gs ON g.index_group_handle = gs.group_handle\nWHERE 1=1 ";

pub const INDEX_USAGE_FILTER: &'static str = "AND DB_NAME(d.database_id) = '";

pub const INDEX_USAGE_TAIL: &'static str = "\nORDER BY improvement_measure DESC";

pub const TABLE_SIZES_TAIL: &'static str =
    "];\n\nSELECT\n    s.name AS [schema],\n    t.name AS [table],\n    SUM(p.rows) AS row_count,\n    SUM(a.total_pages) * 8 AS total_space_kb,\n    SUM(a.used_pages) * 8 AS used_space_kb,\n    (SUM(a.total_pages) - SUM(a.used_pages)) * 8 AS unused_space_kb\nFROM sys.tables t\nJOIN sys.schemas s ON t.schema_id = s.schema_id\nJOIN sys.indexes i ON t.object_id = i.object_id\nJOIN sys.partitions p ON i.object_id = p.object_id AND i.index_id = p.index_id\nJOIN sys.allocation_units a ON p.partition_id = a.container_id\nWHERE i.index_id <= 1\nGROUP BY s.name, t.name\nORDER BY SUM(a.total_pages) DESC";

pub const SERVER_INFO: &'static str =
    "SELECT\n    @@VERSION AS [version],\n    @@SERVERNAME AS [server_name],\n    CAST(SERVERPROPERTY('Edition') AS nvarchar(256)) AS [edition],\n    CAST(SERVERPROPERTY('ProductVersion') AS nvarchar(256)) AS [product_version],\n    CAST(SERVERPROPERTY('ProductLevel') AS nvarchar(256)) AS [product_level],\n    (SELECT compatibility_level FROM sys.databases WHERE name = DB_NAME()) AS [compatibility_level]";

/// The statement that lists the tables and views of a database.
pub open spec fn list_tables_sql(database: Seq<char>) -> Seq<char> {
    USE_OPEN@ + identifier(database) + LIST_TABLES_TAIL@
}

/// The statement that describes the columns of a table.
pub open spec fn columns_sql(database: Seq<char>, schema: Seq<char>, table: Seq<char>) -> Seq<
    char,
> {
    USE_OPEN@ + identifier(database) + COLUMNS_HEAD@ + literal(schema) + COLUMNS_MIDDLE@ + literal(
        table,
    ) + COLUMNS_TAIL@
}

/// The statement that lists the foreign keys of a table.
pub open spec fn foreign_keys_sql(database: Seq<char>, schema: Seq<char>, table: Seq<char>) -> Seq<
    char,
> {
    USE_OPEN@ + identifier(database) + FOREIGN_KEYS_HEAD@ + literal(schema) + seq!['.'] + literal(
        table,
    ) + FOREIGN_KEYS_TAIL@
}

/// A caller's statement behind the directives that make it read without
/// taking locks and without row-count messages.
pub open spec fn query_sql(sql: Seq<char>) -> Seq<char> {
    READ_UNCOMMITTED@ + sql
}

/// A caller's statement between the directives that switch the display of the
/// plan on and off.
pub open spec fn plan_sql(sql: Seq<char>) -> Seq<char> {
    SHOWPLAN_ON@ + sql + SHOWPLAN_OFF@
}

/// The restriction of the missing-index statement to one database, or nothing.
pub open spec fn index_filter(database: Option<Seq<char>>) -> Seq<char> {
    match database {
        Some(db) => INDEX_USAGE_FILTER@ + literal(db) + seq!['\''],
        None => Seq::empty(),
    }
}

/// The statement that lists the missing-index candidates.
pub open spec fn index_usage_sql(database: Option<Seq<char>>) -> Seq<char> {
    INDEX_USAGE_HEAD@ + index_filter(database) + INDEX_USAGE_TAIL@
}

/// The statement that lists the space used by each table of a database.
pub open spec fn table_sizes_sql(database: Seq<char>) -> Seq<char> {
    USE_OPEN@ + identifier(database) + TABLE_SIZES_TAIL@
}

pub fn build_list_tables(database: &str) -> (r: String)
    ensures
        r@ == list_tables_sql(database@),
{
    let mut out = String::new();
    out.append(USE_OPEN);
    push_identifier(&mut out, database);
    out.append(LIST_TABLES_TAIL);
    assert(out@ =~= list_tables_sql(database@));
    out
}

pub fn build_columns(database: &str, schema: &str, table: &str) -> (r: String)
    ensures
        r@ == columns_sql(database@, schema@, table@),
{
    let mut out = String::new();
    out.append(USE_OPEN);
    push_identifier(&mut out, database);
    out.append(COLUMNS_HEAD);
    push_literal(&mut out, schema);
    out.append(COLUMNS_MIDDLE);
    push_literal(&mut out, table);
    out.append(COLUMNS_TAIL);
    assert(out@ =~= columns_sql(database@, schema@, table@));
    out
}

pub fn build_foreign_keys(database: &str, schema: &str, table: &str) -> (r: String)
    ensures
        r@ == foreign_keys_sql(database@, schema@, table@),
{
    let mut out = String::new();
    out.append(USE_OPEN);
    push_identifier(&mut out, database);
    out.append(FOREIGN_KEYS_HEAD);
    push_literal(&mut out, schema);
    push_char(&mut out, '.');
    push_literal(&mut out, table);
    out.append(FOREIGN_KEYS_TAIL);
    assert(out@ =~= foreign_keys_sql(database@, schema@, table@));
    out
}

pub fn build_query(sql: &str) -> (r: String)
    ensures
        r@ == query_sql(sql@),
{
    let mut out = String::new();
    out.append(READ_UNCOMMITTED);
    out.append(sql);
    assert(out@ =~= query_sql(sql@));
    out
}

pub fn build_plan(sql: &str) -> (r: String)
    ensures
        r@ == plan_sql(sql@),
{
    let mut out = String::new();
    out.append(SHOWPLAN_ON);
    out.append(sql);
    out.append(SHOWPLAN_OFF);
    assert(out@ =~= plan_sql(sql@));
    out
}

pub fn build_index_usage(database: Option<&str>) -> (r: String)
    ensures
        r@ == index_usage_sql(
            match database {
                Some(db) => Some(db@),
                None => None,
            },
        ),
{
    let mut out = String::new();
    out.append(INDEX_USAGE_HEAD);
    match database {
        Some(db) => {
            out.append(INDEX_USAGE_FILTER);
            push_literal(&mut out, db);
            push_char(&mut out, '\'');
            assert(out@ =~= INDEX_USAGE_HEAD@ + index_filter(Some(db@)));
        },
        None => {
            assert(out@ =~= INDEX_USAGE_HEAD@ + index_filter(None));
        },
    }
    out.append(INDEX_USAGE_TAIL);
    out
}

pub fn build_table_sizes(database: &str) -> (r: String)
    ensures
        r@ == table_sizes_sql(database@),
{
    let mut out = String::new();
    out.append(USE_OPEN);
    push_identifier(&mut out, database);
    out.append(TABLE_SIZES_TAIL);
    assert(out@ =~= table_sizes_sql(database@));
    out
}

} // verus!
