//! Running SQL through `rusqlite`, with rows read as plain values.

use vstd::prelude::*;
use rusqlite::types::Value;
use rusqlite::{Connection, Row, Rows, Statement};

verus! {

#[verifier::external_type_specification]
#[verifier::external_body]
pub struct ExConnection(Connection);

#[verifier::external_type_specification]
#[verifier::external_body]
pub struct ExSqliteError(rusqlite::Error);

#[verifier::external_type_specification]
#[verifier::external_body]
pub struct ExStatement<'conn>(Statement<'conn>);

#[verifier::external_type_specification]
#[verifier::external_body]
pub struct ExRows<'stmt>(Rows<'stmt>);

#[verifier::external_type_specification]
#[verifier::external_body]
pub struct ExRow<'stmt>(Row<'stmt>);

/// A column value as this library reads it. `REAL` and `BLOB` values are not
/// read here (`Other`).
#[derive(Debug, Clone, PartialEq, Eq)]
pub enum SqlValue {
    Null,
    Integer(i64),
    Text(String),
    Other,
}

/// A value bound to a statement parameter.
#[derive(Debug, Clone, PartialEq, Eq)]
pub enum Param {
    Null,
    Integer(i64),
    Text(String),
}

/// What a bound parameter holds, with text by its characters.
pub enum ParamSpec {
    Null,
    Integer(i64),
    Text(Seq<char>),
}

pub open spec fn param_spec(p: Param) -> ParamSpec {
    match p {
        Param::Null => ParamSpec::Null,
        Param::Integer(n) => ParamSpec::Integer(n),
        Param::Text(t) => ParamSpec::Text(t@),
    }
}

/// The values bound to `?1`, `?2`, ... in order.
pub open spec fn bound(params: Seq<Param>) -> Seq<ParamSpec> {
    params.map_values(|p: Param| param_spec(p))
}

/// An optional integer as a parameter: `NULL` for none.
pub open spec fn opt_int_spec(v: Option<i64>) -> ParamSpec {
    match v {
        Some(n) => ParamSpec::Integer(n),
        None => ParamSpec::Null,
    }
}

/// An SQL statement and the values bound to its parameters: what is handed
/// to SQLite.
#[derive(Debug)]
pub struct SqlStatement {
    pub sql: String,
    pub params: Vec<Param>,
}

impl SqlStatement {
    /// A statement with no parameter bound yet.
    pub fn new(sql: &str) -> (s: Self)
        ensures
            s.sql@ == sql@,
            bound(s.params@) == Seq::<ParamSpec>::empty(),
    {
        let s = SqlStatement { sql: String::from_str(sql), params: Vec::new() };
        assert(bound(s.params@) =~= Seq::<ParamSpec>::empty());
        s
    }

    /// A statement built as text, with no parameter bound yet.
    pub fn of_text(sql: String) -> (s: Self)
        ensures
            s.sql@ == sql@,
            bound(s.params@) == Seq::<ParamSpec>::empty(),
    {
        let s = SqlStatement { sql, params: Vec::new() };
        assert(bound(s.params@) =~= Seq::<ParamSpec>::empty());
        s
    }

    fn bind(self, p: Param) -> (s: Self)
        ensures
            s.sql@ == self.sql@,
            bound(s.params@) == bound(self.params@).push(param_spec(p)),
    {
        let ghost before = self.params@;
        let SqlStatement { sql, mut params } = self;
        params.push(p);
        let s = SqlStatement { sql, params };
        assert(bound(s.params@) =~= bound(before).push(param_spec(p)));
        s
    }

    /// Binds an integer to the next parameter.
    pub fn integer(self, v: i64) -> (s: Self)
        ensures
            s.sql@ == self.sql@,
            bound(s.params@) == bound(self.params@).push(ParamSpec::Integer(v)),
    {
        self.bind(Param::Integer(v))
    }

    /// Binds a text to the next parameter.
    pub fn text(self, t: &str) -> (s: Self)
        ensures
            s.sql@ == self.sql@,
            bound(s.params@) == bound(self.params@).push(ParamSpec::Text(t@)),
    {
        self.bind(Param::Text(String::from_str(t)))
    }

    /// Binds an optional integer (`NULL` for none) to the next parameter.
    pub fn opt_int(self, v: Option<i64>) -> (s: Self)
        ensures
            s.sql@ == self.sql@,
            bound(s.params@) == bound(self.params@).push(opt_int_spec(v)),
    {
        match v {
            Some(n) => self.bind(Param::Integer(n)),
            None => self.bind(Param::Null),
        }
    }
}

/// `Connection::execute`: runs one statement with `params` bound to `?1`,
/// `?2`, ...; the number of rows it changed.
#[verifier::external_body]
pub(crate) fn execute(conn: &Connection, sql: &str, params: &Vec<Param>) -> Result<usize, rusqlite::Error> {
    conn.execute(sql, rusqlite::params_from_iter(params.iter().map(|p| match p {
        Param::Null => Value::Null,
        Param::Integer(n) => Value::Integer(*n),
        Param::Text(s) => Value::Text(s.clone()),
    })))
}

/// `Connection::execute_batch`: runs statements separated by semicolons.
#[verifier::external_body]
pub(crate) fn execute_batch(conn: &Connection, sql: &str) -> Result<(), rusqlite::Error> {
    conn.execute_batch(sql)
}

/// `Connection::last_insert_rowid`: the rowid of the most recent successful insert.
#[verifier::external_body]
pub(crate) fn last_insert_rowid(conn: &Connection) -> i64 {
    conn.last_insert_rowid()
}

/// `Connection::pragma_update`: sets an integer pragma of the main database.
#[verifier::external_body]
pub(crate) fn pragma_update(conn: &Connection, name: &str, value: i64) -> Result<(), rusqlite::Error> {
    conn.pragma_update(None, name, value)
}

/// `Connection::prepare`.
#[verifier::external_body]
pub(crate) fn prepare<'c>(conn: &'c Connection, sql: &str) -> Result<Statement<'c>, rusqlite::Error> {
    conn.prepare(sql)
}

/// `Statement::column_count`: the number of columns of each result row.
#[verifier::external_body]
pub(crate) fn column_count(stmt: &Statement) -> usize {
    stmt.column_count()
}

/// `Statement::query`: binds `params` and starts the query.
#[verifier::external_body]
pub(crate) fn query<'s, 'c>(stmt: &'s mut Statement<'c>, params: &Vec<Param>) -> Result<Rows<'s>, rusqlite::Error> {
    stmt.query(rusqlite::params_from_iter(params.iter().map(|p| match p {
        Param::Null => Value::Null,
        Param::Integer(n) => Value::Integer(*n),
        Param::Text(s) => Value::Text(s.clone()),
    })))
}

/// `Rows::next`: the next result row, if any.
#[verifier::external_body]
pub(crate) fn next_row<'r, 's>(rows: &'r mut Rows<'s>) -> Result<Option<&'r Row<'s>>, rusqlite::Error> {
    rows.next()
}

/// `Row::get` of column `i` as a dynamically typed value.
#[verifier::external_body]
pub(crate) fn column_value(row: &Row, i: usize) -> Result<SqlValue, rusqlite::Error> {
    row.get::<usize, Value>(i).map(|v| match v {
        Value::Null => SqlValue::Null,
        Value::Integer(n) => SqlValue::Integer(n),
        Value::Text(s) => SqlValue::Text(s),
        Value::Real(_) => SqlValue::Other,
        Value::Blob(_) => SqlValue::Other,
    })
}

/// Why a query failed.
#[derive(Debug)]
pub enum DbError {
    Sqlite(rusqlite::Error),
    /// A single row was expected and there was none.
    NoRows,
    /// A column did not hold the expected kind of value.
    ColumnType,
}

fn read_row(row: &Row, n: usize) -> (r: Result<Vec<SqlValue>, DbError>)
    ensures
        r matches Ok(v) ==> v@.len() == n,
        r matches Err(e) ==> e is Sqlite,
{
    let mut out: Vec<SqlValue> = Vec::new();
    let mut i: usize = 0;
    while i < n
        invariant
            i <= n,
            out@.len() == i,
        decreases n - i,
    {
        match column_value(row, i) {
            Ok(v) => out.push(v),
            Err(e) => { return Err(DbError::Sqlite(e)); },
        }
        i = i + 1;
    }
    Ok(out)
}

/// Runs a query and reads every result row; all rows have the same number of values.
pub fn query_all(conn: &Connection, sql: &str, params: &Vec<Param>) -> (r: Result<Vec<Vec<SqlValue>>, DbError>)
    ensures
        r matches Ok(rows) ==> forall|i: int, j: int| 0 <= i < rows@.len() && 0 <= j < rows@.len()
            ==> (#[trigger] rows@[i])@.len() == (#[trigger] rows@[j])@.len(),
        r matches Err(e) ==> e is Sqlite,
{
    let mut stmt = match prepare(conn, sql) {
        Ok(s) => s,
        Err(e) => { return Err(DbError::Sqlite(e)); },
    };
    let n = column_count(&stmt);
    let mut rows = match query(&mut stmt, params) {
        Ok(r) => r,
        Err(e) => { return Err(DbError::Sqlite(e)); },
    };
    let mut out: Vec<Vec<SqlValue>> = Vec::new();
    while out.len() < usize::MAX
        invariant
            forall|i: int| 0 <= i < out@.len() ==> (#[trigger] out@[i])@.len() == n,
        decreases usize::MAX - out@.len(),
    {
        match next_row(&mut rows) {
            Ok(Some(row)) => {
                match read_row(row, n) {
                    Ok(values) => out.push(values),
                    Err(e) => { return Err(e); },
                }
            },
            Ok(None) => { return Ok(out); },
            Err(e) => { return Err(DbError::Sqlite(e)); },
        }
    }
    Ok(out)
}


/// The first of the rows a query gave; `NoRows` when it gave none.
pub fn first_row(rows: Vec<Vec<SqlValue>>) -> (r: Result<Vec<SqlValue>, DbError>)
    ensures
        rows@.len() == 0 ==> r matches Err(DbError::NoRows),
        rows@.len() > 0 ==> (r matches Ok(v) && v == rows@[0]),
{
    if rows.len() == 0 {
        Err(DbError::NoRows)
    } else {
        let mut rows = rows;
        Ok(rows.swap_remove(0))
    }
}

/// Runs a query and reads its first row; `NoRows` when there is none.
pub fn query_first(conn: &Connection, sql: &str, params: &Vec<Param>) -> (r: Result<Vec<SqlValue>, DbError>)
    ensures
        r matches Err(e) ==> e is Sqlite || e is NoRows,
{
    match query_all(conn, sql, params) {
        Ok(rows) => first_row(rows),
        Err(e) => Err(e),
    }
}

/// The integer in column `i`.
pub open spec fn int_at(row: Seq<SqlValue>, i: int) -> Option<i64> {
    if 0 <= i < row.len() {
        match row[i] {
            SqlValue::Integer(n) => Some(n),
            _ => None,
        }
    } else {
        None
    }
}

/// The text in column `i`.
pub open spec fn text_at(row: Seq<SqlValue>, i: int) -> Option<Seq<char>> {
    if 0 <= i < row.len() {
        match row[i] {
            SqlValue::Text(s) => Some(s@),
            _ => None,
        }
    } else {
        None
    }
}

/// Column `i` as an optional integer: `NULL` reads as none.
pub open spec fn opt_int_at(row: Seq<SqlValue>, i: int) -> Option<Option<i64>> {
    if 0 <= i < row.len() {
        match row[i] {
            SqlValue::Integer(n) => Some(Some(n)),
            SqlValue::Null => Some(None),
            _ => None,
        }
    } else {
        None
    }
}

/// Reads an integer column (`i64` as `FromSql`).
pub fn get_int(row: &Vec<SqlValue>, i: usize) -> (r: Result<i64, DbError>)
    ensures
        r matches Ok(n) ==> int_at(row@, i as int) == Some(n),
        r is Err ==> int_at(row@, i as int) is None,
        r matches Err(e) ==> e is ColumnType,
{
    if i < row.len() {
        match &row[i] {
            SqlValue::Integer(n) => Ok(*n),
            _ => Err(DbError::ColumnType),
        }
    } else {
        Err(DbError::ColumnType)
    }
}

/// Reads a flag stored as an integer: anything but 0 is true.
pub fn get_flag(row: &Vec<SqlValue>, i: usize) -> (r: Result<bool, DbError>)
    ensures
        r matches Ok(b) ==> int_at(row@, i as int) matches Some(n) && b == (n != 0),
        r is Err ==> int_at(row@, i as int) is None,
        r matches Err(e) ==> e is ColumnType,
{
    match get_int(row, i) {
        Ok(n) => Ok(n != 0),
        Err(e) => Err(e),
    }
}

/// Reads a text column (`String` as `FromSql`).
pub fn get_text(row: &Vec<SqlValue>, i: usize) -> (r: Result<String, DbError>)
    ensures
        r matches Ok(s) ==> text_at(row@, i as int) == Some(s@),
        r is Err ==> text_at(row@, i as int) is None,
        r matches Err(e) ==> e is ColumnType,
{
    if i < row.len() {
        match &row[i] {
            SqlValue::Text(s) => Ok(s.clone()),
            _ => Err(DbError::ColumnType),
        }
    } else {
        Err(DbError::ColumnType)
    }
}

/// Reads a nullable integer column (`Option<i64>` as `FromSql`).
pub fn get_opt_int(row: &Vec<SqlValue>, i: usize) -> (r: Result<Option<i64>, DbError>)
    ensures
        r matches Ok(v) ==> opt_int_at(row@, i as int) == Some(v),
        r is Err ==> opt_int_at(row@, i as int) is None,
        r matches Err(e) ==> e is ColumnType,
{
    if i < row.len() {
        match &row[i] {
            SqlValue::Integer(n) => Ok(Some(*n)),
            SqlValue::Null => Ok(None),
            _ => Err(DbError::ColumnType),
        }
    } else {
        Err(DbError::ColumnType)
    }
}

/// One statement handed to SQLite, and what came of it.
pub enum Sent {
    /// It ran and changed `changed` rows.
    Done { sql: Seq<char>, params: Seq<ParamSpec>, changed: nat },
    /// A query, and the rows it gave.
    Read { sql: Seq<char>, params: Seq<ParamSpec>, rows: Seq<Seq<SqlValue>> },
    /// It failed.
    Failed { sql: Seq<char>, params: Seq<ParamSpec> },
}

/// Whether none of the statements in `log` failed.
pub open spec fn none_failed(log: Seq<Sent>) -> bool {
    forall|i: int| 0 <= i < log.len() ==> !(#[trigger] log[i] is Failed)
}

/// The rows of a query result, each by its values.
pub open spec fn rows_view(rows: Seq<Vec<SqlValue>>) -> Seq<Seq<SqlValue>> {
    rows.map_values(|r: Vec<SqlValue>| r@)
}

/// Runs a statement that returns no rows, and gives what was sent with it.
pub fn run_logged(conn: &Connection, st: &SqlStatement) -> (r: (Result<usize, DbError>, Ghost<Sent>))
    ensures
        r.0 matches Ok(n) ==> r.1@ == (Sent::Done { sql: st.sql@, params: bound(st.params@), changed: n as nat }),
        r.0 is Err ==> r.1@ == (Sent::Failed { sql: st.sql@, params: bound(st.params@) }),
        r.0 matches Err(e) ==> e is Sqlite,
{
    match execute(conn, st.sql.as_str(), &st.params) {
        Ok(n) => (Ok(n), Ghost(Sent::Done { sql: st.sql@, params: bound(st.params@), changed: n as nat })),
        Err(e) => (Err(DbError::Sqlite(e)), Ghost(Sent::Failed { sql: st.sql@, params: bound(st.params@) })),
    }
}

/// Runs a statement that returns no rows; the number of rows it changed.
pub fn run(conn: &Connection, st: &SqlStatement) -> (r: Result<usize, DbError>)
    ensures
        r matches Err(e) ==> e is Sqlite,
{
    run_logged(conn, st).0
}

/// Runs a query and reads every result row, and gives what was sent with it.
pub fn run_query_logged(conn: &Connection, st: &SqlStatement) -> (r: (Result<Vec<Vec<SqlValue>>, DbError>, Ghost<Sent>))
    ensures
        r.0 matches Ok(rows) ==> r.1@ == (Sent::Read { sql: st.sql@, params: bound(st.params@), rows: rows_view(rows@) }),
        r.0 is Err ==> r.1@ == (Sent::Failed { sql: st.sql@, params: bound(st.params@) }),
        r.0 matches Err(e) ==> e is Sqlite,
{
    match query_all(conn, st.sql.as_str(), &st.params) {
        Ok(rows) => {
            let ghost sent = Sent::Read { sql: st.sql@, params: bound(st.params@), rows: rows_view(rows@) };
            (Ok(rows), Ghost(sent))
        },
        Err(e) => (Err(e), Ghost(Sent::Failed { sql: st.sql@, params: bound(st.params@) })),
    }
}

/// Runs a query and reads every result row (see `query_all`).
pub fn run_query(conn: &Connection, st: &SqlStatement) -> (r: Result<Vec<Vec<SqlValue>>, DbError>)
    ensures
        r matches Err(e) ==> e is Sqlite,
{
    run_query_logged(conn, st).0
}

/// Runs a query and reads its first row; `NoRows` when there is none.
pub fn run_query_first(conn: &Connection, st: &SqlStatement) -> (r: Result<Vec<SqlValue>, DbError>)
    ensures
        r matches Err(e) ==> e is Sqlite || e is NoRows,
{
    query_first(conn, st.sql.as_str(), &st.params)
}

} // verus!
