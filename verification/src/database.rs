use vstd::prelude::*;
use crate::error::{outcome, RepoError, RepoErrorView};
use crate::query::{Query, QueryView};
use crate::value::{Arg, Binding, Cell, RowView};

verus! {

/// A connection to the store, opaque to the proofs.
#[verifier::external_type_specification]
#[verifier::external_body]
pub struct ExConnection(sqlite::Connection);

/// A statement that the store has compiled, opaque to the proofs.
#[verifier::external_type_specification]
#[verifier::external_body]
pub struct ExPrepared<'l>(sqlite::Statement<'l>);

/// A compiled statement that is being stepped through its rows, opaque to the proofs.
#[verifier::external_type_specification]
#[verifier::external_body]
pub struct ExCursor<'l>(sqlite::Cursor<'l>);

/// What came back for one statement that was handed to the store. The kind of the answer
/// tells how the statement was run.
pub enum Answer {
    /// The statement was run without reading: it is done, or the store refused it.
    Ran(Result<(), RepoErrorView>),
    /// The first row was asked for: the row, none, or the store's refusal.
    First(Result<Option<RowView>, RepoErrorView>),
    /// Every row was asked for: the rows in order, or the store's refusal; and whether the
    /// cursor had not run to its end when the reading began and had when it stopped.
    All(Result<Seq<RowView>, RepoErrorView>, bool),
}

impl Answer {
    /// The refusal, where the store refused the statement.
    pub open spec fn fault(self) -> Option<RepoErrorView> {
        match self {
            Answer::Ran(Err(error)) => Some(error),
            Answer::First(Err(error)) => Some(error),
            Answer::All(Err(error), _) => Some(error),
            _ => None,
        }
    }

    /// Whether the store carried the statement out.
    pub open spec fn succeeded(self) -> bool {
        self.fault() is None
    }
}

/// The handle through which every repository operation reaches the store.
///
/// Besides the connection, the handle keeps a journal: the statements that the repository
/// has handed to the store through it, oldest first, and beside each statement what came
/// back for it. The journal exists in proofs only. It is what the contracts of the
/// repository's operations speak of, since what the store makes of a statement is the
/// store's own business.
///
/// The journal is written by `execute`, `fetch_first` and `fetch_all`, next to the calls
/// that they make. Nothing is assumed of the store that would let a proof tie the two:
/// the calls that compile a statement, bind its values and hand out its rows promise
/// nothing of the text, the values or the rows. That a statement of the journal is the
/// one that went to the store, with the values it carries, and that an answer of the
/// journal is what the store handed out, rests on the bodies of these three functions.
pub struct Database {
    filename: String,
    connection: sqlite::Connection,
    journal: Ghost<Seq<QueryView>>,
    answers: Ghost<Seq<Answer>>,
}

/// `sqlite::open`: opens the database file at `path`, creating it if need be. Nothing is
/// claimed of the outcome, which depends on the file system.
#[verifier::external_body]
fn open_connection(path: &str) -> (res: Result<sqlite::Connection, sqlite::Error>) {
    sqlite::open(path)
}

/// `sqlite::Connection::prepare`: has the store compile `sql`. Nothing is claimed of the
/// outcome, which depends on the schema that the store holds.
#[verifier::external_body]
fn prepare<'l>(connection: &'l mut sqlite::Connection, sql: &str) -> (res: Result<
    sqlite::Statement<'l>,
    sqlite::Error,
>) {
    connection.prepare(sql)
}

/// Whether a cursor has run to its end: its statement has been evaluated entirely, and
/// the cursor has no further row to hand out.
pub uninterp spec fn exhausted(cursor: sqlite::Cursor<'_>) -> bool;

/// `sqlite::Statement::into_cursor`: turns a compiled statement into a cursor over its rows.
/// The cursor starts before its first step, so it has not run to its end.
#[verifier::external_body]
fn into_cursor<'l>(prepared: sqlite::Statement<'l>) -> (res: sqlite::Cursor<'l>)
    ensures
        !exhausted(res),
{
    prepared.into_cursor()
}

/// `sqlite::Cursor::bind_by_name`: binds each value to the parameter of its name. Binding
/// puts the cursor back before its first step, whether it succeeds or not. Nothing is
/// claimed of the outcome.
#[verifier::external_body]
fn bind_by_name<'l>(cursor: &mut sqlite::Cursor<'l>, bound: &Vec<Binding>) -> (res: Result<
    (),
    sqlite::Error,
>)
    ensures
        !exhausted(*final(cursor)),
{
    cursor.bind_by_name(bound.iter().map(|binding| (binding.name, match &binding.value {
        Arg::Integer(number) => sqlite::Value::Integer(*number),
        Arg::Text(text) => sqlite::Value::String(text.clone()),
    })))
}

/// `sqlite::Cursor::next`: steps the statement and hands out the next row, if there is one,
/// cell by cell. No row is handed out only where the cursor has run to its end. Nothing
/// else is claimed of the outcome, which depends on what the store holds.
#[verifier::external_body]
fn next_row<'l>(cursor: &mut sqlite::Cursor<'l>) -> (res: Result<Option<Vec<Cell>>, sqlite::Error>)
    ensures
        res matches Ok(None) ==> exhausted(*final(cursor)),
{
    let row = cursor.next()?;
    Ok(row.map(|cells| cells.iter().map(|cell| match cell {
        sqlite::Value::Null => Cell::Null,
        sqlite::Value::Integer(number) => Cell::Integer(*number),
        sqlite::Value::Float(fraction) => Cell::Real(fraction.to_bits()),
        sqlite::Value::String(text) => Cell::Text(text.clone()),
        sqlite::Value::Binary(bytes) => Cell::Binary(bytes.clone()),
    }).collect()))
}

/// Compiles a statement and binds its values. The cursor that comes back has been bound
/// last and not stepped since, so it has not run to its end.
fn open_cursor<'l>(connection: &'l mut sqlite::Connection, query: &Query) -> (res: Result<
    sqlite::Cursor<'l>,
    RepoError,
>)
    ensures
        match res {
            Ok(cursor) => !exhausted(cursor),
            Err(error) => error is StoreError,
        },
{
    let bound = query.bindings();
    match prepare(connection, query.sql()) {
        Err(fault) => Err(RepoError::from_store(fault)),
        Ok(prepared) => {
            let mut cursor = into_cursor(prepared);
            match bind_by_name(&mut cursor, &bound) {
                Err(fault) => Err(RepoError::from_store(fault)),
                Ok(()) => Ok(cursor),
            }
        },
    }
}

/// Steps a cursor to its end and gathers the rows in the order in which they come, as
/// many as a vector can hold. On success the cursor has run to its end, unless the vector
/// is full.
fn read_rows<'l>(cursor: &mut sqlite::Cursor<'l>) -> (res: Result<Vec<Vec<Cell>>, RepoError>)
    ensures
        match res {
            Ok(rows) => exhausted(*final(cursor)) || rows.len() == usize::MAX,
            Err(error) => error is StoreError,
        },
{
    let mut rows: Vec<Vec<Cell>> = Vec::new();
    while rows.len() < usize::MAX
        decreases usize::MAX - rows.len(),
    {
        match next_row(cursor) {
            Err(fault) => {
                return Err(RepoError::from_store(fault));
            },
            Ok(None) => {
                return Ok(rows);
            },
            Ok(Some(row)) => {
                rows.push(row);
            },
        }
    }
    Ok(rows)
}

impl Database {
    /// The statements handed to the store through this handle so far, oldest first.
    pub closed spec fn journal(&self) -> Seq<QueryView> {
        self.journal@
    }

    /// What came back for each statement of the journal, in the same order.
    pub closed spec fn answers(&self) -> Seq<Answer> {
        self.answers@
    }

    /// The name of the database file, as it was given when the handle was made.
    pub closed spec fn name(&self) -> Seq<char> {
        self.filename@
    }

    /// Wraps an open connection. The journal starts empty.
    pub fn new(filename: String, connection: sqlite::Connection) -> (db: Database)
        ensures
            db.name() == filename@,
            db.journal() == Seq::<QueryView>::empty(),
            db.answers() == Seq::<Answer>::empty(),
    {
        Database { filename, connection, journal: Ghost(Seq::empty()), answers: Ghost(Seq::empty()) }
    }

    /// The name of the database file.
    pub fn filename(&self) -> (res: &str)
        ensures
            res@ == self.name(),
    {
        self.filename.as_str()
    }

    /// Opens the database file called `filename`.
    pub fn open(filename: &str) -> (res: Result<Database, RepoError>)
        ensures
            match res {
                Ok(db) => {
                    &&& db.name() == filename@
                    &&& db.journal() == Seq::<QueryView>::empty()
                    &&& db.answers() == Seq::<Answer>::empty()
                },
                Err(error) => error is StoreError,
            },
    {
        match open_connection(filename) {
            Ok(connection) => Ok(Database::new(filename.to_owned(), connection)),
            Err(fault) => Err(RepoError::from_store(fault)),
        }
    }

    /// Hands a statement to the store and runs it without reading any row. The journal
    /// gains the statement together with what came back, which is the result.
    pub fn execute(&mut self, query: &Query) -> (res: Result<(), RepoError>)
        ensures
            final(self).journal() == old(self).journal().push(query@),
            final(self).answers() == old(self).answers().push(Answer::Ran(outcome(res))),
            final(self).name() == old(self).name(),
            res matches Err(error) ==> error is StoreError,
    {
        proof {
            self.journal@ = self.journal@.push(query@);
        }
        let res = match open_cursor(&mut self.connection, query) {
            Err(error) => Err(error),
            Ok(cursor) => {
                let mut cursor = cursor;
                match next_row(&mut cursor) {
                    Err(fault) => Err(RepoError::from_store(fault)),
                    Ok(_) => Ok(()),
                }
            },
        };
        proof {
            self.answers@ = self.answers@.push(Answer::Ran(outcome(res)));
        }
        res
    }

    /// Hands a statement to the store and reads the first row of its result, if there is
    /// one. The journal gains the statement together with what came back, which is the
    /// result.
    pub fn fetch_first(&mut self, query: &Query) -> (res: Result<Option<Vec<Cell>>, RepoError>)
        ensures
            final(self).journal() == old(self).journal().push(query@),
            final(self).answers() == old(self).answers().push(Answer::First(outcome(res))),
            final(self).name() == old(self).name(),
            res matches Err(error) ==> error is StoreError,
    {
        proof {
            self.journal@ = self.journal@.push(query@);
        }
        let res = match open_cursor(&mut self.connection, query) {
            Err(error) => Err(error),
            Ok(cursor) => {
                let mut cursor = cursor;
                match next_row(&mut cursor) {
                    Err(fault) => Err(RepoError::from_store(fault)),
                    Ok(row) => Ok(row),
                }
            },
        };
        proof {
            self.answers@ = self.answers@.push(Answer::First(outcome(res)));
        }
        res
    }

    /// Hands a statement to the store and reads every row of its result, in the order in
    /// which the store yields them. The journal gains the statement together with what
    /// came back, which is the result. On success the rows were read up to the end of the
    /// cursor, which had not run to its end before, unless there are as many as a vector
    /// can hold.
    pub fn fetch_all(&mut self, query: &Query) -> (res: Result<Vec<Vec<Cell>>, RepoError>)
        ensures
            final(self).journal() == old(self).journal().push(query@),
            final(self).answers() == old(self).answers().push(final(self).answers().last()),
            final(self).answers().last() matches Answer::All(found, whole) && found == outcome(res)
                && (res matches Ok(rows) ==> whole || rows.len() == usize::MAX),
            final(self).name() == old(self).name(),
            res matches Err(error) ==> error is StoreError,
    {
        proof {
            self.journal@ = self.journal@.push(query@);
        }
        let ghost mut whole = false;
        let res = match open_cursor(&mut self.connection, query) {
            Err(error) => Err(error),
            Ok(cursor) => {
                let mut cursor = cursor;
                let ghost fresh = !exhausted(cursor);
                let rows = read_rows(&mut cursor);
                proof {
                    whole = fresh && exhausted(cursor);
                }
                rows
            },
        };
        proof {
            self.answers@ = self.answers@.push(Answer::All(outcome(res), whole));
        }
        res
    }
}

} // verus!
