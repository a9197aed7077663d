//! Schema introspection: walk the database's catalog views and assemble a
//! structured description of every base table and its columns.
//!
//! The walk is a session: connect, fetch the table list (the catalog query
//! orders it by table name ascending), then for each table in that exact
//! order fetch its columns (the catalog query orders them by ordinal
//! position), then release the connection and deliver the document. The
//! assembly never re-sorts anything: tables appear in the order the
//! catalog returned them and columns in the order their catalog rows
//! arrived. Any catalog failure aborts the whole walk; a partial document
//! is never delivered.

use vstd::prelude::*;
use crate::error::DbError;

verus! {

/// One column as the catalog reports it: name, the declared data type
/// verbatim, and the nullability flag as the catalog's yes/no token.
#[derive(Debug, Clone, PartialEq)]
pub struct ColumnInfo {
    pub column_name: String,
    pub data_type: String,
    pub is_nullable: String,
}

/// One table: its name and its columns in declaration order.
#[derive(Debug, Clone, PartialEq)]
pub struct TableInfo {
    pub table_name: String,
    pub columns: Vec<ColumnInfo>,
}

/// The complete structured description of a database's tables and
/// columns, built fresh on every introspection call.
#[derive(Debug, Clone, PartialEq)]
pub struct SchemaDocument {
    pub tables: Vec<TableInfo>,
}

/// The catalog query for the table list: every base table of the public
/// schema, ordered by table name ascending.
pub fn tables_query() -> (s: &'static str)
    ensures
        s@ == ("SELECT table_name FROM information_schema.tables WHERE table_schema = 'public' AND table_type = 'BASE TABLE' ORDER BY table_name")@,
{
    "SELECT table_name FROM information_schema.tables WHERE table_schema = 'public' AND table_type = 'BASE TABLE' ORDER BY table_name"
}

/// The catalog query for one table's columns, the table name bound as the
/// single parameter: name, declared type and nullability of every column,
/// ordered by the database's ordinal (declaration) position.
pub fn columns_query() -> (s: &'static str)
    ensures
        s@ == ("SELECT column_name, data_type, is_nullable FROM information_schema.columns WHERE table_schema = 'public' AND table_name = $1 ORDER BY ordinal_position")@,
{
    "SELECT column_name, data_type, is_nullable FROM information_schema.columns WHERE table_schema = 'public' AND table_name = $1 ORDER BY ordinal_position"
}

enum WalkPhase {
    Connecting,
    AwaitingTables,
    AwaitingColumns,
    Closing,
    Done,
}

/// The session of one introspection call. It records the table list as
/// the catalog returned it, collects one column list per table in that
/// exact order, and holds the finished document (or the first failure)
/// back until the connection's release has been acknowledged.
pub struct SchemaWalker {
    phase: WalkPhase,
    tables: Vec<String>,
    built: Vec<TableInfo>,
    pending_error: Option<DbError>,
    opened: bool,
    closed: bool,
}

impl SchemaWalker {
    /// Awaiting the outcome of the connect.
    pub closed spec fn is_connecting(self) -> bool {
        self.phase is Connecting
    }

    /// Connected; awaiting the catalog's table list.
    pub closed spec fn is_awaiting_tables(self) -> bool {
        self.phase is AwaitingTables
    }

    /// Awaiting the column list of the current table.
    pub closed spec fn is_awaiting_columns(self) -> bool {
        self.phase is AwaitingColumns
    }

    /// Walk finished or aborted; awaiting acknowledgement of the release.
    pub closed spec fn is_closing(self) -> bool {
        self.phase is Closing
    }

    /// Outcome delivered.
    pub closed spec fn is_done(self) -> bool {
        self.phase is Done
    }

    /// The table list exactly as the catalog returned it.
    pub closed spec fn tables_spec(self) -> Seq<String> {
        self.tables@
    }

    /// The tables assembled so far, in catalog order.
    pub closed spec fn built_spec(self) -> Seq<TableInfo> {
        self.built@
    }

    /// How many tables already have their columns.
    pub open spec fn progress(self) -> int {
        self.built_spec().len() as int
    }

    /// The failure held back until the release, if a catalog query failed.
    pub closed spec fn stored_error(self) -> Option<DbError> {
        self.pending_error
    }

    /// How many connections this walk opened (zero or one).
    pub closed spec fn opens(self) -> nat {
        if self.opened {
            1
        } else {
            0
        }
    }

    /// How many releases this walk has acknowledged (zero or one).
    pub closed spec fn closes(self) -> nat {
        if self.closed {
            1
        } else {
            0
        }
    }

    /// The walk invariant: a connection is open exactly between the
    /// acknowledged connect and the acknowledged release; the assembled
    /// prefix always carries the catalog's table names in the catalog's
    /// order, one entry per table whose columns have arrived; a finished
    /// walk has released what it opened; and a walk that reached the
    /// release without a failure has assembled every table.
    pub closed spec fn inv(self) -> bool {
        &&& (self.phase is Connecting ==> !self.opened && !self.closed && self.built@.len() == 0)
        &&& (self.phase is AwaitingTables ==> self.opened && !self.closed && self.built@.len()
            == 0)
        &&& (self.phase is AwaitingColumns ==> {
            &&& self.opened
            &&& !self.closed
            &&& self.built@.len() < self.tables@.len()
        })
        &&& (self.phase is Closing ==> self.opened && !self.closed)
        &&& (self.phase is Closing && self.pending_error is None ==> self.built@.len()
            == self.tables@.len())
        &&& (self.phase is Done ==> self.opened == self.closed)
        &&& self.built@.len() <= self.tables@.len()
        &&& (forall|i: int|
            0 <= i < self.built@.len() ==> (#[trigger] self.built@[i]).table_name
                == self.tables@[i])
    }

    /// Start the walk; the next step is the connect.
    pub fn new() -> (w: SchemaWalker)
        ensures
            w.inv(),
            w.is_connecting(),
            w.opens() == 0,
            w.closes() == 0,
    {
        SchemaWalker {
            phase: WalkPhase::Connecting,
            tables: Vec::new(),
            built: Vec::new(),
            pending_error: None,
            opened: false,
            closed: false,
        }
    }

    /// The connect succeeded: a connection is now open and the table-list
    /// catalog query may be issued.
    pub fn connected(&mut self)
        requires
            old(self).inv(),
            old(self).is_connecting(),
        ensures
            final(self).inv(),
            final(self).is_awaiting_tables(),
            final(self).opens() == 1,
            final(self).closes() == 0,
    {
        self.phase = WalkPhase::AwaitingTables;
        self.opened = true;
    }

    /// The connect failed: nothing was opened, so the walk fails at once
    /// with the driver's message as a connection error.
    pub fn connect_failed(&mut self, message: String) -> (e: DbError)
        requires
            old(self).inv(),
            old(self).is_connecting(),
        ensures
            final(self).inv(),
            final(self).is_done(),
            final(self).opens() == final(self).closes(),
            e == DbError::ConnectionError(message),
    {
        self.phase = WalkPhase::Done;
        DbError::ConnectionError(message)
    }

    /// The catalog's table list arrived, already ordered by the query.
    /// Record it exactly as it came: this order, and nothing else,
    /// decides the order of the document. An empty list ends the walk at
    /// once (nothing to fetch columns for).
    pub fn tables_listed(&mut self, names: Vec<String>)
        requires
            old(self).inv(),
            old(self).is_awaiting_tables(),
        ensures
            final(self).inv(),
            final(self).tables_spec() == names@,
            final(self).built_spec().len() == 0,
            final(self).stored_error() is None,
            names@.len() == 0 ==> final(self).is_closing(),
            names@.len() > 0 ==> final(self).is_awaiting_columns(),
    {
        if names.len() == 0 {
            self.phase = WalkPhase::Closing;
        } else {
            self.phase = WalkPhase::AwaitingColumns;
        }
        self.tables = names;
        self.pending_error = None;
    }

    /// Whether the walk is waiting for a column list — the guard of the
    /// boundary layer's fetch loop.
    pub fn awaiting_columns(&self) -> (b: bool)
        ensures
            b == self.is_awaiting_columns(),
    {
        match self.phase {
            WalkPhase::AwaitingColumns => true,
            _ => false,
        }
    }

    /// The table whose columns must be fetched next: the first table of
    /// the catalog's list whose columns have not arrived yet. Bind its
    /// name as the parameter of the column catalog query.
    pub fn current_table(&self) -> (t: &String)
        requires
            self.inv(),
            self.is_awaiting_columns(),
        ensures
            t == self.tables_spec()[self.progress()],
    {
        let i = self.built.len();
        &self.tables[i]
    }

    /// The column list of the current table arrived, already in ordinal
    /// order. Append the table to the document exactly as received —
    /// name from the catalog's table list, columns as they came — and
    /// either move to the next table or, after the last one, to the
    /// release.
    pub fn columns_listed(&mut self, columns: Vec<ColumnInfo>)
        requires
            old(self).inv(),
            old(self).is_awaiting_columns(),
        ensures
            final(self).inv(),
            final(self).tables_spec() == old(self).tables_spec(),
            final(self).stored_error() == old(self).stored_error(),
            final(self).built_spec() == old(self).built_spec().push(
                TableInfo {
                    table_name: old(self).tables_spec()[old(self).progress()],
                    columns,
                },
            ),
            final(self).progress() == old(self).progress() + 1,
            final(self).progress() < old(self).tables_spec().len()
                ==> final(self).is_awaiting_columns(),
            final(self).progress() == old(self).tables_spec().len() ==> final(self).is_closing(),
    {
        let i = self.built.len();
        let name = self.tables[i].clone();
        self.built.push(TableInfo { table_name: name, columns });
        if self.built.len() == self.tables.len() {
            self.phase = WalkPhase::Closing;
        }
    }

    /// A catalog query failed: abort the walk, holding the driver's
    /// message as an introspection error until the connection's release
    /// has been acknowledged. No partial document survives this.
    pub fn catalog_failed(&mut self, message: String)
        requires
            old(self).inv(),
            old(self).is_awaiting_tables() || old(self).is_awaiting_columns(),
        ensures
            final(self).inv(),
            final(self).is_closing(),
            final(self).stored_error() == Some(DbError::IntrospectionError(message)),
    {
        self.phase = WalkPhase::Closing;
        self.pending_error = Some(DbError::IntrospectionError(message));
    }

    /// The connection's release has been acknowledged: deliver the
    /// outcome. A stored failure comes out as it was stored, and never
    /// with a partial document; a completed walk delivers one table per
    /// catalog name, in the catalog's order, each with the columns that
    /// arrived for it.
    pub fn close_acknowledged(&mut self) -> (r: Result<SchemaDocument, DbError>)
        requires
            old(self).inv(),
            old(self).is_closing(),
        ensures
            final(self).inv(),
            final(self).is_done(),
            final(self).opens() == final(self).closes(),
            old(self).stored_error() is Some ==> r == Err::<SchemaDocument, DbError>(
                old(self).stored_error()->0,
            ),
            old(self).stored_error() is None ==> {
                &&& r is Ok
                &&& (r->Ok_0).tables@ == old(self).built_spec()
                &&& (r->Ok_0).tables@.len() == old(self).tables_spec().len()
                &&& forall|i: int|
                    0 <= i < old(self).tables_spec().len() ==> (#[trigger] (r->Ok_0).tables@[i]).table_name
                        == old(self).tables_spec()[i]
            },
    {
        self.phase = WalkPhase::Done;
        self.closed = true;
        let err = self.pending_error.take();
        match err {
            Some(e) => Err(e),
            None => {
                let mut tables: Vec<TableInfo> = Vec::new();
                core::mem::swap(&mut self.built, &mut tables);
                Ok(SchemaDocument { tables })
            },
        }
    }
}

/// The walk never re-sorts: at every point, the assembled document's
/// tables carry exactly the names the catalog returned, in the catalog's
/// order — the walk's output order is decided by the catalog rows alone,
/// so reordering the underlying catalog rows reorders the document.
pub proof fn lemma_walk_preserves_catalog_order(w: SchemaWalker)
    requires
        w.inv(),
    ensures
        w.built_spec().len() <= w.tables_spec().len(),
        forall|i: int|
            0 <= i < w.built_spec().len() ==> (#[trigger] w.built_spec()[i]).table_name
                == w.tables_spec()[i],
{
}

/// Connections are always released: a finished introspection walk has
/// acknowledged exactly as many releases as it opened connections,
/// whether it delivered a document or aborted on a catalog failure.
pub proof fn lemma_walk_connection_released(w: SchemaWalker)
    requires
        w.inv(),
        w.is_done(),
    ensures
        w.opens() == w.closes(),
{
}

} // verus!
