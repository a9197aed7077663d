//! Statement execution and connection testing as session protocols.
//!
//! Each operation opens its own connection, uses it once, and releases it
//! exactly once on every exit path. The driver I/O itself happens outside
//! this crate; a session records which step the operation has reached and
//! holds the outcome back until the connection's release has been
//! acknowledged, so the outcome of an operation that opened a connection
//! can only be obtained after the close. A connection that never opened
//! (the connect itself failed) has nothing to release and fails at once.

use vstd::prelude::*;
use crate::coerce::{RawCell, coerce_spec};
use crate::error::DbError;
use crate::profile::{ConnectionProfile, success_message_spec, success_message};
use crate::query_result::{QueryResult, build_query_result, result_well_formed};

verus! {

enum ExecPhase {
    Connecting,
    Executing,
    Closing,
    Done,
}

/// The session of one `execute` call: connect, submit the statement
/// verbatim, materialize the rows, release the connection, deliver the
/// result. The statement text is never parsed or classified here; the
/// boundary layer submits it as given and reports back either the rows or
/// the driver's message.
pub struct ExecSession {
    phase: ExecPhase,
    pending_columns: Option<Vec<String>>,
    pending_rows: Option<Vec<Vec<RawCell>>>,
    pending_elapsed: u128,
    pending_error: Option<DbError>,
    opened: bool,
    closed: bool,
}

impl ExecSession {
    /// Awaiting the outcome of the connect.
    pub closed spec fn is_connecting(self) -> bool {
        self.phase is Connecting
    }

    /// Connected; awaiting the outcome of the statement.
    pub closed spec fn is_executing(self) -> bool {
        self.phase is Executing
    }

    /// Outcome decided; awaiting acknowledgement of the release.
    pub closed spec fn is_closing(self) -> bool {
        self.phase is Closing
    }

    /// Outcome delivered.
    pub closed spec fn is_done(self) -> bool {
        self.phase is Done
    }

    /// How many connections this session opened (zero or one).
    pub closed spec fn opens(self) -> nat {
        if self.opened {
            1
        } else {
            0
        }
    }

    /// How many releases this session has acknowledged (zero or one).
    pub closed spec fn closes(self) -> nat {
        if self.closed {
            1
        } else {
            0
        }
    }

    /// The error held back until the release, if the statement failed.
    pub closed spec fn stored_error(self) -> Option<DbError> {
        self.pending_error
    }

    /// The first row's column names, held back until the release.
    pub closed spec fn stored_columns(self) -> Seq<String> {
        self.pending_columns->0@
    }

    /// The probe outcomes of every cell, held back until the release.
    pub closed spec fn stored_rows(self) -> Seq<Vec<RawCell>> {
        self.pending_rows->0@
    }

    /// The measured elapsed time, held back until the release.
    pub closed spec fn stored_elapsed(self) -> u128 {
        self.pending_elapsed
    }

    /// The session invariant: a connection is open exactly between the
    /// acknowledged connect and the acknowledged release, a finished
    /// session has released everything it opened, and a decided success
    /// holds one value per column in every stored row.
    pub closed spec fn inv(self) -> bool {
        &&& (self.phase is Connecting ==> !self.opened && !self.closed)
        &&& (self.phase is Executing ==> self.opened && !self.closed)
        &&& (self.phase is Closing ==> self.opened && !self.closed)
        &&& (self.phase is Done ==> self.opened == self.closed)
        &&& (self.phase is Closing && self.pending_error is None ==> {
            &&& self.pending_columns is Some
            &&& self.pending_rows is Some
            &&& forall|i: int|
                0 <= i < self.stored_rows().len() ==> (#[trigger] self.stored_rows()[i])@.len()
                    == self.stored_columns().len()
        })
    }

    /// Start the session; the next step is the connect.
    pub fn new() -> (s: ExecSession)
        ensures
            s.inv(),
            s.is_connecting(),
            s.opens() == 0,
            s.closes() == 0,
    {
        ExecSession {
            phase: ExecPhase::Connecting,
            pending_columns: None,
            pending_rows: None,
            pending_elapsed: 0,
            pending_error: None,
            opened: false,
            closed: false,
        }
    }

    /// The connect succeeded: a connection is now open and the statement
    /// may be submitted.
    pub fn connected(&mut self)
        requires
            old(self).inv(),
            old(self).is_connecting(),
        ensures
            final(self).inv(),
            final(self).is_executing(),
            final(self).opens() == 1,
            final(self).closes() == 0,
    {
        self.phase = ExecPhase::Executing;
        self.opened = true;
    }

    /// The connect failed: no connection was ever opened, so nothing is
    /// owed a release and the operation fails at once with the driver's
    /// message as a connection error.
    pub fn connect_failed(&mut self, message: String) -> (e: DbError)
        requires
            old(self).inv(),
            old(self).is_connecting(),
        ensures
            final(self).inv(),
            final(self).is_done(),
            final(self).opens() == final(self).closes(),
            e == DbError::ConnectionError(message),
    {
        self.phase = ExecPhase::Done;
        DbError::ConnectionError(message)
    }

    /// All rows are materialized and the timer has been stopped: store
    /// the first row's column names, every cell's probe outcomes and the
    /// elapsed milliseconds, and move on to the release. Every row holds
    /// one cell per column name (a single statement cannot produce
    /// heterogeneous rows).
    pub fn rows_fetched(
        &mut self,
        column_names: Vec<String>,
        rows: Vec<Vec<RawCell>>,
        elapsed_ms: u128,
    )
        requires
            old(self).inv(),
            old(self).is_executing(),
            forall|i: int|
                0 <= i < rows@.len() ==> (#[trigger] rows@[i])@.len() == column_names@.len(),
        ensures
            final(self).inv(),
            final(self).is_closing(),
            final(self).stored_error() is None,
            final(self).stored_columns() == column_names@,
            final(self).stored_rows() == rows@,
            final(self).stored_elapsed() == elapsed_ms,
    {
        self.phase = ExecPhase::Closing;
        self.pending_columns = Some(column_names);
        self.pending_rows = Some(rows);
        self.pending_elapsed = elapsed_ms;
        self.pending_error = None;
    }

    /// The statement failed or the driver failed while materializing
    /// rows: hold the driver's message as an execution error until the
    /// connection's release has been acknowledged.
    pub fn statement_failed(&mut self, message: String)
        requires
            old(self).inv(),
            old(self).is_executing(),
        ensures
            final(self).inv(),
            final(self).is_closing(),
            final(self).stored_error() == Some(DbError::ExecutionError(message)),
    {
        self.phase = ExecPhase::Closing;
        self.pending_error = Some(DbError::ExecutionError(message));
    }

    /// The connection's release has been acknowledged: deliver the
    /// outcome. A stored failure comes out as it was stored; a stored
    /// success is assembled into the result set, each cell coerced under
    /// the documented probe order, the column list empty when no rows
    /// came back.
    pub fn close_acknowledged(&mut self) -> (r: Result<QueryResult, DbError>)
        requires
            old(self).inv(),
            old(self).is_closing(),
        ensures
            final(self).inv(),
            final(self).is_done(),
            final(self).opens() == final(self).closes(),
            old(self).stored_error() is Some ==> r == Err::<QueryResult, DbError>(
                old(self).stored_error()->0,
            ),
            old(self).stored_error() is None ==> {
                &&& r is Ok
                &&& result_well_formed(r->Ok_0)
                &&& (r->Ok_0).execution_time_ms == old(self).stored_elapsed()
                &&& (r->Ok_0).row_count == old(self).stored_rows().len()
                &&& (r->Ok_0).columns@ == (if old(self).stored_rows().len() == 0 {
                    Seq::<String>::empty()
                } else {
                    old(self).stored_columns()
                })
                &&& (r->Ok_0).rows@.len() == old(self).stored_rows().len()
                &&& forall|i: int, j: int|
                    0 <= i < old(self).stored_rows().len() && 0 <= j < old(self).stored_rows()[i]@.len()
                        ==> (#[trigger] (r->Ok_0).rows@[i]@[j]) == coerce_spec(
                        old(self).stored_rows()[i]@[j],
                    )
            },
    {
        self.phase = ExecPhase::Done;
        self.closed = true;
        let err = self.pending_error.take();
        match err {
            Some(e) => Err(e),
            None => {
                let cols = self.pending_columns.take().unwrap();
                let rows = self.pending_rows.take().unwrap();
                Ok(build_query_result(cols, rows, self.pending_elapsed))
            },
        }
    }
}

/// Connections are always released: a finished `execute` session has
/// acknowledged exactly as many releases as it opened connections,
/// whether the operation succeeded or failed.
pub proof fn lemma_exec_connection_released(s: ExecSession)
    requires
        s.inv(),
        s.is_done(),
    ensures
        s.opens() == s.closes(),
{
}

enum TestPhase {
    Connecting,
    Closing,
    Done,
}

/// The session of one connection test: connect, release, report. The
/// profile is held so the success message can name the host, port and
/// database that were reached.
pub struct TestSession {
    phase: TestPhase,
    profile: ConnectionProfile,
    opened: bool,
    closed: bool,
}

impl TestSession {
    /// Awaiting the outcome of the connect.
    pub closed spec fn is_connecting(self) -> bool {
        self.phase is Connecting
    }

    /// Connected; awaiting acknowledgement of the release.
    pub closed spec fn is_closing(self) -> bool {
        self.phase is Closing
    }

    /// Outcome delivered.
    pub closed spec fn is_done(self) -> bool {
        self.phase is Done
    }

    /// The profile under test.
    pub closed spec fn profile_spec(self) -> ConnectionProfile {
        self.profile
    }

    /// How many connections this session opened (zero or one).
    pub closed spec fn opens(self) -> nat {
        if self.opened {
            1
        } else {
            0
        }
    }

    /// How many releases this session has acknowledged (zero or one).
    pub closed spec fn closes(self) -> nat {
        if self.closed {
            1
        } else {
            0
        }
    }

    /// The session invariant: open exactly between connect and release,
    /// and nothing left open once the outcome is delivered.
    pub closed spec fn inv(self) -> bool {
        &&& (self.phase is Connecting ==> !self.opened && !self.closed)
        &&& (self.phase is Closing ==> self.opened && !self.closed)
        &&& (self.phase is Done ==> self.opened == self.closed)
    }

    /// Start the test of one profile; the next step is the connect.
    pub fn new(profile: ConnectionProfile) -> (s: TestSession)
        ensures
            s.inv(),
            s.is_connecting(),
            s.profile_spec() == profile,
            s.opens() == 0,
            s.closes() == 0,
    {
        TestSession { phase: TestPhase::Connecting, profile, opened: false, closed: false }
    }

    /// The connect succeeded: the only thing left is to release the
    /// connection again.
    pub fn connected(&mut self)
        requires
            old(self).inv(),
            old(self).is_connecting(),
        ensures
            final(self).inv(),
            final(self).is_closing(),
            final(self).profile_spec() == old(self).profile_spec(),
            final(self).opens() == 1,
            final(self).closes() == 0,
    {
        self.phase = TestPhase::Closing;
        self.opened = true;
    }

    /// The connect failed: nothing was opened, so the test fails at once
    /// with the driver's message as a connection error.
    pub fn connect_failed(&mut self, message: String) -> (e: DbError)
        requires
            old(self).inv(),
            old(self).is_connecting(),
        ensures
            final(self).inv(),
            final(self).is_done(),
            final(self).opens() == final(self).closes(),
            e == DbError::ConnectionError(message),
    {
        self.phase = TestPhase::Done;
        DbError::ConnectionError(message)
    }

    /// The connection's release has been acknowledged: report success,
    /// naming the host, port and database of the tested profile.
    pub fn close_acknowledged(&mut self) -> (r: String)
        requires
            old(self).inv(),
            old(self).is_closing(),
        ensures
            final(self).inv(),
            final(self).is_done(),
            final(self).opens() == final(self).closes(),
            r@ == success_message_spec(old(self).profile_spec()),
    {
        self.phase = TestPhase::Done;
        self.closed = true;
        success_message(&self.profile)
    }
}

/// Connections are always released: a finished connection test has
/// acknowledged exactly as many releases as it opened connections.
pub proof fn lemma_test_connection_released(s: TestSession)
    requires
        s.inv(),
        s.is_done(),
    ensures
        s.opens() == s.closes(),
{
}

} // verus!
