//! The database interface: the execution contract shared by all query
//! variants, and the manager that owns the single live connection.
//!
//! The manager is an explicitly constructed, explicitly passed handle (not a
//! hidden process-wide cell), so every caller and every test can own an
//! isolated instance.  Its state machine is `Uninitialized -> Connected ->
//! Disconnected -> Connected -> ...`: queries executed while no client handle
//! is populated fail fast with a not-initialized error, and a failed connect
//! leaves the manager retryable.

use vstd::prelude::*;
use vstd::string::StringExecFns;

use crate::errors::DatabaseError;
use crate::queries::errors::QueryError;
use crate::queries::QUERY;
use crate::queries_result_views::QueryResult;
use crate::store::dup_key_message;
use crate::store::has_email;
use crate::store::serial_overflow_message;
use crate::store::wf_table;
use crate::store::UserRecord;
use crate::store::UserStore;
use crate::store::MAX_SERIAL;
use crate::queries::errors::lemma_dup_key_message_classified;
use crate::queries::errors::lemma_serial_overflow_message_classified;

verus! {

/// The behaviour of a query result view: one normalized accessor yielding the
/// tagged union of primitive result shapes, so callers can compare results
/// without knowing the concrete view type.
pub trait QueryResultView {
    /// The normalized result this view wraps.
    spec fn result_spec(&self) -> QueryResult;

    /// Returns the result of the query as a `QueryResult`.
    fn get_result(&self) -> (r: QueryResult)
        ensures
            r == self.result_spec(),
    ;
}

/// The descriptive surface of a query view: its parameterized statement text,
/// a raw rendering of that statement, and its stable query-type tag.
pub trait DatabaseQueryView {
    /// The parameterized statement text this view stands for.
    spec fn request_spec(&self) -> Seq<char>;

    /// The raw, interpolated rendering of the statement.
    spec fn raw_request_spec(&self) -> Seq<char>;

    /// The stable tag of this query's kind.
    spec fn query_type_spec(&self) -> QUERY;

    /// Returns the parameterized statement text of the query.
    fn get_request(&self) -> (r: String)
        ensures
            r@ == self.request_spec(),
    ;

    /// Returns the statement text with the parameters written into it; for
    /// display only, never issued to the driver.
    fn get_raw_request(&self) -> (r: String)
        ensures
            r@ == self.raw_request_spec(),
    ;

    /// Returns the type of query.
    fn get_query_type(&self) -> (q: QUERY)
        ensures
            q == self.query_type_spec(),
    ;
}

/// The execution contract every query variant implements: one generic
/// pipeline executes any of them, and each produces its own typed output.
///
/// The four specification members pin the variant's observable behaviour
/// down: how the table changes, exactly when a successful result is owed, and
/// what the output or the error must then be.
pub trait Query {
    /// The typed output this query produces on success.
    type Output;

    /// The table after this query has run against table `t`.
    spec fn table_after(&self, t: Seq<UserRecord>) -> Seq<UserRecord>;

    /// Whether this query is owed a successful result against table `t`.
    spec fn succeeds(&self, t: Seq<UserRecord>) -> bool;

    /// What a successful output must look like against table `t`.
    spec fn ok_matches(&self, t: Seq<UserRecord>, out: &Self::Output) -> bool;

    /// Which classified error is owed against table `t`.
    spec fn err_matches(&self, t: Seq<UserRecord>, e: &QueryError) -> bool;

    /// Execute this query against the live store, producing the typed output
    /// or a classified query error.
    fn execute(&self, store: &mut UserStore) -> (r: Result<Self::Output, QueryError>)
        requires
            old(store).wf(),
        ensures
            final(store).wf(),
            final(store)@ == self.table_after(old(store)@),
            r is Ok <==> self.succeeds(old(store)@),
            r matches Ok(out) ==> self.ok_matches(old(store)@, &out),
            r matches Err(e) ==> self.err_matches(old(store)@, &e),
    ;
}

/// An error escaping the execution facade: either the connection layer
/// refused to run anything, or the query itself failed.
#[derive(Debug)]
pub enum ExecuteError {
    /// The connection layer failed before the query could run.
    Connection(DatabaseError),
    /// The query ran and failed with a classified query error.
    Query(QueryError),
}

/// The configuration the manager is constructed from: host, database name and
/// credential pair, each required.
pub struct DbConfig {
    pub db_host: String,
    pub db_user: String,
    pub db_password: String,
    pub db_name: String,
}

/// The connection string built from a configuration, in the `key=value` form
/// the driver parses.
pub open spec fn connection_string_of(c: &DbConfig) -> Seq<char> {
    "host="@ + c.db_host@ + " user="@ + c.db_user@ + " password="@ + c.db_password@ + " dbname="@
        + c.db_name@
}

impl DbConfig {
    /// Bundle the four required connection parameters.
    pub fn new(db_host: String, db_user: String, db_password: String, db_name: String) -> (c:
        DbConfig)
        ensures
            c.db_host == db_host,
            c.db_user == db_user,
            c.db_password == db_password,
            c.db_name == db_name,
    {
        DbConfig { db_host, db_user, db_password, db_name }
    }

    /// Render the configuration as the driver's connection string.
    pub fn connection_string(&self) -> (s: String)
        ensures
            s@ == connection_string_of(self),
    {
        let mut s = "host=".to_owned();
        s.append(self.db_host.as_str());
        s.append(" user=");
        s.append(self.db_user.as_str());
        s.append(" password=");
        s.append(self.db_password.as_str());
        s.append(" dbname=");
        s.append(self.db_name.as_str());
        assert(s@ =~= connection_string_of(self));
        s
    }
}

/// The connection manager: owns the configuration, the single live client
/// handle, and the store that handle reaches.
pub struct DbInterface {
    config: DbConfig,
    connected: bool,
    store: UserStore,
}

impl DbInterface {
    /// Whether the live client handle is currently populated.
    pub closed spec fn is_connected(&self) -> bool {
        self.connected
    }

    /// The table of the store this manager's connection reaches.
    pub closed spec fn table(&self) -> Seq<UserRecord> {
        self.store@
    }

    /// The configuration this manager was constructed from.
    pub closed spec fn cfg(&self) -> DbConfig {
        self.config
    }

    /// The manager's table is well formed.
    pub open spec fn wf(&self) -> bool {
        wf_table(self.table())
    }

    /// A fresh manager in the `Uninitialized` state: no client handle, an
    /// empty store.
    pub fn new(config: DbConfig) -> (db: DbInterface)
        ensures
            db.wf(),
            !db.is_connected(),
            db.table().len() == 0,
            db.cfg() == config,
    {
        DbInterface { config, connected: false, store: UserStore::new() }
    }

    /// Populate the client handle, leaving the store's contents untouched,
    /// and report the driver's success marker.
    pub fn connect(&mut self) -> (r: Result<String, DatabaseError>)
        requires
            old(self).wf(),
        ensures
            final(self).wf(),
            final(self).is_connected(),
            final(self).table() == old(self).table(),
            final(self).cfg() == old(self).cfg(),
            r matches Ok(m) && m@ == "PostgreSQL Connected"@,
    {
        self.connected = true;
        Ok("PostgreSQL Connected".to_owned())
    }

    /// Drop the client handle, leaving the store's contents untouched, and
    /// report the success marker.  Idempotent: disconnecting twice reports
    /// success twice.
    pub fn disconnect(&mut self) -> (r: Result<String, DatabaseError>)
        requires
            old(self).wf(),
        ensures
            final(self).wf(),
            !final(self).is_connected(),
            final(self).table() == old(self).table(),
            final(self).cfg() == old(self).cfg(),
            r matches Ok(m) && m@ == "PostgreSql Disconnected"@,
    {
        self.connected = false;
        Ok("PostgreSql Disconnected".to_owned())
    }

    /// Execute any query against the current connection.
    ///
    /// While no client handle is populated — before the first `connect`, or
    /// after a `disconnect` — every query variant fails fast with the
    /// not-initialized connection error and the store is untouched.  With a
    /// live handle, the query's own execution contract governs the result.
    pub fn execute_query<Q: Query>(&mut self, query: Q) -> (r: Result<Q::Output, ExecuteError>)
        requires
            old(self).wf(),
        ensures
            final(self).wf(),
            final(self).is_connected() == old(self).is_connected(),
            final(self).cfg() == old(self).cfg(),
            !old(self).is_connected() ==> {
                &&& final(self).table() == old(self).table()
                &&& (r matches Err(e) && e matches ExecuteError::Connection(
                    DatabaseError::NotInitialized,
                ))
            },
            old(self).is_connected() ==> {
                &&& final(self).table() == query.table_after(old(self).table())
                &&& (r is Ok <==> query.succeeds(old(self).table()))
                &&& (r matches Ok(out) ==> query.ok_matches(old(self).table(), &out))
                &&& (r matches Err(e) ==> e matches ExecuteError::Query(qe)
                    && query.err_matches(old(self).table(), &qe))
            },
    {
        if !self.connected {
            return Err(ExecuteError::Connection(DatabaseError::NotInitialized));
        }
        match query.execute(&mut self.store) {
            Ok(out) => Ok(out),
            Err(e) => Err(ExecuteError::Query(e)),
        }
    }

    /// Run the full-row insert a deployment performs outside the query layer
    /// when it prepares the table (unlike registration, it supplies the
    /// nullable `phone_number` and `status` columns explicitly).  The row
    /// gets the next sequential id; a duplicate email is refused through the
    /// same driver-message classification as any other statement.
    pub fn seed_user(
        &mut self,
        first_name: &String,
        last_name: &String,
        email: &String,
        password: &String,
        phone_number: &Option<String>,
        status: &Option<String>,
    ) -> (r: Result<u64, ExecuteError>)
        requires
            old(self).wf(),
        ensures
            final(self).wf(),
            final(self).is_connected() == old(self).is_connected(),
            final(self).cfg() == old(self).cfg(),
            !old(self).is_connected() ==> {
                &&& final(self).table() == old(self).table()
                &&& (r matches Err(e) && e matches ExecuteError::Connection(
                    DatabaseError::NotInitialized,
                ))
            },
            old(self).is_connected() ==> {
                &&& (r is Ok <==> !has_email(old(self).table(), email@) && old(self).table().len()
                    < MAX_SERIAL)
                &&& (r matches Ok(n) ==> n == 1 && final(self).table() == old(self).table().push(
                    UserRecord {
                        id: (old(self).table().len() + 1) as u64,
                        first_name: *first_name,
                        last_name: *last_name,
                        email: *email,
                        password: *password,
                        phone_number: *phone_number,
                        status: *status,
                    },
                ))
                &&& (has_email(old(self).table(), email@) ==> (r matches Err(e)
                    && e matches ExecuteError::Query(QueryError::ConstraintViolation(m))
                    && m@ == dup_key_message() && final(self).table() == old(self).table()))
                &&& (!has_email(old(self).table(), email@) && old(self).table().len()
                    == MAX_SERIAL ==> (r matches Err(e) && e matches ExecuteError::Query(
                    QueryError::ExecutionFailed(m),
                ) && m@ == serial_overflow_message() && final(self).table() == old(self).table()))
            },
    {
        if !self.connected {
            return Err(ExecuteError::Connection(DatabaseError::NotInitialized));
        }
        match self.store.insert_row(first_name, last_name, email, password, phone_number, status) {
            Ok(n) => Ok(n),
            Err(m) => {
                proof {
                    lemma_dup_key_message_classified();
                    lemma_serial_overflow_message_classified();
                }
                Err(ExecuteError::Query(QueryError::from(m)))
            },
        }
    }
}

/// Build a fresh, explicitly owned handle to the database interface.
///
/// This is the facade's entry point: instead of a hidden process-wide cell,
/// every caller constructs and owns its interface, which starts in the
/// `Uninitialized` state.
pub fn get_db_interface(config: DbConfig) -> (db: DbInterface)
    ensures
        db.wf(),
        !db.is_connected(),
        db.table().len() == 0,
        db.cfg() == config,
{
    DbInterface::new(config)
}

} // verus!
