//! Registration of a new user.
//!
//! The insert binds every field as a driver parameter.  The optional phone
//! number changes the parameter arity: with a phone the statement lists five
//! columns, without it four — the `status` column is never listed, so a
//! registered row carries a null status.  Success requires exactly one
//! affected row; any other count is the row-count-mismatch error carrying
//! expected and actual counts, even when the driver itself raised nothing.
//! A driver failure is classified once, at the boundary.

use vstd::prelude::*;

use crate::db_interface::Query;
use crate::queries::errors::lemma_dup_key_message_classified;
use crate::queries::errors::lemma_serial_overflow_message_classified;
use crate::queries::errors::QueryError;
use crate::queries_result_views::RegisterUserQueryResultView;
use crate::store::dup_key_message;
use crate::store::has_email;
use crate::store::serial_overflow_message;
use crate::store::wf_table;
use crate::store::UserRecord;
use crate::store::UserStore;
use crate::store::MAX_SERIAL;

verus! {

/// Register a new user with the given fields.
pub struct RegisterUserQuery {
    pub first_name: String,
    pub last_name: String,
    pub email: String,
    pub password: String,
    pub phone: Option<String>,
}

impl RegisterUserQuery {
    /// A query for the given fields; the phone number is optional.
    pub fn new(first: &str, last: &str, email: &str, pass: &str, phone: Option<String>) -> (q:
        RegisterUserQuery)
        ensures
            q.first_name@ == first@,
            q.last_name@ == last@,
            q.email@ == email@,
            q.password@ == pass@,
            q.phone == phone,
    {
        RegisterUserQuery {
            first_name: first.to_owned(),
            last_name: last.to_owned(),
            email: email.to_owned(),
            password: pass.to_owned(),
            phone,
        }
    }

    /// The fixed statement text of this variant: the column list and the
    /// parameter arity follow whether a phone number is present.  Every value
    /// is bound as a driver parameter, never written into the text.
    pub fn request(&self) -> (r: String)
        ensures
            self.phone is Some ==> r@
                == "INSERT INTO users (first_name, last_name, email, password, phone_number) VALUES ($1, $2, $3, $4, $5)"@,
            self.phone is None ==> r@
                == "INSERT INTO users (first_name, last_name, email, password) VALUES ($1, $2, $3, $4)"@,
    {
        match &self.phone {
            Some(_) => {
                "INSERT INTO users (first_name, last_name, email, password, phone_number) VALUES ($1, $2, $3, $4, $5)".to_owned()
            },
            None => {
                "INSERT INTO users (first_name, last_name, email, password) VALUES ($1, $2, $3, $4)".to_owned()
            },
        }
    }

    /// Whether registration can succeed against table `t`: the email is
    /// still free and the id sequence still has a key to assign.
    pub open spec fn can_register(&self, t: Seq<UserRecord>) -> bool {
        !has_email(t, self.email@) && t.len() < MAX_SERIAL
    }

    /// The row a successful registration appends: the next sequential id,
    /// the given fields, and a null `status` column.
    pub open spec fn registered_row(&self, t: Seq<UserRecord>) -> UserRecord {
        UserRecord {
            id: (t.len() + 1) as u64,
            first_name: self.first_name,
            last_name: self.last_name,
            email: self.email,
            password: self.password,
            phone_number: self.phone,
            status: None,
        }
    }
}

/// Decide the outcome of an insert from its affected-row count.
///
/// Success requires exactly one affected row; any other count is the
/// row-count-mismatch error carrying the expected and the actual count, even
/// when the statement itself raised no driver error.
pub fn register_decision(affected: u64) -> (r: Result<RegisterUserQueryResultView, QueryError>)
    ensures
        affected == 1 ==> r is Ok,
        affected != 1 ==> r == Err::<RegisterUserQueryResultView, QueryError>(
            QueryError::AffectedRowsMismatch { expected: 1u64, actual: affected },
        ),
{
    if affected == 1 {
        Ok(RegisterUserQueryResultView::new())
    } else {
        Err(QueryError::AffectedRowsMismatch { expected: 1, actual: affected })
    }
}

/// Law: registering a user with a unique, well-shaped email and then
/// checking existence by that email always answers `true`.
///
/// After a registration that is owed success against table `t`, the
/// existence check by the same email is itself owed success against the new
/// table, and every output its contract admits carries the flag `true`.
pub proof fn lemma_register_then_exists_by_email(
    q: &RegisterUserQuery,
    c: &crate::queries::does_user_exist_by_email::DoesUserExistByEmailQuery,
    t: Seq<UserRecord>,
)
    requires
        wf_table(t),
        q.can_register(t),
        c.email@ == q.email@,
        c.email@.contains('@'),
    ensures
        c.succeeds(q.table_after(t)),
        forall|out: crate::queries_result_views::DoesUserExistByEmailQueryResultView|
            c.ok_matches(q.table_after(t), &out) ==> out.exists,
{
    assert(q.table_after(t)[t.len() as int].email@ == q.email@);
}

impl Query for RegisterUserQuery {
    type Output = RegisterUserQueryResultView;

    /// A successful registration appends the new row; a refused one leaves
    /// the table as it was.
    open spec fn table_after(&self, t: Seq<UserRecord>) -> Seq<UserRecord> {
        if self.can_register(t) {
            t.push(self.registered_row(t))
        } else {
            t
        }
    }

    /// The unit marker is owed exactly when the email is still free and the
    /// id sequence is not exhausted.
    open spec fn succeeds(&self, t: Seq<UserRecord>) -> bool {
        self.can_register(t)
    }

    /// The unit marker carries nothing further.
    open spec fn ok_matches(&self, t: Seq<UserRecord>, out: &Self::Output) -> bool {
        true
    }

    /// A taken email is owed the constraint-violation classification of the
    /// driver's duplicate-key text — never a generic execution failure; an
    /// exhausted id sequence is owed the generic classification of its text.
    open spec fn err_matches(&self, t: Seq<UserRecord>, e: &QueryError) -> bool {
        if has_email(t, self.email@) {
            e matches QueryError::ConstraintViolation(m) && m@ == dup_key_message()
        } else {
            e matches QueryError::ExecutionFailed(m) && m@ == serial_overflow_message()
        }
    }

    fn execute(&self, store: &mut UserStore) -> (r: Result<Self::Output, QueryError>) {
        let no_status: Option<String> = None;
        let outcome = store.insert_row(
            &self.first_name,
            &self.last_name,
            &self.email,
            &self.password,
            &self.phone,
            &no_status,
        );
        match outcome {
            Ok(affected) => register_decision(affected),
            Err(m) => {
                proof {
                    lemma_dup_key_message_classified();
                    lemma_serial_overflow_message_classified();
                }
                Err(QueryError::from(m))
            },
        }
    }
}

} // verus!
