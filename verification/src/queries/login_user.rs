//! Authentication by email and password.
//!
//! The statement looks the row up by email alone; the password is never part
//! of the `WHERE` clause.  It is compared in this code after the fetch, so
//! the comparison stays in one place.  Three outcomes: a matching row with a
//! matching password yields the stored numeric id; a matching row with a
//! different password is the invalid-password error; no matching row is the
//! email-not-found error.  Failure never folds into a sentinel id.

use vstd::prelude::*;

use crate::db_interface::Query;
use crate::queries::errors::QueryError;
use crate::queries_result_views::LoginUserQueryResultView;
use crate::query_views::login_user::LoginUserQueryView;
use crate::store::has_email;
use crate::store::row_by_email;
use crate::store::UserRecord;
use crate::store::UserStore;

verus! {

/// Decide the outcome of an authentication attempt from the fetched row.
///
/// `row` is the statement's answer for `email`: the stored id and password
/// of the matching row, or `None` when no row matched.  No row is the
/// email-not-found error; a row whose password differs from the given one is
/// the invalid-password error; otherwise the stored id is the result.  The
/// password comparison lives here, after the fetch, never in the statement.
pub fn login_decision(email: &String, password: &String, row: Option<(u64, String)>) -> (r:
    Result<LoginUserQueryResultView, QueryError>)
    ensures
        row is None ==> (r matches Err(e) && e matches QueryError::EmailNotFound(m) && m@
            == email@),
        row matches Some(p) ==> {
            &&& p.1@ == password@ ==> (r matches Ok(v) && v.user_id == p.0)
            &&& p.1@ != password@ ==> (r matches Err(e)
                && e matches QueryError::InvalidPassword(m) && m@ == email@)
        },
{
    match row {
        Some(p) => {
            if p.1 == *password {
                Ok(LoginUserQueryResultView::new(p.0))
            } else {
                Err(QueryError::InvalidPassword(email.clone()))
            }
        },
        None => Err(QueryError::EmailNotFound(email.clone())),
    }
}

/// Authenticate the given email and password pair.
pub struct LoginUserQuery {
    pub view: LoginUserQueryView,
}

impl LoginUserQuery {
    /// A query for the given credential pair.
    pub fn new(email: &str, password: &str) -> (q: LoginUserQuery)
        ensures
            q.view.email@ == email@,
            q.view.password@ == password@,
    {
        LoginUserQuery { view: LoginUserQueryView::new(email.to_owned(), password.to_owned()) }
    }
}

impl Query for LoginUserQuery {
    type Output = LoginUserQueryResultView;

    /// Reading never changes the table.
    open spec fn table_after(&self, t: Seq<UserRecord>) -> Seq<UserRecord> {
        t
    }

    /// The stored id is owed exactly when some row carries the email and its
    /// stored password is the given one.
    open spec fn succeeds(&self, t: Seq<UserRecord>) -> bool {
        has_email(t, self.view.email@) && t[row_by_email(t, self.view.email@)].password@
            == self.view.password@
    }

    /// The successful output carries exactly the stored numeric id of the
    /// matching row.
    open spec fn ok_matches(&self, t: Seq<UserRecord>, out: &Self::Output) -> bool {
        out.user_id == t[row_by_email(t, self.view.email@)].id
    }

    /// Without a matching row the email-not-found error is owed; with one
    /// whose password differs, the invalid-password error.  Both carry the
    /// email that was tried.
    open spec fn err_matches(&self, t: Seq<UserRecord>, e: &QueryError) -> bool {
        if has_email(t, self.view.email@) {
            e matches QueryError::InvalidPassword(m) && m@ == self.view.email@
        } else {
            e matches QueryError::EmailNotFound(m) && m@ == self.view.email@
        }
    }

    fn execute(&self, store: &mut UserStore) -> (r: Result<Self::Output, QueryError>) {
        let row = store.query_login_row(&self.view.email);
        login_decision(&self.view.email, &self.view.password, row)
    }
}

} // verus!
