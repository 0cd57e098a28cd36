//! Existence check by email.
//!
//! The email is validated for shape — it must contain `@` — before any
//! statement is issued; a malformed email fails fast with the
//! invalid-email-format error.  The check is purely syntactic: injection
//! safety comes from driver-level parameter binding, not from this test.
//! For a well-shaped email, absence of a matching row is a successful
//! boolean `false`, never an error.

use vstd::prelude::*;

use crate::db_interface::Query;
use crate::queries::errors::QueryError;
use crate::queries_result_views::DoesUserExistByEmailQueryResultView;
use crate::store::has_email;
use crate::store::UserRecord;
use crate::store::UserStore;
use crate::text::string_contains_char;

verus! {

/// Ask whether a row with the given email exists.
pub struct DoesUserExistByEmailQuery {
    pub email: String,
}

impl DoesUserExistByEmailQuery {
    /// A query for the given email.
    pub fn new(email: &str) -> (q: DoesUserExistByEmailQuery)
        ensures
            q.email@ == email@,
    {
        DoesUserExistByEmailQuery { email: email.to_owned() }
    }

    /// The fixed statement text of this variant; the email is bound as a
    /// driver parameter, never written into the text.
    pub fn request(&self) -> (r: String)
        ensures
            r@ == "SELECT EXISTS(SELECT 1 FROM users WHERE email = $1)"@,
    {
        "SELECT EXISTS(SELECT 1 FROM users WHERE email = $1)".to_owned()
    }
}

impl Query for DoesUserExistByEmailQuery {
    type Output = DoesUserExistByEmailQueryResultView;

    /// Reading never changes the table.
    open spec fn table_after(&self, t: Seq<UserRecord>) -> Seq<UserRecord> {
        t
    }

    /// A boolean answer is owed exactly when the email is well shaped.
    open spec fn succeeds(&self, t: Seq<UserRecord>) -> bool {
        self.email@.contains('@')
    }

    /// The answered flag is exactly whether some row carries the email.
    open spec fn ok_matches(&self, t: Seq<UserRecord>, out: &Self::Output) -> bool {
        out.exists == has_email(t, self.email@)
    }

    /// The only owed error is the invalid-email-format refusal, carrying the
    /// rejected input.
    open spec fn err_matches(&self, t: Seq<UserRecord>, e: &QueryError) -> bool {
        e matches QueryError::InvalidEmailFormat(m) && m@ == self.email@
    }

    fn execute(&self, store: &mut UserStore) -> (r: Result<Self::Output, QueryError>) {
        if !string_contains_char(&self.email, '@') {
            return Err(QueryError::InvalidEmailFormat(self.email.clone()));
        }
        let exists = store.exists_by_email(&self.email);
        Ok(DoesUserExistByEmailQueryResultView::new(exists))
    }
}

} // verus!
