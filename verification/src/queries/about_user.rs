//! Profile lookup by numeric id.
//!
//! Unlike the existence checks, absence is an error here: a lookup that
//! matches no row is reported as invalid-id.  On success the five stored
//! text columns are packaged into the structured profile record; a null in a
//! nullable column is a mapping error, reported distinctly so callers can
//! tell a bad row shape apart from a rejected statement.

use vstd::prelude::*;

use crate::db_interface::Query;
use crate::queries::errors::QueryError;
use crate::queries_result_views::AboutUserQueryResultView;
use crate::store::has_id;
use crate::store::row_by_id;
use crate::store::wf_table;
use crate::store::UserRecord;
use crate::store::UserStore;

verus! {

/// The invalid-id text reported when the id matches no row.
pub open spec fn unknown_id_message() -> Seq<char> {
    "User ID not found"@
}

/// The mapping-error text reported when the `phone_number` column is null.
pub open spec fn null_phone_message() -> Seq<char> {
    "column phone_number was null"@
}

/// The mapping-error text reported when the `status` column is null.
pub open spec fn null_status_message() -> Seq<char> {
    "column status was null"@
}

/// Fetch the profile record of the given id.
pub struct AboutUserQuery {
    pub user_id: u64,
}

impl AboutUserQuery {
    /// A query for the given numeric id.
    pub fn new(user_id: u64) -> (q: AboutUserQuery)
        ensures
            q.user_id == user_id,
    {
        AboutUserQuery { user_id }
    }

    /// The fixed statement text of this variant; the id is bound as a driver
    /// parameter, never written into the text.
    pub fn request(&self) -> (r: String)
        ensures
            r@ == "SELECT first_name, last_name, email, phone_number, status FROM users WHERE id = $1"@,
    {
        "SELECT first_name, last_name, email, phone_number, status FROM users WHERE id = $1".to_owned()
    }
}

/// Law: inserted values are fetched back unmodified.
///
/// When a fully populated row has just been appended to the table, the
/// profile lookup by that row's id is owed success, and every output its
/// contract admits carries exactly the row's five stored fields.
pub proof fn lemma_insert_then_profile(
    t: Seq<UserRecord>,
    rec: UserRecord,
    q: &AboutUserQuery,
)
    requires
        wf_table(t.push(rec)),
        rec.phone_number is Some,
        rec.status is Some,
        q.user_id == rec.id,
    ensures
        q.succeeds(t.push(rec)),
        forall|out: crate::queries_result_views::AboutUserQueryResultView|
            q.ok_matches(t.push(rec), &out) ==> {
                &&& out.profile.first_name@ == rec.first_name@
                &&& out.profile.last_name@ == rec.last_name@
                &&& out.profile.email@ == rec.email@
                &&& (rec.phone_number matches Some(p) && out.profile.phone@ == p@)
                &&& (rec.status matches Some(s) && out.profile.status@ == s@)
            },
{
    let t2 = t.push(rec);
    assert(t2[t.len() as int] == rec);
    assert(rec.id == t.len() + 1);
    assert(has_id(t2, q.user_id));
    assert(row_by_id(t2, q.user_id) == t.len() as int) by {
        let j = row_by_id(t2, q.user_id);
        assert(0 <= j < t2.len() && t2[j].id == q.user_id);
    }
}

impl Query for AboutUserQuery {
    type Output = AboutUserQueryResultView;

    /// Reading never changes the table.
    open spec fn table_after(&self, t: Seq<UserRecord>) -> Seq<UserRecord> {
        t
    }

    /// A profile is owed exactly when a row carries the id and both nullable
    /// columns of that row are populated.
    open spec fn succeeds(&self, t: Seq<UserRecord>) -> bool {
        &&& has_id(t, self.user_id)
        &&& t[row_by_id(t, self.user_id)].phone_number is Some
        &&& t[row_by_id(t, self.user_id)].status is Some
    }

    /// The successful profile carries exactly the five stored fields of the
    /// matching row, unmodified.
    open spec fn ok_matches(&self, t: Seq<UserRecord>, out: &Self::Output) -> bool {
        let row = t[row_by_id(t, self.user_id)];
        &&& out.profile.first_name@ == row.first_name@
        &&& out.profile.last_name@ == row.last_name@
        &&& out.profile.email@ == row.email@
        &&& (row.phone_number matches Some(p) && out.profile.phone@ == p@)
        &&& (row.status matches Some(s) && out.profile.status@ == s@)
    }

    /// Without a matching row the invalid-id error is owed; with one, a null
    /// in `phone_number` and then in `status` is a mapping error.
    open spec fn err_matches(&self, t: Seq<UserRecord>, e: &QueryError) -> bool {
        if !has_id(t, self.user_id) {
            e matches QueryError::InvalidId(m) && m@ == unknown_id_message()
        } else if t[row_by_id(t, self.user_id)].phone_number is None {
            e matches QueryError::MappingError(m) && m@ == null_phone_message()
        } else {
            e matches QueryError::MappingError(m) && m@ == null_status_message()
        }
    }

    fn execute(&self, store: &mut UserStore) -> (r: Result<Self::Output, QueryError>) {
        let row = match store.query_profile_row(self.user_id) {
            Some(row) => row,
            None => {
                return Err(QueryError::InvalidId("User ID not found".to_owned()));
            },
        };
        let phone = match &row.phone_number {
            Some(p) => p,
            None => {
                return Err(QueryError::MappingError("column phone_number was null".to_owned()));
            },
        };
        let status = match &row.status {
            Some(s) => s,
            None => {
                return Err(QueryError::MappingError("column status was null".to_owned()));
            },
        };
        Ok(
            AboutUserQueryResultView::new(
                row.first_name.as_str(),
                row.last_name.as_str(),
                row.email.as_str(),
                phone.as_str(),
                status.as_str(),
            ),
        )
    }
}

} // verus!
