//! Existence check by numeric id.
//!
//! A single-row `EXISTS` statement: absence of a matching row is a successful
//! boolean `false`, never an error.

use vstd::prelude::*;

use crate::db_interface::Query;
use crate::queries::errors::QueryError;
use crate::queries_result_views::DoesUserExistByIdQueryResultView;
use crate::store::has_id;
use crate::store::UserRecord;
use crate::store::UserStore;

verus! {

/// Ask whether a row with the given id exists.
pub struct DoesUserExistByIdQuery {
    pub user_id: u64,
}

impl DoesUserExistByIdQuery {
    /// A query for the given numeric id.
    pub fn new(user_id: u64) -> (q: DoesUserExistByIdQuery)
        ensures
            q.user_id == user_id,
    {
        DoesUserExistByIdQuery { user_id }
    }

    /// The fixed statement text of this variant; the id is bound as a driver
    /// parameter, never written into the text.
    pub fn request(&self) -> (r: String)
        ensures
            r@ == "SELECT EXISTS(SELECT 1 FROM users WHERE id = $1)"@,
    {
        "SELECT EXISTS(SELECT 1 FROM users WHERE id = $1)".to_owned()
    }
}

impl Query for DoesUserExistByIdQuery {
    type Output = DoesUserExistByIdQueryResultView;

    /// Reading never changes the table.
    open spec fn table_after(&self, t: Seq<UserRecord>) -> Seq<UserRecord> {
        t
    }

    /// The existence check is owed a boolean answer on every input.
    open spec fn succeeds(&self, t: Seq<UserRecord>) -> bool {
        true
    }

    /// The answered flag is exactly whether some row carries the id.
    open spec fn ok_matches(&self, t: Seq<UserRecord>, out: &Self::Output) -> bool {
        out.exists == has_id(t, self.user_id)
    }

    /// No error is ever owed.
    open spec fn err_matches(&self, t: Seq<UserRecord>, e: &QueryError) -> bool {
        false
    }

    fn execute(&self, store: &mut UserStore) -> (r: Result<Self::Output, QueryError>) {
        let exists = store.exists_by_id(self.user_id);
        Ok(DoesUserExistByIdQueryResultView::new(exists))
    }
}

} // verus!
