//! A convenience check on top of the execution facade.

use vstd::prelude::*;

use crate::db_interface::DbInterface;
use crate::db_interface::QueryResultView;
use crate::queries::does_user_exist_by_id::DoesUserExistByIdQuery;
use crate::queries_result_views::get_boolean_from_query_result;
use crate::store::has_id;

verus! {

/// Whether a user with the given id exists in the connected store.
///
/// Any failure to answer — including an unconnected manager — reads as
/// `false`; the store is never changed.
pub fn does_user_exist_by_id(db: &mut DbInterface, user_id: u64) -> (b: bool)
    requires
        old(db).wf(),
    ensures
        final(db).wf(),
        final(db).is_connected() == old(db).is_connected(),
        final(db).table() == old(db).table(),
        final(db).cfg() == old(db).cfg(),
        b == (old(db).is_connected() && has_id(old(db).table(), user_id)),
{
    let query = DoesUserExistByIdQuery::new(user_id);
    let result = db.execute_query(query);
    match result {
        Ok(view) => get_boolean_from_query_result(view.get_result()),
        Err(_) => false,
    }
}

} // verus!
