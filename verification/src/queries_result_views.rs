//! Typed wrappers around each query's output.
//!
//! A result view's payload shape is fixed by the query variant that produced
//! it and never changes after construction.  Every view exposes the one
//! normalized accessor of [`crate::db_interface::QueryResultView`], yielding a
//! [`QueryResult`].

use vstd::prelude::*;

use crate::db_interface::QueryResultView;

verus! {

/// The five stored text fields of one user, as profile lookup packages them.
#[derive(Debug)]
pub struct UserProfile {
    pub first_name: String,
    pub last_name: String,
    pub email: String,
    pub phone: String,
    pub status: String,
}

/// Field-for-field equality of two profiles, by the text they carry.
pub open spec fn profile_eq(a: &UserProfile, b: &UserProfile) -> bool {
    &&& a.first_name@ == b.first_name@
    &&& a.last_name@ == b.last_name@
    &&& a.email@ == b.email@
    &&& a.phone@ == b.phone@
    &&& a.status@ == b.status@
}

impl Clone for UserProfile {
    /// An exact copy of the profile.
    fn clone(&self) -> (res: UserProfile)
        ensures
            res == *self,
    {
        UserProfile {
            first_name: self.first_name.clone(),
            last_name: self.last_name.clone(),
            email: self.email.clone(),
            phone: self.phone.clone(),
            status: self.status.clone(),
        }
    }
}

impl vstd::std_specs::cmp::PartialEqSpecImpl for UserProfile {
    open spec fn obeys_eq_spec() -> bool {
        true
    }

    open spec fn eq_spec(&self, other: &UserProfile) -> bool {
        profile_eq(self, other)
    }
}

impl PartialEq for UserProfile {
    /// Two profiles are equal when all five fields carry the same text.
    fn eq(&self, other: &UserProfile) -> (r: bool) {
        self.first_name == other.first_name && self.last_name == other.last_name && self.email
            == other.email && self.phone == other.phone && self.status == other.status
    }
}

/// The normalized tagged union of primitive result shapes.
#[derive(Debug)]
pub enum QueryResult {
    /// An existence flag.
    Boolean(bool),
    /// A numeric identifier.
    U64(u64),
    /// A structured profile record.
    JSON(UserProfile),
    /// A unit success marker.
    Unit,
}

impl vstd::std_specs::cmp::PartialEqSpecImpl for QueryResult {
    open spec fn obeys_eq_spec() -> bool {
        true
    }

    open spec fn eq_spec(&self, other: &QueryResult) -> bool {
        match (self, other) {
            (QueryResult::Boolean(a), QueryResult::Boolean(b)) => a == b,
            (QueryResult::U64(a), QueryResult::U64(b)) => a == b,
            (QueryResult::JSON(a), QueryResult::JSON(b)) => profile_eq(a, b),
            (QueryResult::Unit, QueryResult::Unit) => true,
            _ => false,
        }
    }
}

impl PartialEq for QueryResult {
    /// Two results are equal when they carry the same shape and payload.
    fn eq(&self, other: &QueryResult) -> (r: bool) {
        match (self, other) {
            (QueryResult::Boolean(a), QueryResult::Boolean(b)) => *a == *b,
            (QueryResult::U64(a), QueryResult::U64(b)) => *a == *b,
            (QueryResult::JSON(a), QueryResult::JSON(b)) => *a == *b,
            (QueryResult::Unit, QueryResult::Unit) => true,
            _ => false,
        }
    }
}

/// Reads the existence flag out of a normalized result; any other shape reads
/// as `false`.
pub fn get_boolean_from_query_result(result: QueryResult) -> (b: bool)
    ensures
        b == (result matches QueryResult::Boolean(v) && v),
{
    match result {
        QueryResult::Boolean(v) => v,
        _ => false,
    }
}

/// Output of the existence check by id.
#[derive(Debug)]
pub struct DoesUserExistByIdQueryResultView {
    pub exists: bool,
}

impl DoesUserExistByIdQueryResultView {
    /// Wrap the existence flag the statement answered.
    pub fn new(exists: bool) -> (v: DoesUserExistByIdQueryResultView)
        ensures
            v.exists == exists,
    {
        DoesUserExistByIdQueryResultView { exists }
    }
}

impl QueryResultView for DoesUserExistByIdQueryResultView {
    open spec fn result_spec(&self) -> QueryResult {
        QueryResult::Boolean(self.exists)
    }

    fn get_result(&self) -> QueryResult {
        QueryResult::Boolean(self.exists)
    }
}

/// Output of the existence check by email.
#[derive(Debug)]
pub struct DoesUserExistByEmailQueryResultView {
    pub exists: bool,
}

impl DoesUserExistByEmailQueryResultView {
    /// Wrap the existence flag the statement answered.
    pub fn new(exists: bool) -> (v: DoesUserExistByEmailQueryResultView)
        ensures
            v.exists == exists,
    {
        DoesUserExistByEmailQueryResultView { exists }
    }
}

impl QueryResultView for DoesUserExistByEmailQueryResultView {
    open spec fn result_spec(&self) -> QueryResult {
        QueryResult::Boolean(self.exists)
    }

    fn get_result(&self) -> QueryResult {
        QueryResult::Boolean(self.exists)
    }
}

/// Output of a successful authentication: the stored numeric id.
#[derive(Debug)]
pub struct LoginUserQueryResultView {
    pub user_id: u64,
}

impl LoginUserQueryResultView {
    /// Wrap the authenticated user's id.
    pub fn new(user_id: u64) -> (v: LoginUserQueryResultView)
        ensures
            v.user_id == user_id,
    {
        LoginUserQueryResultView { user_id }
    }
}

impl QueryResultView for LoginUserQueryResultView {
    open spec fn result_spec(&self) -> QueryResult {
        QueryResult::U64(self.user_id)
    }

    fn get_result(&self) -> QueryResult {
        QueryResult::U64(self.user_id)
    }
}

/// Output of a profile lookup: the five stored text columns.
#[derive(Debug)]
pub struct AboutUserQueryResultView {
    pub profile: UserProfile,
}

impl AboutUserQueryResultView {
    /// Package the five fetched columns into a profile record.
    pub fn new(first_name: &str, last_name: &str, email: &str, phone: &str, status: &str) -> (v:
        AboutUserQueryResultView)
        ensures
            v.profile.first_name@ == first_name@,
            v.profile.last_name@ == last_name@,
            v.profile.email@ == email@,
            v.profile.phone@ == phone@,
            v.profile.status@ == status@,
    {
        AboutUserQueryResultView {
            profile: UserProfile {
                first_name: first_name.to_owned(),
                last_name: last_name.to_owned(),
                email: email.to_owned(),
                phone: phone.to_owned(),
                status: status.to_owned(),
            },
        }
    }
}

impl QueryResultView for AboutUserQueryResultView {
    open spec fn result_spec(&self) -> QueryResult {
        QueryResult::JSON(self.profile)
    }

    fn get_result(&self) -> QueryResult {
        QueryResult::JSON(self.profile.clone())
    }
}

/// Output of a successful registration: a unit success marker.
#[derive(Debug)]
pub struct RegisterUserQueryResultView {}

impl RegisterUserQueryResultView {
    /// Wrap the unit marker of an insert that affected exactly one row.
    pub fn new() -> (v: RegisterUserQueryResultView) {
        RegisterUserQueryResultView {}
    }
}

impl QueryResultView for RegisterUserQueryResultView {
    open spec fn result_spec(&self) -> QueryResult {
        QueryResult::Unit
    }

    fn get_result(&self) -> QueryResult {
        QueryResult::Unit
    }
}

} // verus!
