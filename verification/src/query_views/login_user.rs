//! The view behind the authentication query: its credential pair, its fixed
//! statement text, and its query-type tag.

use vstd::prelude::*;
use vstd::string::StringExecFns;

use crate::db_interface::DatabaseQueryView;
use crate::queries::QUERY;

verus! {

/// The caller-supplied credentials of one authentication attempt, together
/// with the query-type tag of the variant they drive.
pub struct LoginUserQueryView {
    pub email: String,
    pub password: String,
    pub query: QUERY,
}

impl LoginUserQueryView {
    /// A view over the given credential pair.
    pub fn new(email: String, password: String) -> (v: LoginUserQueryView)
        ensures
            v.email == email,
            v.password == password,
            v.query == QUERY::LoginUser,
    {
        LoginUserQueryView { email, password, query: QUERY::LoginUser }
    }

    /// The email of this attempt.
    pub fn get_email(&self) -> (r: &String)
        ensures
            r == &self.email,
    {
        &self.email
    }

    /// The password of this attempt.
    pub fn get_password(&self) -> (r: &String)
        ensures
            r == &self.password,
    {
        &self.password
    }
}

impl DatabaseQueryView for LoginUserQueryView {
    /// The fixed statement text; the email is bound as a driver parameter.
    open spec fn request_spec(&self) -> Seq<char> {
        "SELECT id, password FROM users WHERE email = $1"@
    }

    /// The raw rendering writes the email into the text; it is display-only
    /// and never issued to the driver.
    open spec fn raw_request_spec(&self) -> Seq<char> {
        "SELECT id, password FROM users WHERE email = '"@ + self.email@ + "'"@
    }

    open spec fn query_type_spec(&self) -> QUERY {
        self.query
    }

    fn get_request(&self) -> (r: String) {
        "SELECT id, password FROM users WHERE email = $1".to_owned()
    }

    fn get_raw_request(&self) -> (r: String) {
        let mut s = "SELECT id, password FROM users WHERE email = '".to_owned();
        s.append(self.email.as_str());
        s.append("'");
        assert(s@ =~= self.raw_request_spec());
        s
    }

    fn get_query_type(&self) -> (q: QUERY) {
        self.query
    }
}

} // verus!
