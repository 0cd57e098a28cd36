//! The query variants of the execution layer.
//!
//! Each variant is an immutable, caller-constructed value carrying its own
//! parameters and its fixed statement text; the executor consumes it once and
//! maps the store's answer into a typed result view or a classified error.

pub mod about_user;
pub mod does_user_exist_by_email;
pub mod does_user_exist_by_id;
pub mod errors;
pub mod login_user;
pub mod register_user;

pub use about_user::AboutUserQuery;
pub use does_user_exist_by_email::DoesUserExistByEmailQuery;
pub use does_user_exist_by_id::DoesUserExistByIdQuery;
pub use errors::QueryError;
pub use login_user::LoginUserQuery;
pub use register_user::RegisterUserQuery;

use vstd::prelude::*;

verus! {

/// The stable tag a query declares for its kind.
#[derive(Clone, Copy, Debug, PartialEq, Eq, Structural)]
pub enum QUERY {
    AboutUser,
    DoesUserExistByEmail,
    DoesUserExistById,
    LoginUser,
    RegisterUser,
}

} // verus!
