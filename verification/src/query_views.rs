//! Views carrying a query's parameters and statement text.

pub mod login_user;

pub use login_user::LoginUserQueryView;
