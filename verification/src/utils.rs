//! Convenience helpers on top of the execution facade.

pub mod does_user_exist_by_id;
