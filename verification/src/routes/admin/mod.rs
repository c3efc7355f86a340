//! The administrator's pages.

pub mod password;

pub use password::{
    after_update, after_validation, change_password_form, check_new_password,
    reject_anonymous_users,
};
