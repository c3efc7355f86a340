//! Who may act as an administrator: credential checks and password hashing.

pub mod kdf;
pub mod password;

pub use kdf::{Algorithm, HashCheck, HashPolicy, Version};
pub use password::{
    change_password, compute_passwd_hash, conclude, expected_hash, hash_policy, hash_with_salt,
    judge_hash_check, update_failed, validate_credentials, verify_passwd_hash, AuthError,
    Credentails, PasswordUpdate, StoredCredentials,
};
