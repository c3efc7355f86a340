//! Credential verification and password hashing.
//!
//! A login claim is checked against the stored hash of its username, or
//! against a decoy hash where the username is unknown, so that both cases
//! do the same work. Every way of failing that judges the credentials
//! collapses into one error kind; faults of the machinery are another.

use crate::authentication::kdf::{
    argon2_encode, argon2_phc, carries_salt, check_phc, effective_lanes, fresh_salt,
    is_salt_text, is_valid_policy, lanes_in_range, params_view, phc_error_text, phc_header,
    phc_parameters, phc_params, phc_verdict, Algorithm, HashCheck, HashPolicy, Version, MAX_LANES,
    MAX_PASSWORD_BYTES,
};
use crate::failure::{failure, Failure};
use crate::secrets::SecretString;
use uuid::Uuid;
use vstd::prelude::*;

verus! {

#[verifier::external_type_specification]
#[verifier::external_body]
pub struct ExUuid(Uuid);

/// Why a credential check did not name a user.
#[derive(Debug)]
pub enum AuthError {
    /// The claim is wrong: unknown username, wrong password, or a stored
    /// hash that cannot be read. Which of them is for the server's own
    /// records.
    InvalidCredentials(Failure),
    /// The check could not be carried out.
    UnexpectedError(Failure),
}

/// A claimed identity: lives for one verification.
pub struct Credentails {
    pub username: String,
    pub password: SecretString,
}

/// What the store holds for a username.
pub struct StoredCredentials {
    pub user_id: Uuid,
    pub password_hash: SecretString,
}

/// The one write that a password change makes: the new hash of one user.
pub struct PasswordUpdate {
    pub user_id: Uuid,
    pub password_hash: SecretString,
}

/// A valid hash of a password nobody has, checked where the username is
/// unknown.
pub const DECOY_HASH: &'static str =
    "$argon2id$v=19$m=15000,t=2,p=1$gZiV/M1gPc22ElAH/Jh1Hw$CWOrkoo7oJBQ/iyh7uJ0LO2aLEfrHwTWllSAxT0zRno";

pub const INVALID_CREDENTIALS: &'static str = "Invalid credentials";

pub const INVALID_PASSWORD: &'static str = "Invalid password";

pub const INVALID_USERNAME: &'static str = "Invalid username";

pub const MALFORMED_HASH: &'static str = "Failed to parse password hash in PHC string format.";

pub const OFFLOAD_FAILED: &'static str = "Failed to spawn blocking task";

pub const STORE_FAILED: &'static str = "Failed to retrieve stored credentials";

pub const HASHING_FAILED: &'static str = "Failed to hash password";

pub const TOO_MANY_LANES: &'static str = "the policy asks for more lanes than Argon2 has";

/// How every hash made under the current policy begins.
pub const CURRENT_HEADER: &'static str = "$argon2id$v=19$m=15000,t=2,p=1$";

pub const UPDATE_FAILED: &'static str = "Failed to change user's password in the database";

/// The policy under which new hashes are made: Argon2id, revision 0x13,
/// 15000 KiB of memory, two passes, one lane.
pub open spec fn current_policy() -> HashPolicy {
    HashPolicy {
        algorithm: Algorithm::Argon2id,
        version: Version::V0x13,
        m_cost: 15000,
        t_cost: 2,
        p_cost: 1,
    }
}

/// The bytes of a password that the hasher sees.
pub open spec fn password_bytes(password: Seq<char>) -> Seq<u8> {
    vstd::utf8::encode_utf8(password)
}

/// What checking `password` against the string `encoded` comes to: a
/// string that does not parse is unparseable whatever the password, and a
/// string that parses is accepted or rejected.
pub open spec fn hash_check(encoded: Seq<char>, password: Seq<char>) -> HashCheck {
    if phc_params(encoded) is None {
        HashCheck::Unparseable
    } else if lanes_in_range(encoded) && phc_verdict(encoded, password_bytes(password))
        == HashCheck::Accepted {
        HashCheck::Accepted
    } else {
        HashCheck::Rejected
    }
}

/// `password` verifies against the string `encoded`.
pub open spec fn hash_accepts(encoded: Seq<char>, password: Seq<char>) -> bool {
    hash_check(encoded, password) == HashCheck::Accepted
}

/// The user that a claim with `password` names, given what the store holds
/// for its username.
pub open spec fn authenticated_user(stored: Option<StoredCredentials>, password: Seq<char>) -> Option<
    Uuid,
> {
    match stored {
        Some(record) => if hash_accepts(record.password_hash@, password) {
            Some(record.user_id)
        } else {
            None
        },
        None => None,
    }
}

/// The hash that a claim is checked against.
pub open spec fn expected_hash_text(stored: Option<StoredCredentials>) -> Seq<char> {
    match stored {
        Some(record) => record.password_hash@,
        None => DECOY_HASH@,
    }
}

impl AuthError {
    /// The error judges the credentials, as opposed to reporting a fault.
    pub open spec fn is_credential_judgment(self) -> bool {
        self is InvalidCredentials
    }

    /// What the error shows to the outside: one fixed text for every
    /// credential judgment, and for a fault what was being done.
    pub open spec fn shown(self) -> Seq<char> {
        match self {
            AuthError::InvalidCredentials(_) => INVALID_CREDENTIALS@,
            AuthError::UnexpectedError(fault) => fault@.message,
        }
    }

    /// The causes behind the error, nearest first.
    pub open spec fn sources(self) -> Seq<Seq<char>> {
        match self {
            AuthError::InvalidCredentials(judgment) => seq![judgment@.message] + judgment@.causes,
            AuthError::UnexpectedError(fault) => fault@.causes,
        }
    }

    /// The error as text.
    pub fn to_string(&self) -> (text: String)
        ensures
            text@ == self.shown(),
    {
        match self {
            AuthError::InvalidCredentials(_) => String::from_str(INVALID_CREDENTIALS),
            AuthError::UnexpectedError(fault) => fault.to_string(),
        }
    }

    /// The error as the cause of another: what it shows, with its own
    /// causes behind it.
    pub fn into_failure(self) -> (r: Failure)
        ensures
            r@ == failure(self.shown(), self.sources()),
    {
        match self {
            AuthError::InvalidCredentials(judgment) => judgment.context(INVALID_CREDENTIALS),
            AuthError::UnexpectedError(fault) => fault,
        }
    }
}

/// The result that a hash check asks for.
pub open spec fn is_judgment_of(r: Result<(), AuthError>, check: HashCheck) -> bool {
    match check {
        HashCheck::Accepted => r is Ok,
        HashCheck::Rejected => r matches Err(AuthError::InvalidCredentials(judgment))
            && judgment@ == failure(INVALID_PASSWORD@, Seq::empty()),
        HashCheck::Unparseable => r matches Err(AuthError::InvalidCredentials(judgment))
            && judgment@ == failure(MALFORMED_HASH@, Seq::empty()),
    }
}

/// The result that a finished verification asks for, given the user that
/// the lookup found.
pub open spec fn is_conclusion_of(
    r: Result<Uuid, AuthError>,
    user_id: Option<Uuid>,
    verification: Result<(), AuthError>,
) -> bool {
    match verification {
        Err(e) => r == Err::<Uuid, AuthError>(e),
        Ok(_) => match user_id {
            Some(id) => r == Ok::<Uuid, AuthError>(id),
            None => r matches Err(AuthError::InvalidCredentials(judgment)) && judgment@
                == failure(INVALID_USERNAME@, Seq::empty()),
        },
    }
}

/// Turns the outcome of a hash check into the verifier's judgment: success
/// on a match, and the one credential error on anything else.
pub fn judge_hash_check(check: HashCheck) -> (r: Result<(), AuthError>)
    ensures
        is_judgment_of(r, check),
{
    match check {
        HashCheck::Accepted => Ok(()),
        HashCheck::Rejected => Err(AuthError::InvalidCredentials(Failure::new(INVALID_PASSWORD))),
        HashCheck::Unparseable => Err(AuthError::InvalidCredentials(Failure::new(MALFORMED_HASH))),
    }
}

/// The lane count that the hasher would take from `params`.
fn lanes_of(params: &Vec<(String, Option<u32>)>) -> (lanes: Option<u32>)
    ensures
        lanes == effective_lanes(params_view(params@)),
{
    let mut i: usize = params.len();
    proof {
        assert(params_view(params@).subrange(0, i as int) =~= params_view(params@));
    }
    while i > 0
        invariant
            i <= params.len(),
            effective_lanes(params_view(params@)) == effective_lanes(
                params_view(params@).subrange(0, i as int),
            ),
        decreases i,
    {
        let name = params[i - 1].0.as_str();
        proof {
            let prefix = params_view(params@).subrange(0, i as int);
            assert(prefix.drop_last() =~= params_view(params@).subrange(0, i - 1));
        }
        if name.unicode_len() == 1 && name.get_char(0) == 'p' {
            proof {
                assert(name@ =~= seq!['p']);
            }
            return params[i - 1].1;
        }
        i = i - 1;
    }
    None
}

/// Checks `passwd_candidate` against the encoded hash
/// `expected_passwd_hash`.
///
/// Succeeds exactly where the hasher, working with the parameters and salt
/// that the string carries, derives the key that the string holds. A string
/// that is no hash, or asks for what the hasher does not do, fails like a
/// wrong password does.
pub fn verify_passwd_hash(expected_passwd_hash: SecretString, passwd_candidate: SecretString) -> (r:
    Result<(), AuthError>)
    ensures
        is_judgment_of(r, hash_check(expected_passwd_hash@, passwd_candidate@)),
        r is Ok <==> hash_accepts(expected_passwd_hash@, passwd_candidate@),
        r matches Err(e) ==> e.is_credential_judgment(),
        hash_check(expected_passwd_hash@, passwd_candidate@) is Unparseable <==> phc_params(
            expected_passwd_hash@,
        ) is None,
{
    let encoded = expected_passwd_hash.expose_secret().as_str();
    let check = match phc_parameters(encoded) {
        None => HashCheck::Unparseable,
        Some(params) => {
            let in_range = match lanes_of(&params) {
                Some(lanes) => lanes <= MAX_LANES,
                None => true,
            };
            if in_range {
                check_phc(encoded, passwd_candidate.expose_secret().as_str().as_bytes())
            } else {
                HashCheck::Rejected
            }
        },
    };
    judge_hash_check(check)
}

/// The result that validating a claim with `password` asks for, given what
/// the lookup of its username brought.
pub open spec fn is_validation_of(
    r: Result<Uuid, AuthError>,
    password: Seq<char>,
    lookup: Result<Option<StoredCredentials>, String>,
) -> bool {
    match lookup {
        Err(cause) => r matches Err(AuthError::UnexpectedError(fault)) && fault@ == failure(
            STORE_FAILED@,
            seq![cause@],
        ),
        Ok(stored) => match hash_check(expected_hash_text(stored), password) {
            HashCheck::Accepted => match stored {
                Some(record) => r == Ok::<Uuid, AuthError>(record.user_id),
                None => r matches Err(AuthError::InvalidCredentials(judgment)) && judgment@
                    == failure(INVALID_USERNAME@, Seq::empty()),
            },
            HashCheck::Rejected => r matches Err(AuthError::InvalidCredentials(judgment))
                && judgment@ == failure(INVALID_PASSWORD@, Seq::empty()),
            HashCheck::Unparseable => r matches Err(AuthError::InvalidCredentials(judgment))
                && judgment@ == failure(MALFORMED_HASH@, Seq::empty()),
        },
    }
}

/// Picks what a claim is checked against: the stored hash where the lookup
/// found the username, the decoy where it did not. Either way there is a
/// hash to check, so that both cases cost the same.
pub fn expected_hash(stored: Option<StoredCredentials>) -> (r: (Option<Uuid>, SecretString))
    ensures
        r.0 == match stored {
            Some(record) => Some(record.user_id),
            None => None,
        },
        r.1@ == expected_hash_text(stored),
{
    match stored {
        Some(record) => (Some(record.user_id), record.password_hash),
        None => (None, SecretString::new(String::from_str(DECOY_HASH))),
    }
}

/// Ends a verification whose hash check ran elsewhere.
///
/// `offloaded` is what came back from the worker: the check's own result,
/// or the reason why the worker never delivered one. A worker that failed
/// is a fault, never a judgment of the credentials. A check that passed
/// names a user only where the lookup had found one.
pub fn conclude(user_id: Option<Uuid>, offloaded: Result<Result<(), AuthError>, String>) -> (r:
    Result<Uuid, AuthError>)
    ensures
        match offloaded {
            Err(cause) => r matches Err(AuthError::UnexpectedError(fault)) && fault@ == failure(
                OFFLOAD_FAILED@,
                seq![cause@],
            ),
            Ok(verification) => is_conclusion_of(r, user_id, verification),
        },
{
    match offloaded {
        Err(cause) => Err(AuthError::UnexpectedError(Failure::caused_by(OFFLOAD_FAILED, cause))),
        Ok(Err(e)) => Err(e),
        Ok(Ok(())) => match user_id {
            Some(id) => Ok(id),
            None => Err(AuthError::InvalidCredentials(Failure::new(INVALID_USERNAME))),
        },
    }
}

/// Decides whether a claim names a user.
///
/// `lookup` is what the store answered for the claim's username. The hash
/// check runs whether or not the username was found. The claim succeeds
/// exactly where the username was found and the password verifies against
/// its hash; every other answer of the store leads to `InvalidCredentials`,
/// and a store that could not answer to `UnexpectedError`.
pub fn validate_credentials(
    credentials: Credentails,
    lookup: Result<Option<StoredCredentials>, String>,
) -> (r: Result<Uuid, AuthError>)
    ensures
        is_validation_of(r, credentials.password@, lookup),
        lookup matches Ok(stored) ==> (r is Ok <==> authenticated_user(
            stored,
            credentials.password@,
        ) is Some),
        lookup matches Ok(stored) ==> (r matches Ok(id) ==> authenticated_user(
            stored,
            credentials.password@,
        ) == Some(id)),
        lookup matches Ok(stored) ==> (r matches Err(e) ==> e.is_credential_judgment()),
        lookup is Err ==> (r matches Err(e) && !e.is_credential_judgment()),
{
    match lookup {
        Err(cause) => Err(AuthError::UnexpectedError(Failure::caused_by(STORE_FAILED, cause))),
        Ok(stored) => {
            let (user_id, expected_passwd_hash) = expected_hash(stored);
            let verification = verify_passwd_hash(expected_passwd_hash, credentials.password);
            conclude(user_id, Ok(verification))
        },
    }
}

/// The policy under which new hashes are made.
pub fn hash_policy() -> (policy: HashPolicy)
    ensures
        policy == current_policy(),
{
    HashPolicy {
        algorithm: Algorithm::Argon2id,
        version: Version::V0x13,
        m_cost: 15000,
        t_cost: 2,
        p_cost: 1,
    }
}

/// The fault of a hash that could not be made, with what the hasher said.
pub open spec fn is_hashing_fault<T>(r: Result<T, AuthError>, cause: Seq<char>) -> bool {
    r matches Err(AuthError::UnexpectedError(fault)) && fault@ == failure(
        HASHING_FAILED@,
        seq![cause],
    )
}

/// The result that hashing `password` with `salt` under `policy` asks for:
/// the string that Argon2 derives, or a fault that names what Argon2 said.
pub open spec fn is_hashing_of(
    r: Result<SecretString, AuthError>,
    policy: HashPolicy,
    password: Seq<char>,
    salt: Seq<char>,
) -> bool {
    if policy.p_cost > MAX_LANES {
        is_hashing_fault(r, TOO_MANY_LANES@)
    } else {
        match argon2_phc(policy, password_bytes(password), salt) {
            Ok(phc) => r matches Ok(hash) && hash@ == phc,
            Err(refusal) => is_hashing_fault(r, refusal),
        }
    }
}

/// The result of hashing `password` for storage with the salt `salt`: the
/// hash that Argon2 derives under the current policy, which carries the
/// salt and verifies against the password.
pub open spec fn is_stored_hash_of(
    r: Result<SecretString, AuthError>,
    password: Seq<char>,
    salt: Seq<char>,
) -> bool {
    &&& is_salt_text(salt)
    &&& is_hashing_of(r, current_policy(), password, salt)
    &&& r matches Ok(hash) ==> carries_salt(hash@, current_policy(), salt) && hash_accepts(
        hash@,
        password,
    )
}

/// Hashes `password` with a given salt.
///
/// The hash is the PHC string that Argon2 derives under `policy`. It is
/// written with the policy's header and the salt, and it verifies against
/// `password`. Hashing succeeds wherever the policy is valid, the salt
/// encodes sixteen bytes and the password is within the length that Argon2
/// takes; where Argon2 refuses, the error is a fault that names what it
/// said.
pub fn hash_with_salt(policy: &HashPolicy, password: &SecretString, salt: &str) -> (r: Result<
    SecretString,
    AuthError,
>)
    ensures
        is_hashing_of(r, *policy, password@, salt@),
        r matches Ok(hash) ==> hash_accepts(hash@, password@) && carries_salt(
            hash@,
            *policy,
            salt@,
        ),
        is_valid_policy(*policy) && is_salt_text(salt@) && password_bytes(password@).len()
            <= MAX_PASSWORD_BYTES ==> r is Ok,
{
    if policy.p_cost > MAX_LANES {
        let cause = String::from_str(TOO_MANY_LANES);
        return Err(AuthError::UnexpectedError(Failure::caused_by(HASHING_FAILED, cause)));
    }
    match argon2_encode(policy, password.expose_secret().as_str().as_bytes(), salt) {
        Ok(phc) => Ok(SecretString::new(phc)),
        Err(e) => Err(
            AuthError::UnexpectedError(Failure::caused_by(HASHING_FAILED, phc_error_text(&e))),
        ),
    }
}

/// Under the current policy a PHC string begins with `CURRENT_HEADER`.
pub proof fn lemma_current_header()
    ensures
        phc_header(current_policy()) == CURRENT_HEADER@,
        is_valid_policy(current_policy()),
{
    reveal_strlit("$argon2id$v=19$m=15000,t=2,p=1$");
    reveal_with_fuel(crate::text::decimal, 6);
    assert(phc_header(current_policy()) =~= CURRENT_HEADER@);
}

/// Hashes `password` for storage, under the current policy and with a salt
/// drawn for this call alone.
///
/// Hashing succeeds for every password within the length that Argon2
/// takes. The hash is the one that Argon2 derives from the password and the
/// drawn salt: it begins with the current policy's header, carries the
/// salt, and the password verifies against it.
pub fn compute_passwd_hash(password: SecretString) -> (r: Result<SecretString, AuthError>)
    ensures
        exists|salt: Seq<char>| is_stored_hash_of(r, password@, salt),
        password_bytes(password@).len() <= MAX_PASSWORD_BYTES ==> r is Ok,
        r matches Ok(hash) ==> hash_accepts(hash@, password@) && CURRENT_HEADER@.is_prefix_of(
            hash@,
        ),
{
    let salt = fresh_salt();
    let policy = hash_policy();
    let r = hash_with_salt(&policy, &password, salt.as_str());
    proof {
        lemma_current_header();
        assert(is_stored_hash_of(r, password@, salt@));
    }
    r
}

/// The result of preparing a password change for `user_id`, drawn with the
/// salt `salt`: an update that names the user and holds the stored hash of
/// the password, or the fault of hashing.
pub open spec fn is_update_of(
    r: Result<PasswordUpdate, AuthError>,
    user_id: Uuid,
    password: Seq<char>,
    salt: Seq<char>,
) -> bool {
    &&& is_salt_text(salt)
    &&& match argon2_phc(current_policy(), password_bytes(password), salt) {
        Ok(phc) => r matches Ok(update) && update.user_id == user_id && update.password_hash@
            == phc && carries_salt(phc, current_policy(), salt) && hash_accepts(phc, password),
        Err(refusal) => is_hashing_fault(r, refusal),
    }
}

/// Prepares a password change: hashes `password` afresh and names the one
/// record to overwrite. Whether the caller may change this password is
/// settled before, by validating the current one.
///
/// The change is owed for every password within the length that Argon2
/// takes.
pub fn change_password(user_id: Uuid, password: SecretString) -> (r: Result<PasswordUpdate, AuthError>)
    ensures
        exists|salt: Seq<char>| is_update_of(r, user_id, password@, salt),
        password_bytes(password@).len() <= MAX_PASSWORD_BYTES ==> r is Ok,
        r matches Ok(update) ==> update.user_id == user_id && hash_accepts(
            update.password_hash@,
            password@,
        ) && CURRENT_HEADER@.is_prefix_of(update.password_hash@),
{
    let hashed = compute_passwd_hash(password);
    let ghost salt = choose|salt: Seq<char>| is_stored_hash_of(hashed, password@, salt);
    let r = match hashed {
        Ok(password_hash) => Ok(PasswordUpdate { user_id, password_hash }),
        Err(e) => Err(e),
    };
    proof {
        assert(is_update_of(r, user_id, password@, salt));
    }
    r
}

/// Two hashes made with different salts differ, whatever the password: a
/// salt that is not drawn twice gives a hash that is not stored twice.
pub proof fn lemma_distinct_salts_give_distinct_hashes(
    policy: HashPolicy,
    first: Seq<char>,
    first_salt: Seq<char>,
    second: Seq<char>,
    second_salt: Seq<char>,
)
    requires
        carries_salt(first, policy, first_salt),
        carries_salt(second, policy, second_salt),
        first_salt.len() == second_salt.len(),
        first_salt != second_salt,
    ensures
        first != second,
{
    let header = phc_header(policy);
    let from = header.len() as int;
    let to = from + first_salt.len();
    let first_start = header + first_salt + seq!['$'];
    let second_start = header + second_salt + seq!['$'];
    assert(first.subrange(0, first_start.len() as int) == first_start);
    assert(second.subrange(0, second_start.len() as int) == second_start);
    assert(first_start.subrange(from, to) =~= first_salt);
    assert(second_start.subrange(from, to) =~= second_salt);
    if first == second {
        assert(first_start =~= second_start);
        assert(first_salt =~= second_salt);
    }
}

/// Against a hash, every candidate that fails fails alike: the error and
/// the chain of its causes do not depend on the candidate, which therefore
/// never appears in them.
pub proof fn lemma_rejections_do_not_tell_candidates_apart(
    encoded: Seq<char>,
    first_candidate: Seq<char>,
    first: Result<(), AuthError>,
    second_candidate: Seq<char>,
    second: Result<(), AuthError>,
)
    requires
        is_judgment_of(first, hash_check(encoded, first_candidate)),
        is_judgment_of(second, hash_check(encoded, second_candidate)),
        first is Err,
        second is Err,
    ensures
        first->Err_0.shown() == second->Err_0.shown(),
        first->Err_0.sources() == second->Err_0.sources(),
{
}

/// The fault of a store that could not write a password update.
pub fn update_failed(cause: String) -> (fault: Failure)
    ensures
        fault@ == failure(UPDATE_FAILED@, seq![cause@]),
{
    Failure::caused_by(UPDATE_FAILED, cause)
}

/// An unknown username and a wrong password fail alike: both validations
/// end in a credential judgment, and both show the same text.
pub proof fn lemma_uniform_failure(
    unknown: Result<Uuid, AuthError>,
    any_password: Seq<char>,
    wrong: Result<Uuid, AuthError>,
    record: StoredCredentials,
    wrong_password: Seq<char>,
)
    requires
        is_validation_of(unknown, any_password, Ok(None)),
        is_validation_of(wrong, wrong_password, Ok(Some(record))),
        !hash_accepts(record.password_hash@, wrong_password),
    ensures
        unknown matches Err(e) && e.is_credential_judgment(),
        wrong matches Err(e) && e.is_credential_judgment(),
        unknown->Err_0.shown() == wrong->Err_0.shown(),
{
}

/// Once the store holds what a password change wrote, a claim with the new
/// password names the user.
pub proof fn lemma_changed_password_validates(
    update: PasswordUpdate,
    new_password: Seq<char>,
    r: Result<Uuid, AuthError>,
)
    requires
        hash_accepts(update.password_hash@, new_password),
        is_validation_of(
            r,
            new_password,
            Ok(
                Some(
                    StoredCredentials {
                        user_id: update.user_id,
                        password_hash: update.password_hash,
                    },
                ),
            ),
        ),
    ensures
        r == Ok::<Uuid, AuthError>(update.user_id),
{
}

} // verus!
