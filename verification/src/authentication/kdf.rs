//! The boundary to the Argon2 implementation.
//!
//! Everything here is believed, not proved: the bodies call the `argon2` and
//! `password-hash` crates, and the contracts say what those crates document.
//! What the key derivation computes is not spelled out; it is named, as a
//! function of its inputs, so that callers can be exact about which call
//! produced a value.

use argon2::password_hash::SaltString;
use argon2::PasswordHash;
use argon2::PasswordHasher;
use argon2::PasswordVerifier;
use crate::text::decimal;
use vstd::prelude::*;

verus! {

/// The three variants of Argon2.
#[derive(Clone, Copy, Debug, PartialEq, Eq, Structural)]
pub enum Algorithm {
    Argon2d,
    Argon2i,
    Argon2id,
}

/// The two published revisions of Argon2.
#[derive(Clone, Copy, Debug, PartialEq, Eq, Structural)]
pub enum Version {
    V0x10,
    V0x13,
}

/// How a password is hashed: variant, revision and the three cost
/// parameters (memory in KiB, passes, lanes).
#[derive(Clone, Copy, Debug, PartialEq, Eq, Structural)]
pub struct HashPolicy {
    pub algorithm: Algorithm,
    pub version: Version,
    pub m_cost: u32,
    pub t_cost: u32,
    pub p_cost: u32,
}

/// What comes of checking a password against an encoded hash.
#[derive(Clone, Copy, Debug, PartialEq, Eq, Structural)]
pub enum HashCheck {
    /// The string is not a hash in PHC format.
    Unparseable,
    /// The string is a hash, and the password does not reproduce it (or the
    /// hasher cannot work with what the string asks for).
    Rejected,
    /// The password reproduces the hash.
    Accepted,
}

/// The largest lane count that Argon2 accepts.
pub const MAX_LANES: u32 = 0xFF_FFFF;

/// The most bytes of password that Argon2 takes.
pub const MAX_PASSWORD_BYTES: usize = 0xFFFF_FFFF;

/// The number of characters of a salt as it is drawn: sixteen bytes in
/// B64.
pub const SALT_LENGTH: usize = 22;

/// The number of characters of a derived key: thirty-two bytes in B64.
pub const KEY_LENGTH: usize = 43;

#[verifier::external_type_specification]
#[verifier::external_body]
pub struct ExPhcError(argon2::password_hash::Error);

/// The PHC string that Argon2 derives under `policy` from `password` and the
/// B64 text `salt`, or what it says where it refuses the inputs.
pub uninterp spec fn argon2_phc(policy: HashPolicy, password: Seq<u8>, salt: Seq<char>) -> Result<
    Seq<char>,
    Seq<char>,
>;

/// What an error of the hasher says of itself.
pub uninterp spec fn phc_error_message(error: argon2::password_hash::Error) -> Seq<char>;

/// How `password` fares against the string `encoded`.
pub uninterp spec fn phc_verdict(encoded: Seq<char>, password: Seq<u8>) -> HashCheck;

/// The parameter list of a PHC string, in the order written: each name with
/// its value read as a decimal, where it is one. `None` where the string
/// does not parse.
pub uninterp spec fn phc_params(encoded: Seq<char>) -> Option<Seq<(Seq<char>, Option<u32>)>>;

/// The lane count that the hasher takes from a parameter list: the value of
/// the last `p`, where there is one and it is a decimal.
pub open spec fn effective_lanes(params: Seq<(Seq<char>, Option<u32>)>) -> Option<u32>
    decreases params.len(),
{
    if params.len() == 0 {
        None
    } else if params.last().0 == seq!['p'] {
        params.last().1
    } else {
        effective_lanes(params.drop_last())
    }
}

/// The string asks for no more lanes than Argon2 has.
///
/// The hasher may only be run on such strings. It validates a lane count by
/// multiplying it by eight in 32 bits, and only then compares it with the
/// maximum; a count above the maximum is refused either way, so nothing is
/// lost by refusing it beforehand.
pub open spec fn lanes_in_range(encoded: Seq<char>) -> bool {
    match phc_params(encoded) {
        Some(params) => match effective_lanes(params) {
            Some(lanes) => lanes <= MAX_LANES,
            None => true,
        },
        None => true,
    }
}

/// A parsed parameter list as the plain values it stands for.
pub open spec fn params_view(params: Seq<(String, Option<u32>)>) -> Seq<(Seq<char>, Option<u32>)> {
    params.map_values(|entry: (String, Option<u32>)| (entry.0@, entry.1))
}

/// A character of the B64 alphabet: a letter, a digit, `+` or `/`.
pub open spec fn is_b64_char(c: char) -> bool {
    ||| 'A' <= c <= 'Z'
    ||| 'a' <= c <= 'z'
    ||| '0' <= c <= '9'
    ||| c == '+'
    ||| c == '/'
}

/// The text is the B64 encoding of sixteen bytes: 22 characters of the
/// alphabet, the last of which carries two bits only.
pub open spec fn is_salt_text(salt: Seq<char>) -> bool {
    &&& salt.len() == SALT_LENGTH
    &&& forall|i: int| 0 <= i < salt.len() ==> is_b64_char(#[trigger] salt[i])
    &&& (salt[21] == 'A' || salt[21] == 'Q' || salt[21] == 'g' || salt[21] == 'w')
}

/// The policy is one that Argon2 works with: at least one pass, one to
/// `MAX_LANES` lanes, and eight KiB of memory or more for each lane.
pub open spec fn is_valid_policy(policy: HashPolicy) -> bool {
    &&& policy.t_cost >= 1
    &&& 1 <= policy.p_cost <= MAX_LANES
    &&& policy.m_cost >= 8 * policy.p_cost
}

/// The name of an Argon2 variant in a PHC string.
pub open spec fn variant_name(algorithm: Algorithm) -> Seq<char> {
    match algorithm {
        Algorithm::Argon2d => seq!['a', 'r', 'g', 'o', 'n', '2', 'd'],
        Algorithm::Argon2i => seq!['a', 'r', 'g', 'o', 'n', '2', 'i'],
        Algorithm::Argon2id => seq!['a', 'r', 'g', 'o', 'n', '2', 'i', 'd'],
    }
}

/// The number of an Argon2 revision.
pub open spec fn revision_number(version: Version) -> nat {
    match version {
        Version::V0x10 => 0x10,
        Version::V0x13 => 0x13,
    }
}

/// How a PHC string written under a policy begins: variant, revision and
/// costs, up to the `$` that the salt follows.
pub open spec fn phc_header(policy: HashPolicy) -> Seq<char> {
    seq!['$'] + variant_name(policy.algorithm) + seq!['$', 'v', '='] + decimal(
        revision_number(policy.version),
    ) + seq!['$', 'm', '='] + decimal(policy.m_cost as nat) + seq![',', 't', '='] + decimal(
        policy.t_cost as nat,
    ) + seq![',', 'p', '='] + decimal(policy.p_cost as nat) + seq!['$']
}

/// The string is one written under `policy` with `salt`: the policy's
/// header, the salt, a `$`, and a key of 43 characters of the B64 alphabet.
pub open spec fn carries_salt(encoded: Seq<char>, policy: HashPolicy, salt: Seq<char>) -> bool {
    let start = phc_header(policy) + salt + seq!['$'];
    &&& start.is_prefix_of(encoded)
    &&& encoded.len() == start.len() + KEY_LENGTH
    &&& forall|i: int| start.len() <= i < encoded.len() ==> is_b64_char(#[trigger] encoded[i])
}

/// The parameter list that the hasher writes for a policy.
pub open spec fn written_params(policy: HashPolicy) -> Seq<(Seq<char>, Option<u32>)> {
    seq![
        (seq!['m'], Some(policy.m_cost)),
        (seq!['t'], Some(policy.t_cost)),
        (seq!['p'], Some(policy.p_cost)),
    ]
}

/// `SaltString::generate` on `rand::thread_rng()`: a fresh random salt, as
/// B64 text. Whatever is drawn, the text is the encoding of sixteen bytes.
#[verifier::external_body]
pub(crate) fn fresh_salt() -> (salt: String)
    ensures
        is_salt_text(salt@),
{
    SaltString::generate(&mut rand::thread_rng()).as_str().to_owned()
}

/// `Display` of `password_hash::Error`: what the error says of itself.
#[verifier::external_body]
pub(crate) fn phc_error_text(error: &argon2::password_hash::Error) -> (text: String)
    ensures
        text@ == phc_error_message(*error),
{
    error.to_string()
}

/// `Params::new`, `SaltString::from_b64` and `Argon2::new` on the plain
/// values, then `PasswordHasher::hash_password`, written out as a PHC
/// string.
///
/// The result is a function of the arguments. Four further facts are taken
/// from the crates. The string lists the policy's own `m`, `t` and `p` and
/// no other parameter. It verifies against the password it was derived
/// from, as the `argon2` documentation shows for any hash it produces. It
/// is written as variant, revision, costs, salt and key, each after a `$`,
/// the salt as it was given and the key as the B64 of its thirty-two
/// bytes. And the hasher refuses nothing where the
/// policy is valid, the salt encodes sixteen bytes and the password is
/// within the length that Argon2 takes. The lane count is kept within the
/// maximum because `Params::new` multiplies it before it checks it.
#[verifier::external_body]
pub(crate) fn argon2_encode(policy: &HashPolicy, password: &[u8], salt: &str) -> (r: Result<
    String,
    argon2::password_hash::Error,
>)
    requires
        policy.p_cost <= MAX_LANES,
    ensures
        match r {
            Ok(phc) => argon2_phc(*policy, password@, salt@) == Ok::<Seq<char>, Seq<char>>(phc@),
            Err(e) => argon2_phc(*policy, password@, salt@) == Err::<Seq<char>, Seq<char>>(
                phc_error_message(e),
            ),
        },
        r matches Ok(phc) ==> phc_params(phc@) == Some(written_params(*policy)),
        r matches Ok(phc) ==> phc_verdict(phc@, password@) == HashCheck::Accepted,
        r matches Ok(phc) ==> carries_salt(phc@, *policy, salt@),
        is_valid_policy(*policy) && is_salt_text(salt@) && password@.len() <= MAX_PASSWORD_BYTES
            ==> r is Ok,
{
    let algorithm = match policy.algorithm {
        Algorithm::Argon2d => argon2::Algorithm::Argon2d,
        Algorithm::Argon2i => argon2::Algorithm::Argon2i,
        Algorithm::Argon2id => argon2::Algorithm::Argon2id,
    };
    let version = match policy.version {
        Version::V0x10 => argon2::Version::V0x10,
        Version::V0x13 => argon2::Version::V0x13,
    };
    let params = argon2::Params::new(policy.m_cost, policy.t_cost, policy.p_cost, None)?;
    let salt = SaltString::from_b64(salt)?;
    let hasher = argon2::Argon2::new(algorithm, version, params);
    Ok(hasher.hash_password(password, &salt)?.to_string())
}

/// `PasswordHash::new(encoded)`, then `ParamsString::iter` over its
/// parameters: the name of each with `Value::decimal` of its value.
#[verifier::external_body]
pub(crate) fn phc_parameters(encoded: &str) -> (r: Option<Vec<(String, Option<u32>)>>)
    ensures
        match r {
            Some(params) => phc_params(encoded@) == Some(params_view(params@)),
            None => phc_params(encoded@) is None,
        },
{
    let parsed = PasswordHash::new(encoded).ok()?;
    let entries = parsed.params.iter();
    Some(entries.map(|(name, value)| (name.as_str().to_owned(), value.decimal().ok())).collect())
}

/// `PasswordHash::new(encoded)`, then `PasswordVerifier::verify_password`
/// of `Argon2::default()` on what it parsed.
///
/// The hasher works with the variant, revision and costs that the string
/// carries, and compares the derived key in constant time. The work and
/// the memory it takes are those the string asks for. The result is a
/// function of the arguments; it is `Unparseable` exactly where the string
/// has no parameter list to read, since both rest on the same parser.
#[verifier::external_body]
pub(crate) fn check_phc(encoded: &str, password: &[u8]) -> (r: HashCheck)
    requires
        lanes_in_range(encoded@),
    ensures
        r == phc_verdict(encoded@, password@),
        r is Unparseable <==> phc_params(encoded@) is None,
{
    match PasswordHash::new(encoded) {
        Err(_) => HashCheck::Unparseable,
        Ok(parsed) => match argon2::Argon2::default().verify_password(password, &parsed) {
            Ok(()) => HashCheck::Accepted,
            Err(_) => HashCheck::Rejected,
        },
    }
}

} // verus!
