use vstd::prelude::*;

use super::auth::{
    gen_hash, gen_salt, hex_decode, hex_lower, is_hex_of_len, law_hex_round_trip, password_check,
    password_matches, pbkdf2_hmac_sha512, stored_hash_for, to_hex, PBKDF2_ITERATIONS,
    SHA512_OUTPUT_LEN,
};
use vstd::utf8::encode_utf8;

verus! {

/// Number of characters of a user id.
pub const USER_ID_LEN: usize = 7;

/// `c` is an ASCII letter or digit.
pub open spec fn is_ascii_alphanumeric(c: char) -> bool {
    ||| 48 <= c as u32 <= 57
    ||| 65 <= c as u32 <= 90
    ||| 97 <= c as u32 <= 122
}

#[verifier::external_type_specification]
#[verifier::external_body]
pub struct ExStdRng(rand::rngs::StdRng);

/// `rand::SeedableRng::from_rng` of `rand::rngs::StdRng` from
/// `rand::rngs::OsRng`: a generator seeded from the operating system's random
/// source, or `None` when the source fails to give a seed (the crate returns
/// that failure as an error; it does not panic).
#[verifier::external_body]
fn seeded_rng() -> (r: Option<rand::rngs::StdRng>) {
    rand::SeedableRng::from_rng(rand::rngs::OsRng).ok()
}

/// `rand::Rng::sample` of `rand::distributions::Alphanumeric` on `rng`, as a
/// `char`: one of the 62 ASCII letters and digits, picked at random. Drawing
/// from a seeded `StdRng` cannot fail.
#[verifier::external_body]
fn sample_alphanumeric_from(rng: &mut rand::rngs::StdRng) -> (c: char)
    ensures
        is_ascii_alphanumeric(c),
{
    char::from(rand::Rng::sample(rng, rand::distributions::Alphanumeric))
}

/// `String::push`: appends one character.
#[verifier::external_body]
fn push_char(s: &mut String, c: char)
    ensures
        final(s)@ == old(s)@.push(c),
{
    s.push(c)
}

/// `s` is made of `len` ASCII letters and digits.
pub open spec fn is_alphanumeric_of_len(s: Seq<char>, len: nat) -> bool {
    &&& s.len() == len
    &&& forall|i: int| 0 <= i < s.len() ==> is_ascii_alphanumeric(#[trigger] s[i])
}

/// `len` random ASCII letters and digits drawn from `rng`.
fn draw_alphanumeric(rng: &mut rand::rngs::StdRng, len: usize) -> (s: String)
    ensures
        is_alphanumeric_of_len(s@, len as nat),
{
    let mut s = String::new();
    let mut n: usize = 0;
    while n < len
        invariant
            n <= len,
            s@.len() == n,
            forall|i: int| 0 <= i < s@.len() ==> is_ascii_alphanumeric(#[trigger] s@[i]),
        decreases len - n,
    {
        let c = sample_alphanumeric_from(rng);
        push_char(&mut s, c);
        n = n + 1;
    }
    s
}

/// `len` random ASCII letters and digits, or `None` when the system's random
/// source cannot seed a generator.
fn random_alphanumeric(len: usize) -> (r: Option<String>)
    ensures
        r matches Some(s) ==> is_alphanumeric_of_len(s@, len as nat),
{
    match seeded_rng() {
        Some(mut rng) => Some(draw_alphanumeric(&mut rng, len)),
        None => None,
    }
}

/// A fresh random user id: seven ASCII letters and digits, or `None` when the
/// system's random source fails.
pub fn gen_user_id() -> (r: Option<String>)
    ensures
        r matches Some(id) ==> {
            &&& id@.len() == USER_ID_LEN
            &&& forall|i: int| 0 <= i < id@.len() ==> is_ascii_alphanumeric(#[trigger] id@[i])
        },
{
    random_alphanumeric(USER_ID_LEN)
}

/// Number of characters of a session id.
pub const SESSION_ID_LEN: usize = 32;

/// A fresh random session id: 32 ASCII letters and digits, or `None` when the
/// system's random source fails.
pub fn gen_session_id() -> (r: Option<String>)
    ensures
        r matches Some(id) ==> {
            &&& id@.len() == SESSION_ID_LEN
            &&& forall|i: int| 0 <= i < id@.len() ==> is_ascii_alphanumeric(#[trigger] id@[i])
        },
{
    random_alphanumeric(SESSION_ID_LEN)
}

/// The hash and salt stored for a user, both as lower-case hexadecimal text.
#[derive(Clone, Debug)]
pub struct StoredCredentials {
    pub pw_hash: String,
    pub pw_salt: String,
}

/// The credentials to store for a salt and the hash made with it: both
/// written as lower-case hexadecimal text.
pub fn encode_credentials(salt: &[u8], hash: &[u8]) -> (c: StoredCredentials)
    ensures
        c.pw_salt@ == hex_lower(salt@),
        c.pw_hash@ == hex_lower(hash@),
{
    StoredCredentials { pw_hash: to_hex(hash), pw_salt: to_hex(salt) }
}

/// The credentials to store for a new password: a fresh random salt and the
/// password's hash under it, both written as lower-case hexadecimal text.
/// `None` when the system's random source fails.
pub fn hash_new_password(password: &String) -> (r: Option<StoredCredentials>)
    ensures
        r matches Some(c) ==> {
            &&& exists|salt: Seq<u8>|
                salt.len() == SHA512_OUTPUT_LEN && #[trigger] hex_lower(salt) == c.pw_salt@
            &&& is_hex_of_len(c.pw_salt@, SHA512_OUTPUT_LEN as nat)
            &&& c.pw_hash@ == stored_hash_for(c.pw_salt@, password@)
            &&& is_hex_of_len(c.pw_hash@, SHA512_OUTPUT_LEN as nat)
            &&& password_check(c.pw_hash@, c.pw_salt@, password@)
        },
{
    let salt = gen_salt();
    let r = credentials_for_salt(salt, password);
    proof {
        if let Some(s) = salt {
            assert(s@.len() == SHA512_OUTPUT_LEN && hex_lower(s@) == r->0.pw_salt@);
        }
    }
    r
}

/// The credentials to store for `password` from the result of drawing a salt:
/// `None` when no salt was drawn; otherwise that salt and the password's hash
/// under it, both written as lower-case hexadecimal text.
pub fn credentials_for_salt(salt: Option<[u8; SHA512_OUTPUT_LEN]>, password: &String) -> (r: Option<
    StoredCredentials,
>)
    ensures
        r is Some <==> salt is Some,
        salt matches Some(s) ==> (r matches Some(c) && {
            &&& c.pw_salt@ == hex_lower(s@)
            &&& c.pw_hash@ == hex_lower(
                pbkdf2_hmac_sha512(PBKDF2_ITERATIONS, s@, encode_utf8(password@)),
            )
            &&& is_hex_of_len(c.pw_salt@, SHA512_OUTPUT_LEN as nat)
            &&& c.pw_hash@ == stored_hash_for(c.pw_salt@, password@)
            &&& is_hex_of_len(c.pw_hash@, SHA512_OUTPUT_LEN as nat)
            &&& password_check(c.pw_hash@, c.pw_salt@, password@)
        }),
{
    let salt = match salt {
        Some(salt) => salt,
        None => return None,
    };
    let hash = gen_hash(salt.as_slice(), password);
    let credentials = encode_credentials(salt.as_slice(), hash.as_slice());
    proof {
        law_hex_round_trip(salt@);
        law_hex_round_trip(hash@);
    }
    Some(credentials)
}

/// Whether a password signs a user in, given the credentials stored for the
/// e-mail (`None` when there is no such user or they could not be read).
pub open spec fn user_validity(stored: Option<StoredCredentials>, password: Seq<char>) -> bool {
    match stored {
        None => false,
        Some(c) => password_check(c.pw_hash@, c.pw_salt@, password),
    }
}

/// The stored salt, if any, is the hexadecimal text of 64 bytes.
pub open spec fn salt_decodable(stored: Option<StoredCredentials>) -> bool {
    stored matches Some(c) ==> is_hex_of_len(c.pw_salt@, SHA512_OUTPUT_LEN as nat)
}

/// Decides whether `password` is the password of the user whose stored
/// credentials are `stored`: no credentials means no; otherwise the password's
/// hash under the stored salt must be the stored hash. A stored salt must be
/// the hexadecimal text of 64 bytes.
pub fn user_is_valid(stored: Option<StoredCredentials>, password: &String) -> (b: bool)
    requires
        salt_decodable(stored),
    ensures
        b == user_validity(stored, password@),
{
    match stored {
        None => false,
        Some(c) => password_matches(&c.pw_hash, &c.pw_salt, password),
    }
}

/// A user is valid exactly when credentials are stored for them and the
/// stored hash is the hexadecimal PBKDF2-HMAC-SHA512 hash of the typed
/// password under the stored salt; without stored credentials nobody is valid.
pub proof fn law_user_valid_iff_hash_matches(stored: Option<StoredCredentials>, password: Seq<char>)
    ensures
        user_validity(stored, password) <==> (stored matches Some(c) && c.pw_hash@ == hex_lower(
            pbkdf2_hmac_sha512(PBKDF2_ITERATIONS, hex_decode(c.pw_salt@), encode_utf8(password)),
        )),
{
}

/// A user can log in with the password they signed up with: the credentials
/// stored for a new password accept that password.
pub proof fn law_new_password_logs_in(stored: StoredCredentials, password: Seq<char>)
    requires
        is_hex_of_len(stored.pw_salt@, SHA512_OUTPUT_LEN as nat),
        stored.pw_hash@ == stored_hash_for(stored.pw_salt@, password),
    ensures
        salt_decodable(Some(stored)),
        user_validity(Some(stored), password),
{
}

/// Whether a `COUNT(*)` of matching rows means that a match exists.
pub fn exists_from_count(count: i64) -> (b: bool)
    ensures
        b == (count != 0),
{
    if count == 0 {
        false
    } else {
        true
    }
}

} // verus!
