use vstd::prelude::*;
use vstd::utf8::encode_utf8;

verus! {

/// Length in bytes of a SHA-512 digest, and so of a salt and of a password hash.
pub const SHA512_OUTPUT_LEN: usize = 64;

/// PBKDF2 iteration count used for password hashes.
pub const PBKDF2_ITERATIONS: u32 = 100_000;

/// How long a session and its cookie last: one day, in seconds.
pub const SESSION_LIFETIME_SECONDS: i64 = 86_400;

/// The Unix time at which a session started at Unix time `now` ends: one day later.
pub fn session_expiry(now: i64) -> (expires: i64)
    requires
        now + SESSION_LIFETIME_SECONDS <= i64::MAX,
    ensures
        expires == now + SESSION_LIFETIME_SECONDS,
{
    now + SESSION_LIFETIME_SECONDS
}

// ---------------------------------------------------------------------------
// Hexadecimal text
// ---------------------------------------------------------------------------

/// The lower-case hexadecimal digit for `d` (`0 <= d < 16`).
pub open spec fn hex_digit(d: u8) -> char {
    if d < 10 {
        (48 + d) as char
    } else {
        (87 + d) as char
    }
}

/// `c` is one of `0-9`, `a-f`, `A-F`.
pub open spec fn is_hex_char(c: char) -> bool {
    ||| 48 <= c as u32 <= 57
    ||| 97 <= c as u32 <= 102
    ||| 65 <= c as u32 <= 70
}

/// The value of a hexadecimal digit of either case.
pub open spec fn hex_value(c: char) -> int {
    if c as u32 <= 57 {
        c as u32 - 48
    } else if c as u32 <= 70 {
        c as u32 - 55
    } else {
        c as u32 - 87
    }
}

/// Lower-case hexadecimal text of `bytes`: two digits per byte, high digit first.
pub open spec fn hex_lower(bytes: Seq<u8>) -> Seq<char> {
    Seq::new(
        2 * bytes.len(),
        |i: int|
            if i % 2 == 0 {
                hex_digit(bytes[i / 2] / 16)
            } else {
                hex_digit(bytes[i / 2] % 16)
            },
    )
}

/// `s` is the hexadecimal text of exactly `n` bytes (digits of either case).
pub open spec fn is_hex_of_len(s: Seq<char>, n: nat) -> bool {
    &&& s.len() == 2 * n
    &&& forall|i: int| 0 <= i < s.len() ==> is_hex_char(#[trigger] s[i])
}

/// The bytes that the hexadecimal text `s` stands for.
pub open spec fn hex_decode(s: Seq<char>) -> Seq<u8> {
    Seq::new(s.len() / 2, |i: int| (hex_value(s[2 * i]) * 16 + hex_value(s[2 * i + 1])) as u8)
}

/// Decoding the lower-case hexadecimal text of any bytes gives those bytes back,
/// and that text is valid hexadecimal of their length.
pub proof fn law_hex_round_trip(bytes: Seq<u8>)
    ensures
        is_hex_of_len(hex_lower(bytes), bytes.len()),
        hex_decode(hex_lower(bytes)) == bytes,
{
    let s = hex_lower(bytes);
    assert forall|i: int| 0 <= i < s.len() implies is_hex_char(#[trigger] s[i]) by {
        let b = bytes[i / 2];
        assert(0 <= b / 16 < 16 && 0 <= b % 16 < 16);
    }
    assert forall|i: int| 0 <= i < bytes.len() implies #[trigger] hex_decode(s)[i] == bytes[i] by {
        let b = bytes[i];
        assert((2 * i) / 2 == i && (2 * i) % 2 == 0);
        assert((2 * i + 1) / 2 == i && (2 * i + 1) % 2 == 1);
        assert(s[2 * i] == hex_digit(b / 16));
        assert(s[2 * i + 1] == hex_digit(b % 16));
        assert(hex_value(hex_digit(b / 16)) == b / 16);
        assert(hex_value(hex_digit(b % 16)) == b % 16);
        assert((b / 16) * 16 + b % 16 == b);
    }
    assert(hex_decode(s) =~= bytes);
}

#[verifier::external_type_specification]
#[verifier::external_body]
pub struct ExFromHexError(hex::FromHexError);

/// `hex::ToHex::encode_hex` into a `String`: the crate emits, for each byte, its
/// high and then its low four bits as a lower-case digit from `0123456789abcdef`.
#[verifier::external_body]
fn encode_hex_lower(data: &[u8]) -> (s: String)
    ensures
        s@ == hex_lower(data@),
{
    hex::ToHex::encode_hex::<String>(&data)
}

/// `hex::FromHex::from_hex` into a 64-byte array. The crate refuses text whose
/// byte length is odd or not twice the array's length, and any byte that is not
/// a hexadecimal digit of either case; otherwise byte `i` is the value of digits
/// `2i` and `2i + 1`. A character outside ASCII is refused as a non-digit byte.
#[verifier::external_body]
fn decode_hex_array(s: &str) -> (r: Result<[u8; SHA512_OUTPUT_LEN], hex::FromHexError>)
    ensures
        r is Ok <==> is_hex_of_len(s@, SHA512_OUTPUT_LEN as nat),
        r matches Ok(bytes) ==> bytes@ == hex_decode(s@),
{
    hex::FromHex::from_hex(s)
}

/// Lower-case hexadecimal text of `data`.
pub fn to_hex(data: &[u8]) -> (s: String)
    ensures
        s@ == hex_lower(data@),
{
    encode_hex_lower(data)
}

/// The 64 bytes written as hexadecimal text `s`, or `None` when `s` is not the
/// text of exactly 64 bytes.
pub fn decode_salt(s: &String) -> (r: Option<[u8; SHA512_OUTPUT_LEN]>)
    ensures
        r is Some <==> is_hex_of_len(s@, SHA512_OUTPUT_LEN as nat),
        r matches Some(bytes) ==> bytes@ == hex_decode(s@),
{
    match decode_hex_array(s.as_str()) {
        Ok(bytes) => Some(bytes),
        Err(_) => None,
    }
}

// ---------------------------------------------------------------------------
// Salts and password hashes
// ---------------------------------------------------------------------------

#[verifier::external_type_specification]
#[verifier::external_body]
pub struct ExUnspecified(ring::error::Unspecified);

/// `ring::rand::SecureRandom::fill` on a new `ring::rand::SystemRandom`: the
/// bytes come from the operating system's random source. Nothing is stated of
/// them; the call fails with `Unspecified` when the source fails.
#[verifier::external_body]
fn fill_from_system_random(dest: &mut [u8; SHA512_OUTPUT_LEN]) -> (r: Result<(), ring::error::Unspecified>) {
    ring::rand::SecureRandom::fill(&ring::rand::SystemRandom::new(), dest)
}

/// The 64-byte key that PBKDF2 with HMAC-SHA512 derives from `salt` and
/// `secret` in `iterations` rounds.
pub uninterp spec fn pbkdf2_hmac_sha512(iterations: u32, salt: Seq<u8>, secret: Seq<u8>) -> Seq<u8>;

/// `ring::pbkdf2::derive` with `PBKDF2_HMAC_SHA512` into a 64-byte buffer: the
/// buffer holds the key derived from `salt` and `secret` in `iterations`
/// rounds, which depends on these alone. ring panics only for a zero round
/// count (refused here) or for a secret or output too long to digest, which
/// no slice in memory reaches.
#[verifier::external_body]
fn derive_pbkdf2_hmac_sha512(iterations: u32, salt: &[u8], secret: &[u8]) -> (out: [u8; SHA512_OUTPUT_LEN])
    requires
        iterations > 0,
    ensures
        out@ == pbkdf2_hmac_sha512(iterations, salt@, secret@),
{
    let mut out = [0u8; SHA512_OUTPUT_LEN];
    let rounds = std::num::NonZeroU32::new(iterations).unwrap();
    ring::pbkdf2::derive(ring::pbkdf2::PBKDF2_HMAC_SHA512, rounds, salt, secret, &mut out);
    out
}

/// A fresh random salt, or `None` when the system's random source fails.
pub fn gen_salt() -> (r: Option<[u8; SHA512_OUTPUT_LEN]>) {
    let mut salt = [0u8; 64];
    match fill_from_system_random(&mut salt) {
        Ok(()) => Some(salt),
        Err(_) => None,
    }
}

/// The hash of `password` under `salt`: PBKDF2-HMAC-SHA512 of the password's
/// UTF-8 bytes, 100 000 rounds.
pub fn gen_hash(salt: &[u8], password: &String) -> (hash: [u8; SHA512_OUTPUT_LEN])
    ensures
        hash@ == pbkdf2_hmac_sha512(PBKDF2_ITERATIONS, salt@, encode_utf8(password@)),
{
    derive_pbkdf2_hmac_sha512(PBKDF2_ITERATIONS, salt, password.as_str().as_bytes())
}

/// The hexadecimal hash that a password gives under the salt written as
/// hexadecimal text `salt_hex`.
pub open spec fn stored_hash_for(salt_hex: Seq<char>, password: Seq<char>) -> Seq<char> {
    hex_lower(pbkdf2_hmac_sha512(PBKDF2_ITERATIONS, hex_decode(salt_hex), encode_utf8(password)))
}

/// Whether `password` matches a stored hash and salt: the stored hash is the
/// password's hash under the stored salt.
pub open spec fn password_check(true_hash: Seq<char>, salt_hex: Seq<char>, password: Seq<char>) -> bool {
    true_hash == stored_hash_for(salt_hex, password)
}

/// Whether a stored hexadecimal hash is the hexadecimal text of `hash`.
pub fn hex_hash_matches(true_hash: &String, hash: &[u8]) -> (b: bool)
    ensures
        b == (true_hash@ == hex_lower(hash@)),
{
    let hash_hex = to_hex(hash);
    *true_hash == hash_hex
}

/// Checks a password against the hash and salt stored for a user (both
/// lower-case hexadecimal). The stored salt must be the hexadecimal text of
/// 64 bytes; for any other salt the check is undefined.
pub fn password_matches(true_hash: &String, salt: &String, password: &String) -> (b: bool)
    requires
        is_hex_of_len(salt@, SHA512_OUTPUT_LEN as nat),
    ensures
        b == password_check(true_hash@, salt@, password@),
        b == (true_hash@ == hex_lower(
            pbkdf2_hmac_sha512(PBKDF2_ITERATIONS, hex_decode(salt@), encode_utf8(password@)),
        )),
{
    match decode_salt(salt) {
        Some(salt_buf) => {
            let hash = gen_hash(salt_buf.as_slice(), password);
            hex_hash_matches(true_hash, hash.as_slice())
        },
        None => false,
    }
}

/// A password is accepted exactly when its own hash is the stored one: the
/// check holds for `password` if and only if the stored hash text is the
/// lower-case hexadecimal of PBKDF2-HMAC-SHA512 (100 000 rounds) of that very
/// password's UTF-8 bytes under the decoded salt. So a password is accepted
/// only if hashing it gives the stored hash, and two passwords are both
/// accepted against one stored hash only if they hash alike.
pub proof fn law_password_accepted_iff_its_hash_is_stored(
    true_hash: Seq<char>,
    salt_hex: Seq<char>,
    password: Seq<char>,
    other: Seq<char>,
)
    ensures
        password_check(true_hash, salt_hex, password) <==> true_hash == hex_lower(
            pbkdf2_hmac_sha512(PBKDF2_ITERATIONS, hex_decode(salt_hex), encode_utf8(password)),
        ),
        password_check(true_hash, salt_hex, password) && password_check(true_hash, salt_hex, other)
            ==> hex_lower(
            pbkdf2_hmac_sha512(PBKDF2_ITERATIONS, hex_decode(salt_hex), encode_utf8(password)),
        ) == hex_lower(
            pbkdf2_hmac_sha512(PBKDF2_ITERATIONS, hex_decode(salt_hex), encode_utf8(other)),
        ),
{
}

/// A password is accepted against the hash and salt it was stored with: for
/// any 64-byte salt, the hexadecimal salt and the hexadecimal hash of the
/// password under it check as a match for that password.
pub proof fn law_stored_password_is_accepted(salt: Seq<u8>, password: Seq<char>)
    requires
        salt.len() == SHA512_OUTPUT_LEN,
    ensures
        is_hex_of_len(hex_lower(salt), SHA512_OUTPUT_LEN as nat),
        password_check(
            hex_lower(pbkdf2_hmac_sha512(PBKDF2_ITERATIONS, salt, encode_utf8(password))),
            hex_lower(salt),
            password,
        ),
{
    law_hex_round_trip(salt);
}

} // verus!
