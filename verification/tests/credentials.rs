use ifoundthephone::routes::auth::{
    decode_salt, gen_hash, gen_salt, password_matches, session_expiry, to_hex, PBKDF2_ITERATIONS,
    SESSION_LIFETIME_SECONDS, SHA512_OUTPUT_LEN,
};
use ifoundthephone::routes::db::{
    credentials_for_salt, exists_from_count, gen_session_id, gen_user_id, hash_new_password,
    user_is_valid, StoredCredentials, SESSION_ID_LEN, USER_ID_LEN,
};

const SALT_HEX: &str = "000102030405060708090a0b0c0d0e0f101112131415161718191a1b1c1d1e1f202122232425262728292a2b2c2d2e2f303132333435363738393a3b3c3d3e3f";
const HUNTER2_HASH: &str = "2d283b2a4200260756ea8f7c1aea5ea648d4e07c0a30ce5ddeffd7af2cdba4f9806f4ffbd9b04e36dd0190354cb53d8162f7d48c1fb632126fac758e72549209";

fn counting_salt() -> [u8; 64] {
    let mut salt = [0u8; 64];
    for (i, b) in salt.iter_mut().enumerate() {
        *b = i as u8;
    }
    salt
}

#[test]
fn to_hex_writes_two_lower_case_digits_per_byte() {
    assert_eq!(to_hex(&[0x0f, 0xa0, 0x00, 0xff]), "0fa000ff");
    assert_eq!(to_hex(&[]), "");
    assert_eq!(to_hex(&counting_salt()), SALT_HEX);
}

#[test]
fn decode_salt_reads_hex_of_either_case() {
    assert_eq!(decode_salt(&SALT_HEX.to_string()), Some(counting_salt()));
    assert_eq!(decode_salt(&SALT_HEX.to_uppercase()), Some(counting_salt()));
}

#[test]
fn decode_salt_refuses_wrong_length_and_non_digits() {
    assert_eq!(decode_salt(&String::new()), None);
    assert_eq!(decode_salt(&SALT_HEX[..126].to_string()), None);
    assert_eq!(decode_salt(&SALT_HEX[..127].to_string()), None);
    assert_eq!(decode_salt(&format!("{}00", SALT_HEX)), None);
    let mut bad = SALT_HEX.to_string();
    bad.replace_range(10..11, "g");
    assert_eq!(decode_salt(&bad), None);
    let mut non_ascii = SALT_HEX[..126].to_string();
    non_ascii.push('é');
    assert_eq!(decode_salt(&non_ascii), None);
}

#[test]
fn hex_round_trip_of_a_salt() {
    let salt = counting_salt();
    assert_eq!(decode_salt(&to_hex(&salt)), Some(salt));
}

#[test]
fn gen_hash_is_pbkdf2_hmac_sha512_with_100000_rounds() {
    assert_eq!(PBKDF2_ITERATIONS, 100_000);
    let hash = gen_hash(&counting_salt(), &"hunter2".to_string());
    assert_eq!(hash.len(), SHA512_OUTPUT_LEN);
    assert_eq!(to_hex(&hash), HUNTER2_HASH);
    assert_ne!(hash, counting_salt());
}

#[test]
fn gen_salt_gives_fresh_random_salts() {
    let a = gen_salt().expect("random source");
    let b = gen_salt().expect("random source");
    assert_eq!(a.len(), SHA512_OUTPUT_LEN);
    assert_ne!(a, b);
}

#[test]
fn password_matches_checks_hash_under_salt() {
    let hash = HUNTER2_HASH.to_string();
    let salt = SALT_HEX.to_string();
    assert!(password_matches(&hash, &salt, &"hunter2".to_string()));
    assert!(!password_matches(&hash, &salt, &"hunter3".to_string()));
    assert!(password_matches(&hash, &salt.to_uppercase(), &"hunter2".to_string()));
}

#[test]
fn new_password_logs_in() {
    let password = "correct horse battery staple".to_string();
    let stored = hash_new_password(&password).expect("random source");
    assert_eq!(stored.pw_salt.len(), 128);
    assert_eq!(stored.pw_salt, stored.pw_salt.to_lowercase());
    assert_eq!(stored.pw_hash.len(), 128);
    assert_eq!(stored.pw_hash, stored.pw_hash.to_lowercase());
    assert!(user_is_valid(Some(stored.clone()), &password));
    assert!(!user_is_valid(Some(stored), &"wrong".to_string()));
}

#[test]
fn user_is_valid_without_credentials_is_false() {
    assert!(!user_is_valid(None, &"anything".to_string()));
}

#[test]
fn user_is_valid_with_stored_credentials() {
    let stored = StoredCredentials { pw_hash: HUNTER2_HASH.to_string(), pw_salt: SALT_HEX.to_string() };
    assert!(decode_salt(&stored.pw_salt).is_some());
    assert!(user_is_valid(Some(stored.clone()), &"hunter2".to_string()));
    assert!(!user_is_valid(Some(stored), &"hunter3".to_string()));
    // A corrupt stored salt is refused before the check.
    assert_eq!(decode_salt(&"not hex".to_string()), None);
}

#[test]
fn sessions_last_one_day() {
    assert_eq!(SESSION_LIFETIME_SECONDS, 86_400);
    assert_eq!(session_expiry(1_700_000_000), 1_700_086_400);
    assert_eq!(session_expiry(0), 86_400);
}

#[test]
fn gen_user_id_is_seven_alphanumerics() {
    let id = gen_user_id().expect("random source");
    assert_eq!(id.chars().count(), USER_ID_LEN);
    assert_eq!(USER_ID_LEN, 7);
    assert!(id.chars().all(|c| c.is_ascii_alphanumeric()));
    assert_ne!(gen_user_id(), gen_user_id());
}

#[test]
fn gen_session_id_is_thirty_two_alphanumerics() {
    let id = gen_session_id().expect("random source");
    assert_eq!(id.chars().count(), SESSION_ID_LEN);
    assert_eq!(SESSION_ID_LEN, 32);
    assert!(id.chars().all(|c| c.is_ascii_alphanumeric()));
    assert_ne!(gen_session_id(), gen_session_id());
}

#[test]
fn exists_from_count_is_nonzero() {
    assert!(!exists_from_count(0));
    assert!(exists_from_count(1));
    assert!(exists_from_count(42));
    assert!(exists_from_count(-1));
}

#[test]
fn credentials_for_a_drawn_salt() {
    let c = credentials_for_salt(Some(counting_salt()), &"hunter2".to_string()).expect("salt given");
    assert_eq!(c.pw_salt, SALT_HEX);
    assert_eq!(c.pw_hash, HUNTER2_HASH);
    assert_eq!(c.pw_hash.len(), 128);
    assert!(credentials_for_salt(None, &"hunter2".to_string()).is_none());
}
