//! Salted, memory-hard hashing of passwords, and their verification.

use vstd::prelude::*;
use vstd::string::*;
use vstd::utf8::*;
use crate::config::{ARGON2_HASH_LENGTH, ARGON2_LANES, ARGON2_MEM_COST, ARGON2_TIME_COST, SALT_BYTES};
use crate::errors::Error;
use crate::models::db::text_view;
use crate::random::{bytes_view, delivered, drawn, random_bytes};
use crate::decimal::{decimal, push_decimal};
use crate::validate::{digit, letter};

verus! {

/// The Argon2d digest (version 1.3, no secret, no associated data) of a
/// password under a salt and the given cost.
pub uninterp spec fn argon2d(
    password: Seq<u8>,
    salt: Seq<u8>,
    mem_cost: u32,
    time_cost: u32,
    lanes: u32,
    hash_length: u32,
) -> Seq<u8>;

/// The costs that Argon2 can be run with on every machine.
pub open spec fn cost_accepted(mem_cost: u32, time_cost: u32, lanes: u32, hash_length: u32) -> bool {
    &&& 1 <= lanes <= 0xFF_FFFF
    &&& 8 * lanes <= mem_cost <= 0x20_0000
    &&& 1 <= time_cost
    &&& 4 <= hash_length
}

/// The lengths of password and salt, in bytes, that Argon2 takes.
pub open spec fn input_accepted(password: Seq<u8>, salt: Seq<u8>) -> bool {
    &&& password.len() <= u32::MAX
    &&& 8 <= salt.len() <= u32::MAX
}

/// The Base64 text of bytes, without padding.
pub uninterp spec fn unpadded_base64(bytes: Seq<u8>) -> Seq<char>;

/// A character of the Base64 alphabet.
pub open spec fn base64_char(c: char) -> bool {
    letter(c) || digit(c) || c == '+' || c == '/'
}

/// What a fresh salt looks like: twenty-two Base64 characters.
pub open spec fn salt_shaped(salt: Seq<char>) -> bool {
    &&& salt.len() == 22
    &&& forall|i: int| 0 <= i < salt.len() ==> base64_char(#[trigger] salt[i])
}

/// The form in which a digest is stored: the decimal numerals of its bytes,
/// one after the other.
pub open spec fn stored_form(digest: Seq<u8>) -> Seq<char>
    decreases digest.len(),
{
    if digest.len() == 0 {
        Seq::empty()
    } else {
        stored_form(digest.drop_last()) + decimal(digest.last() as nat)
    }
}

/// The stored form of the digest of `password` under `salt`, at the
/// configured cost.
pub open spec fn hash_of(password: Seq<char>, salt: Seq<char>) -> Seq<char> {
    stored_form(
        argon2d(
            encode_utf8(password),
            encode_utf8(salt),
            ARGON2_MEM_COST,
            ARGON2_TIME_COST,
            ARGON2_LANES,
            ARGON2_HASH_LENGTH,
        ),
    )
}

/// Whether `password` can be hashed under `salt`.
pub open spec fn hashable(password: Seq<char>, salt: Seq<char>) -> bool {
    input_accepted(encode_utf8(password), encode_utf8(salt))
}

/// Whether `password` is the one that `stored` was made of under `salt`.
pub open spec fn password_matches(password: Seq<char>, stored: Seq<char>, salt: Seq<char>) -> bool {
    hashable(password, salt) && hash_of(password, salt) == stored
}

/// Calls `argon2::hash_raw` with the variant Argon2d, version 1.3, threads
/// in parallel, and neither secret nor associated data. The crate refuses
/// exactly the inputs whose lengths are out of range, and its digest depends
/// on nothing but the arguments.
#[verifier::external_body]
fn argon2d_raw(
    password: &[u8],
    salt: &[u8],
    mem_cost: u32,
    time_cost: u32,
    lanes: u32,
    hash_length: u32,
) -> (digest: Option<Vec<u8>>)
    requires
        cost_accepted(mem_cost, time_cost, lanes, hash_length),
    ensures
        digest is Some <==> input_accepted(password@, salt@),
        digest matches Some(d) ==> d@ == argon2d(
            password@,
            salt@,
            mem_cost,
            time_cost,
            lanes,
            hash_length,
        ),
{
    let config = argon2::Config {
        variant: argon2::Variant::Argon2d,
        version: argon2::Version::Version13,
        mem_cost,
        time_cost,
        lanes,
        thread_mode: argon2::ThreadMode::Parallel,
        secret: &[],
        ad: &[],
        hash_length,
    };
    argon2::hash_raw(password, salt, &config).ok()
}

/// Calls `password_hash::SaltString::encode_b64`, which writes bytes as
/// unpadded Base64: four characters of the alphabet for every three bytes,
/// into a buffer of 64 characters, so that it takes up to 48 bytes and
/// refuses more. Base64 can be read back, so no other bytes give the text.
#[verifier::external_body]
fn encode_salt(bytes: &[u8]) -> (salt: Option<String>)
    ensures
        salt is Some <==> bytes@.len() <= 48,
        salt matches Some(s) ==> s@ == unpadded_base64(bytes@) && s@.len() == (4 * bytes@.len() + 2) / 3 && (
        forall|i: int| 0 <= i < s@.len() ==> base64_char(#[trigger] s@[i])),
        salt matches Some(s) ==> (forall|other: Seq<u8>| #[trigger]
            unpadded_base64(other) == s@ ==> other == bytes@),
{
    password_hash::SaltString::encode_b64(bytes).ok().map(|salt| salt.to_string())
}

/// Writes a digest in its stored form.
pub fn store_digest(digest: &Vec<u8>) -> (text: String)
    ensures
        text@ == stored_form(digest@),
{
    let mut text = String::new();
    let mut i: usize = 0;
    while i < digest.len()
        invariant
            i <= digest.len(),
            text@ == stored_form(digest@.take(i as int)),
        decreases digest.len() - i,
    {
        push_decimal(&mut text, digest[i] as u32);
        proof {
            let next = digest@.take(i + 1);
            assert(next.drop_last() =~= digest@.take(i as int));
            assert(next.last() == digest@[i as int]);
        }
        i += 1;
    }
    assert(digest@.take(i as int) =~= digest@);
    text
}

/// Hashes `password` under `salt`, if their lengths allow it.
pub fn hash_with_salt(password: &str, salt: &str) -> (hash: Option<String>)
    ensures
        hash is Some <==> hashable(password@, salt@),
        hash matches Some(h) ==> h@ == hash_of(password@, salt@),
{
    match argon2d_raw(
        password.as_bytes(),
        salt.as_bytes(),
        ARGON2_MEM_COST,
        ARGON2_TIME_COST,
        ARGON2_LANES,
        ARGON2_HASH_LENGTH,
    ) {
        Some(digest) => Some(store_digest(&digest)),
        None => None,
    }
}

/// The salt that is made of random bytes: their unpadded Base64, where
/// there are bytes and no more of them than a salt can hold.
pub open spec fn salt_of(bytes: Option<Seq<u8>>) -> Option<Seq<char>> {
    match bytes {
        Some(b) => if b.len() <= 48 {
            Some(unpadded_base64(b))
        } else {
            None
        },
        None => None,
    }
}

/// Whether `salt` is made of `bytes` and of no other bytes.
pub open spec fn made_of_bytes(salt: Seq<char>, bytes: Seq<u8>) -> bool {
    &&& salt == unpadded_base64(bytes)
    &&& salt.len() == (4 * bytes.len() + 2) / 3
    &&& forall|i: int| 0 <= i < salt.len() ==> base64_char(#[trigger] salt[i])
    &&& forall|other: Seq<u8>| #[trigger] unpadded_base64(other) == salt ==> other == bytes
}

/// Encodes random bytes as a salt: there is one exactly where there are
/// bytes, at most 48 of them.
pub fn salt_from(bytes: Option<Vec<u8>>) -> (salt: Option<String>)
    ensures
        text_view(salt) == salt_of(bytes_view(bytes)),
        salt is Some <==> (bytes matches Some(b) && b@.len() <= 48),
        salt matches Some(s) ==> made_of_bytes(s@, bytes->Some_0@),
        salt matches Some(s) ==> (bytes->Some_0@.len() == SALT_BYTES ==> salt_shaped(s@)),
{
    match bytes {
        Some(bytes) => encode_salt(bytes.as_slice()),
        None => None,
    }
}

/// What hashing `password` under the salt that could be made gives: the
/// stored form of the hash with its salt, or the failure of the hasher
/// where there is no salt or the password cannot be hashed under it.
pub open spec fn hashed(password: Seq<char>, salt: Option<Seq<char>>) -> Result<
    (Seq<char>, Seq<char>),
    Error,
> {
    match salt {
        Some(s) => if hashable(password, s) {
            Ok((hash_of(password, s), s))
        } else {
            Err(Error::Hasher)
        },
        None => Err(Error::Hasher),
    }
}

/// The outcome of a hashing, texts taken by their view.
pub open spec fn pair_of(result: Result<(String, String), Error>) -> Result<(Seq<char>, Seq<char>), Error> {
    match result {
        Ok(pair) => Ok((pair.0@, pair.1@)),
        Err(e) => Err(e),
    }
}

/// Hashes `password` under the salt that could be made. Without a salt, and
/// where the derivation fails, the hasher has failed: no pair is made up.
pub fn hash_under(password: &String, salt: Option<String>) -> (result: Result<(String, String), Error>)
    ensures
        pair_of(result) == hashed(password@, text_view(salt)),
{
    match salt {
        Some(salt) => match hash_with_salt(password.as_str(), salt.as_str()) {
            Some(hash) => Ok((hash, salt)),
            None => Err(Error::Hasher),
        },
        None => Err(Error::Hasher),
    }
}

/// Hashes `password` under the salt made of the random bytes given. With
/// the bytes of a salt and a password that fits, there is a pair; its salt
/// is made of the bytes alone, and of no other bytes.
pub fn hash_from(password: &String, bytes: Option<Vec<u8>>) -> (result: Result<(String, String), Error>)
    ensures
        pair_of(result) == hashed(password@, salt_of(bytes_view(bytes))),
        delivered(bytes_view(bytes), SALT_BYTES as int) && encode_utf8(password@).len() <= u32::MAX
            ==> result is Ok,
        result matches Ok(pair) ==> bytes is Some && made_of_bytes(pair.1@, bytes->Some_0@)
            && password_matches(password@, pair.0@, pair.1@),
        result matches Ok(pair) ==> (bytes->Some_0@.len() == SALT_BYTES ==> salt_shaped(pair.1@)),
{
    let salt = salt_from(bytes);
    proof {
        if salt is Some && bytes->Some_0@.len() == SALT_BYTES {
            assert(is_ascii_chars(salt->Some_0@));
            is_ascii_chars_encode_utf8(salt->Some_0@);
        }
    }
    hash_under(password, salt)
}

/// Hashes `password` under a fresh random salt and returns the stored form
/// of the hash with that salt. Where the random source or the derivation
/// fails, the failure is the result.
pub fn create_hash(password: &String) -> (result: Result<(String, String), Error>)
    ensures
        exists|bytes: Option<Seq<u8>>|
            drawn(bytes, SALT_BYTES as int) && pair_of(result) == #[trigger] hashed(
                password@,
                salt_of(bytes),
            ) && (delivered(bytes, SALT_BYTES as int) && encode_utf8(password@).len() <= u32::MAX
                ==> result is Ok),
        result matches Ok(pair) ==> salt_shaped(pair.1@) && pair.0@ == hash_of(password@, pair.1@)
            && password_matches(password@, pair.0@, pair.1@),
        result matches Err(e) ==> e == Error::Hasher,
        encode_utf8(password@).len() > u32::MAX ==> result is Err,
{
    let bytes = random_bytes(SALT_BYTES);
    let ghost drew = bytes_view(bytes);
    let result = hash_from(password, bytes);
    assert(drawn(drew, SALT_BYTES as int) && pair_of(result) == hashed(password@, salt_of(drew)));
    result
}

/// Different random bytes give different salts: a salt is made of its
/// bytes alone, so two salts made of different bytes are different texts.
pub proof fn different_bytes_different_salts(
    first: Seq<char>,
    first_bytes: Seq<u8>,
    second: Seq<char>,
    second_bytes: Seq<u8>,
)
    requires
        made_of_bytes(first, first_bytes),
        made_of_bytes(second, second_bytes),
        first_bytes != second_bytes,
    ensures
        first != second,
{
}

/// Tells whether `supplied_password`, hashed under `salt`, gives
/// `db_password`. A salt that cannot be hashed under matches nothing.
pub fn match_hash(supplied_password: &String, db_password: &String, salt: &String) -> (same: bool)
    ensures
        same == password_matches(supplied_password@, db_password@, salt@),
{
    match hash_with_salt(supplied_password.as_str(), salt.as_str()) {
        Some(hash) => hash == *db_password,
        None => false,
    }
}

/// A password verifies against the hash made of it, and another password
/// verifies against that hash exactly if its own hash is the same text.
pub proof fn hash_round_trip(password: Seq<char>, other: Seq<char>, salt: Seq<char>)
    requires
        hashable(password, salt),
    ensures
        password_matches(password, hash_of(password, salt), salt),
        password_matches(other, hash_of(password, salt), salt) <==> hashable(other, salt) && hash_of(
            other,
            salt,
        ) == hash_of(password, salt),
{
}

} // verus!
