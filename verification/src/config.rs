//! What the service is configured with.

use vstd::prelude::*;

verus! {

/// The settings of the token service.
pub struct TomlConfig {
    /// The service's domain: the issuer of every token.
    pub domain: String,
    /// The secret that tokens are signed with.
    pub token_secret: String,
    /// The lifetime of a token, in seconds.
    pub token_duration: i64,
    /// Read with the other settings; the clock leeway in use is fixed.
    pub token_leeway: i64,
}

/// The settings that contracts speak of.
pub ghost struct Settings {
    pub domain: Seq<char>,
    pub secret: Seq<char>,
    pub duration: i64,
}

impl View for TomlConfig {
    type V = Settings;

    open spec fn view(&self) -> Settings {
        Settings {
            domain: self.domain@,
            secret: self.token_secret@,
            duration: self.token_duration,
        }
    }
}

/// Random bytes that an account id is made of.
pub const ID_BYTES: usize = 16;

/// Random bytes that a salt is made of.
pub const SALT_BYTES: usize = 16;

/// Memory that one password hash fills, in KiB.
pub const ARGON2_MEM_COST: u32 = 32768;

/// Passes over that memory.
pub const ARGON2_TIME_COST: u32 = 1;

/// Lanes that are filled in parallel.
pub const ARGON2_LANES: u32 = 8;

/// Bytes of a password hash.
pub const ARGON2_HASH_LENGTH: u32 = 64;

} // verus!
