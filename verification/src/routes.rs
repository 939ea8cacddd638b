//! What each request must pass before the store is asked: the formats of
//! its fields and the role of its token.

use vstd::prelude::*;
use crate::clock::unix_now;
use crate::config::{Settings, TomlConfig};
use crate::db::reply_of;
use crate::errors::Error;
use crate::ids::{parse_uuid, parsed_uuid};
use crate::models::api::{Creds, Identifier, Name, Page, Password, Payment, Reply, Responses, Save, User};
use crate::policy::Requirement;
use crate::store::Slot;
use crate::token::{create_jwt_at, gives_token, token_for, ClaimSet, Claims};
use crate::validate::{compliant, valid_password, valid_payment, valid_username, validate_password, validate_username};

verus! {

/// Seconds before its expiry from which on a token can be refreshed.
pub const REFRESH_WINDOW: i64 = 30;

/// The outcome of a lookup, identifiers taken by their view.
pub open spec fn name_of(result: Result<Identifier, Error>) -> Result<Name, Error> {
    match result {
        Ok(identifier) => Ok(identifier@),
        Err(e) => Err(e),
    }
}

/// How `text` names an account, given what it reads as as a UUID: by that
/// id, or else by itself as a username, if it is one.
pub open spec fn identified(parsed: Option<u128>, text: Seq<char>) -> Result<Name, Error> {
    match parsed {
        Some(id) => Ok(Name::Uuid(id)),
        None => if valid_username(text) {
            Ok(Name::Username(text))
        } else {
            Err(Error::CredsFormat)
        },
    }
}

/// Decides how `payload` names an account, given what it reads as as a
/// UUID. A username is taken out of `payload`, which is left empty.
pub fn identify(parsed: Option<u128>, payload: &mut String) -> (result: Result<Identifier, Error>)
    ensures
        name_of(result) == identified(parsed, old(payload)@),
        final(payload)@ == if result matches Ok(Identifier::Username(_)) {
            Seq::<char>::empty()
        } else {
            old(payload)@
        },
{
    match parsed {
        Some(id) => Ok(Identifier::Uuid(id)),
        None => {
            match validate_username(payload.as_str()) {
                Ok(_) => {
                    let mut name = String::new();
                    core::mem::swap(payload, &mut name);
                    Ok(Identifier::Username(name))
                },
                Err(e) => Err(e),
            }
        },
    }
}

/// Reads `payload` as the id of an account or, failing that, as a username.
pub fn get_identifier(payload: &mut String) -> (result: Result<Identifier, Error>)
    ensures
        name_of(result) == identified(parsed_uuid(old(payload)@), old(payload)@),
        final(payload)@ == if result matches Ok(Identifier::Username(_)) {
            Seq::<char>::empty()
        } else {
            old(payload)@
        },
{
    let parsed = parse_uuid(payload.as_str());
    identify(parsed, payload)
}

/// Whether a username and a password have the formats asked for.
pub open spec fn credentials_format(username: Seq<char>, password: Seq<char>) -> Result<(), Error> {
    if valid_username(username) && valid_password(password) {
        Ok(())
    } else {
        Err(Error::CredsFormat)
    }
}

fn check_credentials(creds: &Creds) -> (result: Result<(), Error>)
    ensures
        result == credentials_format(creds.username@, creds.password@),
{
    match validate_username(creds.username.as_str()) {
        Ok(_) => match validate_password(creds.password.as_str()) {
            Ok(_) => Ok(()),
            Err(e) => Err(e),
        },
        Err(e) => Err(e),
    }
}

/// Admits a request to authenticate.
pub fn auth(creds: &Creds) -> (result: Result<(), Error>)
    ensures
        result == credentials_format(creds.username@, creds.password@),
{
    check_credentials(creds)
}

/// Admits a request to register.
pub fn register(creds: &Creds) -> (result: Result<(), Error>)
    ensures
        result == credentials_format(creds.username@, creds.password@),
{
    check_credentials(creds)
}

/// What asking for a new token at `now` gives: one is issued only in the
/// last seconds of the old one.
pub open spec fn refresh_outcome(claims: ClaimSet, settings: Settings, now: i64) -> Result<Reply, Error> {
    if claims.exp - now <= REFRESH_WINDOW {
        Ok(Reply::Jwt { access_token: token_for(settings, claims.user, claims.role, claims.id, now) })
    } else {
        Err(Error::TokenDuration)
    }
}

/// Renews the token with the verified claims at `now`.
pub fn refresh_at(claims: &Claims, config: &TomlConfig, now: i64) -> (result: Result<Responses, Error>)
    ensures
        reply_of(result) == refresh_outcome(claims@, config@, now),
        result matches Ok(response) ==> gives_token(
            response@.token(),
            config@,
            claims.user@,
            claims.role@,
            claims.id,
            now,
        ),
{
    if claims.exp as i128 - now as i128 <= REFRESH_WINDOW as i128 {
        Ok(
            Responses::Jwt {
                access_token: create_jwt_at(&claims.user, &claims.role, claims.id, config, now),
            },
        )
    } else {
        Err(Error::TokenDuration)
    }
}

/// Renews the token with the verified claims, if it is about to expire.
pub fn refresh(claims: &Claims, config: &TomlConfig) -> (result: Result<Responses, Error>)
    ensures
        exists|now: i64|
            reply_of(result) == #[trigger] refresh_outcome(claims@, config@, now) && (result matches Ok(
                response,
            ) ==> gives_token(
                response@.token(),
                config@,
                claims.user@,
                claims.role@,
                claims.id,
                now,
            )),
{
    let now = unix_now();
    refresh_at(claims, config, now)
}

/// Admits a request to change the password: the current and the new one
/// must both have the format of a password.
pub fn update_password(passwords: &Password) -> (result: Result<(), Error>)
    ensures
        result == if valid_password(passwords.password@) && valid_password(passwords.new_password@) {
            Ok::<(), Error>(())
        } else {
            Err::<(), Error>(Error::CredsFormat)
        },
{
    match validate_password(passwords.password.as_str()) {
        Ok(_) => match validate_password(passwords.new_password.as_str()) {
            Ok(_) => Ok(()),
            Err(e) => Err(e),
        },
        Err(e) => Err(e),
    }
}

/// Admits a request to upgrade: the payment form must be in order, and the
/// token must be that of a standard account.
pub fn upgrade(payment: &Payment, claims: &Claims) -> (result: Result<(), Error>)
    ensures
        result == if !valid_payment(payment) {
            Err::<(), Error>(Error::PaymentDetails)
        } else {
            Requirement::Standard.decision(claims.role@)
        },
{
    if compliant(payment) {
        Requirement::Standard.check(claims.role.as_str())
    } else {
        Err(Error::PaymentDetails)
    }
}

/// The slot that a number selects.
pub open spec fn slot_of(opt: u8) -> Option<Slot> {
    if opt == 1 {
        Some(Slot::One)
    } else if opt == 2 {
        Some(Slot::Two)
    } else if opt == 3 {
        Some(Slot::Three)
    } else {
        None
    }
}

/// Admits a request to save, and tells the slot that it selects: the token
/// must be that of an upgraded account or an administrator.
pub fn save(data: &Save, claims: &Claims) -> (result: Result<Slot, Error>)
    ensures
        result == if !Requirement::Paid.admits(claims.role@) {
            Err::<Slot, Error>(Error::NotUpgraded)
        } else {
            match slot_of(data.opt) {
                Some(slot) => Ok::<Slot, Error>(slot),
                None => Err::<Slot, Error>(Error::InvalidOpt),
            }
        },
{
    match Requirement::Paid.check(claims.role.as_str()) {
        Ok(_) => {
            if data.opt == 1 {
                Ok(Slot::One)
            } else if data.opt == 2 {
                Ok(Slot::Two)
            } else if data.opt == 3 {
                Ok(Slot::Three)
            } else {
                Err(Error::InvalidOpt)
            }
        },
        Err(e) => Err(e),
    }
}

/// Admits a request to load: the token must be that of an upgraded account
/// or an administrator.
pub fn load(claims: &Claims) -> (result: Result<(), Error>)
    ensures
        result == Requirement::Paid.decision(claims.role@),
{
    Requirement::Paid.check(claims.role.as_str())
}

/// Admits a request to create an administrator: the token must be an
/// administrator's, and the new credentials must have their formats.
pub fn create_admin(creds: &Creds, claims: &Claims) -> (result: Result<(), Error>)
    ensures
        result == if !Requirement::Admin.admits(claims.role@) {
            Err::<(), Error>(Error::NoPermission)
        } else {
            credentials_format(creds.username@, creds.password@)
        },
{
    match Requirement::Admin.check(claims.role.as_str()) {
        Ok(_) => check_credentials(creds),
        Err(e) => Err(e),
    }
}

/// Admits a request for a page of the account list, and tells the page:
/// the token must be an administrator's, and the page a positive number.
pub fn get_users(payload: &Page, claims: &Claims) -> (result: Result<i32, Error>)
    ensures
        result == if !Requirement::Admin.admits(claims.role@) {
            Err::<i32, Error>(Error::NoPermission)
        } else if payload.page > 0 {
            Ok::<i32, Error>(payload.page)
        } else {
            Err::<i32, Error>(Error::Parameter)
        },
{
    match Requirement::Admin.check(claims.role.as_str()) {
        Ok(_) => {
            if payload.page > 0 {
                Ok(payload.page)
            } else {
                Err(Error::Parameter)
            }
        },
        Err(e) => Err(e),
    }
}

/// What a request of an administrator that names an account is admitted
/// with: the account's identifier.
pub open spec fn lookup(role: Seq<char>, text: Seq<char>) -> Result<Name, Error> {
    if !Requirement::Admin.admits(role) {
        Err(Error::NoPermission)
    } else {
        identified(parsed_uuid(text), text)
    }
}

fn admin_lookup(payload: User, claims: &Claims) -> (result: Result<Identifier, Error>)
    ensures
        name_of(result) == lookup(claims.role@, payload.identifier@),
{
    match Requirement::Admin.check(claims.role.as_str()) {
        Ok(_) => {
            let mut text = payload.identifier;
            match get_identifier(&mut text) {
                Ok(identifier) => Ok(identifier),
                Err(_) => Err(Error::CredsFormat),
            }
        },
        Err(e) => Err(e),
    }
}

/// Admits an administrator's request to see an account.
pub fn get_user(payload: User, claims: &Claims) -> (result: Result<Identifier, Error>)
    ensures
        name_of(result) == lookup(claims.role@, payload.identifier@),
{
    admin_lookup(payload, claims)
}

/// Admits an administrator's request to delete an account.
pub fn delete(payload: User, claims: &Claims) -> (result: Result<Identifier, Error>)
    ensures
        name_of(result) == lookup(claims.role@, payload.identifier@),
{
    admin_lookup(payload, claims)
}

/// Admits an administrator's request to lift the ban of an account.
pub fn unban(payload: User, claims: &Claims) -> (result: Result<Identifier, Error>)
    ensures
        name_of(result) == lookup(claims.role@, payload.identifier@),
{
    admin_lookup(payload, claims)
}

/// Admits an administrator's request to ban an account.
pub fn ban(payload: User, claims: &Claims) -> (result: Result<Identifier, Error>)
    ensures
        name_of(result) == lookup(claims.role@, payload.identifier@),
{
    admin_lookup(payload, claims)
}

} // verus!
