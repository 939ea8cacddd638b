use game_auth::errors::{db_error, pool_error, transaction_error, Error, Kind};

fn every_error() -> Vec<Error> {
    vec![
        Error::Pool,
        Error::Page,
        Error::Banned,
        Error::Payload,
        Error::Upgraded,
        Error::PriorBan,
        Error::NotBanned,
        Error::Parameter,
        Error::InvalidOpt,
        Error::NotUpgraded,
        Error::CredsFormat,
        Error::UserNotFound,
        Error::NoPermission,
        Error::DBTransaction,
        Error::UsernameTaken,
        Error::TokenDuration,
        Error::PaymentDetails,
        Error::Hasher,
        Error::DbError(String::from("42P01")),
    ]
}

#[test]
fn info_gives_the_text_of_each_error() {
    let texts: Vec<String> = every_error().iter().map(|e| e.info()).collect();
    assert_eq!(
        texts,
        vec![
            "Database Unreachable",
            "Nonexistent Page",
            "Account Banned",
            "Invalid Payload",
            "Account Already Upgraded",
            "User Already Banned",
            "User Is Not Banned",
            "Invalid Parameter",
            "Invalid Option",
            "Account Is Not Upgraded",
            "Credential Format Requirements",
            "Supplied Values Dont Match A User",
            "Unauthorized",
            "Interal Server Error",
            "Username Taken",
            "Duration Not Met",
            "Payment Details Formatting",
            "Internal Server Error",
            "Database Error: 42P01",
        ]
    );
}

#[test]
fn info_of_a_store_error_with_an_empty_code() {
    assert_eq!(Error::DbError(String::new()).info(), "Database Error: ");
}

#[test]
fn status_code_of_each_error() {
    let codes: Vec<u16> = every_error().iter().map(|e| e.status_code()).collect();
    assert_eq!(
        codes,
        vec![500, 400, 401, 400, 409, 409, 409, 400, 400, 403, 400, 401, 403, 500, 409, 400, 400, 500, 500]
    );
}

#[test]
fn kind_of_each_error() {
    let kinds: Vec<Kind> = every_error().iter().map(|e| e.kind()).collect();
    assert_eq!(
        kinds,
        vec![
            Kind::Internal,
            Kind::Validation,
            Kind::Banned,
            Kind::Validation,
            Kind::Conflict,
            Kind::Conflict,
            Kind::Conflict,
            Kind::Validation,
            Kind::Validation,
            Kind::Authorization,
            Kind::Validation,
            Kind::Authentication,
            Kind::Authorization,
            Kind::Internal,
            Kind::Conflict,
            Kind::Validation,
            Kind::Validation,
            Kind::Internal,
            Kind::Internal,
        ]
    );
}

#[test]
fn status_of_each_kind() {
    assert_eq!(Kind::Authentication.status_code(), 401);
    assert_eq!(Kind::Authorization.status_code(), 403);
    assert_eq!(Kind::Validation.status_code(), 400);
    assert_eq!(Kind::Conflict.status_code(), 409);
    assert_eq!(Kind::Banned.status_code(), 401);
    assert_eq!(Kind::Internal.status_code(), 500);
}

#[test]
fn the_status_of_an_error_is_that_of_its_kind() {
    for error in every_error() {
        assert_eq!(error.status_code(), error.kind().status_code(), "{:?}", error);
    }
}

#[test]
fn conflicts_have_a_status_of_their_own() {
    for conflict in [Error::UsernameTaken, Error::PriorBan, Error::NotBanned, Error::Upgraded] {
        assert_eq!(conflict.kind(), Kind::Conflict);
        assert_eq!(conflict.status_code(), 409);
    }
    for error in every_error() {
        assert_eq!(error.status_code() == 409, error.kind() == Kind::Conflict, "{:?}", error);
    }
    for other in [
        Error::CredsFormat,
        Error::Payload,
        Error::Parameter,
        Error::InvalidOpt,
        Error::PaymentDetails,
        Error::NoPermission,
        Error::UserNotFound,
    ] {
        assert_ne!(other.status_code(), 409, "{:?}", other);
    }
}

#[test]
fn a_failure_of_the_hasher_is_internal() {
    assert_eq!(Error::Hasher.kind(), Kind::Internal);
    assert_eq!(Error::Hasher.status_code(), 500);
    assert_eq!(Error::Hasher.info(), "Internal Server Error");
}

#[test]
fn every_error_has_a_status_and_a_text() {
    for error in every_error() {
        assert!(error.status_code() >= 400 && error.status_code() < 600);
        assert!(!error.info().is_empty());
    }
}

#[test]
fn authorization_and_authentication_failures_differ() {
    assert_ne!(Error::NoPermission.status_code(), Error::UserNotFound.status_code());
    assert_ne!(Error::NoPermission.kind(), Error::UserNotFound.kind());
}

#[test]
fn db_error_without_a_code_is_user_not_found() {
    assert_eq!(db_error(None), Error::UserNotFound);
}

#[test]
fn db_error_of_a_unique_violation_is_username_taken() {
    assert_eq!(db_error(Some(String::from("23505"))), Error::UsernameTaken);
}

#[test]
fn db_error_of_another_code_keeps_the_code() {
    assert_eq!(db_error(Some(String::from("42P01"))), Error::DbError(String::from("42P01")));
    assert_eq!(db_error(Some(String::from("2350"))), Error::DbError(String::from("2350")));
    assert_eq!(db_error(Some(String::from("235050"))), Error::DbError(String::from("235050")));
    assert_eq!(db_error(Some(String::new())), Error::DbError(String::new()));
}

#[test]
fn pool_and_transaction_errors() {
    assert_eq!(pool_error(), Error::Pool);
    assert_eq!(transaction_error(), Error::DBTransaction);
    assert_eq!(pool_error().kind(), Kind::Internal);
    assert_eq!(transaction_error().status_code(), 500);
}
