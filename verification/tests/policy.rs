use game_auth::errors::{Error, Kind};
use game_auth::policy::{parse_role, Requirement, Role};

#[test]
fn role_codes() {
    assert_eq!(Role::Standard.to_code(), "s");
    assert_eq!(Role::Upgraded.to_code(), "u");
    assert_eq!(Role::Admin.to_code(), "a");
    assert_eq!(parse_role("s"), Some(Role::Standard));
    assert_eq!(parse_role("u"), Some(Role::Upgraded));
    assert_eq!(parse_role("a"), Some(Role::Admin));
    for other in ["", "S", "x", "ss", "admin", "s ", " s"] {
        assert_eq!(parse_role(other), None, "{:?}", other);
    }
}

#[test]
fn admin_requirement() {
    assert_eq!(Requirement::Admin.check("a"), Ok(()));
    assert_eq!(Requirement::Admin.check("u"), Err(Error::NoPermission));
    assert_eq!(Requirement::Admin.check("s"), Err(Error::NoPermission));
    assert_eq!(Requirement::Admin.check("root"), Err(Error::NoPermission));
}

#[test]
fn paid_requirement() {
    assert_eq!(Requirement::Paid.check("a"), Ok(()));
    assert_eq!(Requirement::Paid.check("u"), Ok(()));
    assert_eq!(Requirement::Paid.check("s"), Err(Error::NotUpgraded));
    assert_eq!(Requirement::Paid.check(""), Err(Error::NotUpgraded));
}

#[test]
fn standard_requirement() {
    assert_eq!(Requirement::Standard.check("s"), Ok(()));
    assert_eq!(Requirement::Standard.check("u"), Err(Error::Upgraded));
    assert_eq!(Requirement::Standard.check("a"), Err(Error::Upgraded));
    assert_eq!(Requirement::Standard.check("x"), Err(Error::Upgraded));
}

#[test]
fn authenticated_requirement() {
    for role in ["s", "u", "a", "", "anything"] {
        assert_eq!(Requirement::Authenticated.check(role), Ok(()));
    }
}

#[test]
fn a_refused_role_is_no_failure_to_authenticate() {
    for requirement in [Requirement::Admin, Requirement::Paid, Requirement::Standard] {
        let refused = requirement.check("none").unwrap_err();
        assert_ne!(refused.kind(), Kind::Authentication);
        assert_ne!(refused.status_code(), 401);
    }
    assert_eq!(Requirement::Admin.check("none").unwrap_err().status_code(), 403);
    assert_eq!(Requirement::Paid.check("none").unwrap_err().status_code(), 403);
    assert_eq!(Requirement::Standard.check("none").unwrap_err().status_code(), 409);
}
