//! Which role may do what.

use vstd::prelude::*;
use vstd::string::*;
use crate::errors::Error;

verus! {

/// The tier of an account.
#[derive(Clone, Copy, Debug, PartialEq, Eq, Structural)]
pub enum Role {
    Standard,
    Upgraded,
    Admin,
}

impl Role {
    /// The letter that stands for the role in rows and tokens.
    pub open spec fn letter(self) -> char {
        match self {
            Role::Standard => 's',
            Role::Upgraded => 'u',
            Role::Admin => 'a',
        }
    }

    /// The role's code: its letter as a text.
    pub open spec fn code(self) -> Seq<char> {
        seq![self.letter()]
    }

    /// The role's code.
    pub fn to_code(self) -> (code: String)
        ensures
            code@ == self.code(),
    {
        proof {
            reveal_strlit("s");
            reveal_strlit("u");
            reveal_strlit("a");
        }
        let code = match self {
            Role::Standard => String::from_str("s"),
            Role::Upgraded => String::from_str("u"),
            Role::Admin => String::from_str("a"),
        };
        assert(code@ =~= self.code());
        code
    }
}

/// The role that a code stands for, if any.
pub open spec fn role_of(code: Seq<char>) -> Option<Role> {
    if code == Role::Standard.code() {
        Some(Role::Standard)
    } else if code == Role::Upgraded.code() {
        Some(Role::Upgraded)
    } else if code == Role::Admin.code() {
        Some(Role::Admin)
    } else {
        None
    }
}

/// Reads a role from its code.
pub fn parse_role(code: &str) -> (role: Option<Role>)
    ensures
        role == role_of(code@),
{
    let mut first = ' ';
    let mut n: usize = 0;
    for c in it: code.chars()
        invariant
            it.seq() == code@,
            n == it.index(),
            n <= 1,
            n == 1 ==> first == code@[0],
    {
        if n >= 1 {
            return None;
        }
        first = c;
        n += 1;
    }
    if n == 0 {
        None
    } else {
        assert(code@ =~= seq![first]);
        if first == 's' {
            Some(Role::Standard)
        } else if first == 'u' {
            Some(Role::Upgraded)
        } else if first == 'a' {
            Some(Role::Admin)
        } else {
            assert(Role::Standard.code()[0] == 's');
            assert(Role::Upgraded.code()[0] == 'u');
            assert(Role::Admin.code()[0] == 'a');
            None
        }
    }
}

/// What an operation asks of the role in a verified token.
#[derive(Clone, Copy, Debug, PartialEq, Eq, Structural)]
pub enum Requirement {
    /// Any verified token will do.
    Authenticated,
    /// Administrators only.
    Admin,
    /// Upgraded accounts and administrators.
    Paid,
    /// Standard accounts only.
    Standard,
}

impl Requirement {
    /// Whether a token with the role code `role` meets the requirement.
    pub open spec fn admits(self, role: Seq<char>) -> bool {
        match self {
            Requirement::Authenticated => true,
            Requirement::Admin => role_of(role) == Some(Role::Admin),
            Requirement::Paid => role_of(role) == Some(Role::Upgraded) || role_of(role) == Some(
                Role::Admin,
            ),
            Requirement::Standard => role_of(role) == Some(Role::Standard),
        }
    }

    /// The failure that a role that does not meet the requirement is told.
    pub open spec fn refusal(self) -> Error {
        match self {
            Requirement::Authenticated => Error::NoPermission,
            Requirement::Admin => Error::NoPermission,
            Requirement::Paid => Error::NotUpgraded,
            Requirement::Standard => Error::Upgraded,
        }
    }

    /// What checking the role code `role` gives.
    pub open spec fn decision(self, role: Seq<char>) -> Result<(), Error> {
        if self.admits(role) {
            Ok(())
        } else {
            Err(self.refusal())
        }
    }

    /// Checks the role of a verified token against the requirement.
    pub fn check(self, role: &str) -> (result: Result<(), Error>)
        ensures
            result == self.decision(role@),
    {
        let role = parse_role(role);
        match self {
            Requirement::Authenticated => Ok(()),
            Requirement::Admin => match role {
                Some(Role::Admin) => Ok(()),
                _ => Err(Error::NoPermission),
            },
            Requirement::Paid => match role {
                Some(Role::Upgraded) | Some(Role::Admin) => Ok(()),
                _ => Err(Error::NotUpgraded),
            },
            Requirement::Standard => match role {
                Some(Role::Standard) => Ok(()),
                _ => Err(Error::Upgraded),
            },
        }
    }
}

/// A role that fails a requirement is told so as an authorization failure
/// or, where the account is past the tier asked for, as a conflict; never as
/// a failure to authenticate.
pub proof fn refusal_is_not_authentication(requirement: Requirement)
    ensures
        requirement.refusal().class() == crate::errors::Kind::Authorization
            || requirement.refusal().class() == crate::errors::Kind::Conflict,
{
}

} // verus!
