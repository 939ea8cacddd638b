//! Bodies of requests and responses.

use vstd::prelude::*;
use crate::models::db::{accounts, Account, Data, Saves, User as DbUser};
use crate::models::game::SaveData;

verus! {

/// What an operation answers on success.
#[derive(Debug, PartialEq, Eq)]
pub enum Responses {
    Auth { success: bool, access_token: String },
    Register { success: bool, access_token: String },
    RegisterAdmin { success: bool },
    NewPassword { success: bool },
    Jwt { access_token: String },
    Upgrade { success: bool, access_token: String },
    Save { success: bool },
    Load { data: Box<Data> },
    Page { page: i32, pages: i32, count: usize, users: Vec<DbUser> },
    User { user: DbUser },
    Delete { deleted: String, success: bool },
    Unban { unbanned: String, success: bool },
    Ban { banned: String, success: bool },
}

/// A response as contracts see it.
pub ghost enum Reply {
    Auth { success: bool, access_token: Seq<char> },
    Register { success: bool, access_token: Seq<char> },
    RegisterAdmin { success: bool },
    NewPassword { success: bool },
    Jwt { access_token: Seq<char> },
    Upgrade { success: bool, access_token: Seq<char> },
    Save { success: bool },
    Load { data: Saves },
    Page { page: i32, pages: i32, count: usize, users: Seq<Account> },
    User { user: Account },
    Delete { deleted: Seq<char>, success: bool },
    Unban { unbanned: Seq<char>, success: bool },
    Ban { banned: Seq<char>, success: bool },
}

impl Reply {
    /// The access token that the response gives, if it gives one.
    pub open spec fn token(self) -> Option<Seq<char>> {
        match self {
            Reply::Auth { access_token, .. } => Some(access_token),
            Reply::Register { access_token, .. } => Some(access_token),
            Reply::Jwt { access_token } => Some(access_token),
            Reply::Upgrade { access_token, .. } => Some(access_token),
            _ => None,
        }
    }
}

impl View for Responses {
    type V = Reply;

    open spec fn view(&self) -> Reply {
        match self {
            Responses::Auth { success, access_token } => Reply::Auth {
                success: *success,
                access_token: access_token@,
            },
            Responses::Register { success, access_token } => Reply::Register {
                success: *success,
                access_token: access_token@,
            },
            Responses::RegisterAdmin { success } => Reply::RegisterAdmin { success: *success },
            Responses::NewPassword { success } => Reply::NewPassword { success: *success },
            Responses::Jwt { access_token } => Reply::Jwt { access_token: access_token@ },
            Responses::Upgrade { success, access_token } => Reply::Upgrade {
                success: *success,
                access_token: access_token@,
            },
            Responses::Save { success } => Reply::Save { success: *success },
            Responses::Load { data } => Reply::Load { data: data@ },
            Responses::Page { page, pages, count, users } => Reply::Page {
                page: *page,
                pages: *pages,
                count: *count,
                users: accounts(users@),
            },
            Responses::User { user } => Reply::User { user: user@ },
            Responses::Delete { deleted, success } => Reply::Delete {
                deleted: deleted@,
                success: *success,
            },
            Responses::Unban { unbanned, success } => Reply::Unban {
                unbanned: unbanned@,
                success: *success,
            },
            Responses::Ban { banned, success } => Reply::Ban { banned: banned@, success: *success },
        }
    }
}

/// How a request names an account.
#[derive(Debug, PartialEq, Eq)]
pub enum Identifier {
    Username(String),
    Uuid(u128),
}

/// An identifier as contracts see it.
pub ghost enum Name {
    Username(Seq<char>),
    Uuid(u128),
}

impl View for Identifier {
    type V = Name;

    open spec fn view(&self) -> Name {
        match self {
            Identifier::Username(name) => Name::Username(name@),
            Identifier::Uuid(id) => Name::Uuid(*id),
        }
    }
}

/// A request that names one account, by username or by id.
#[derive(Debug, PartialEq, Eq)]
pub struct User {
    pub identifier: String,
}

/// A request for one page of the account list.
#[derive(Clone, Copy, Debug, PartialEq, Eq)]
pub struct Page {
    pub page: i32,
}

#[derive(Debug, PartialEq, Eq)]
pub struct Creds {
    pub username: String,
    pub password: String,
}

#[derive(Debug, PartialEq, Eq)]
pub struct Password {
    pub password: String,
    pub new_password: String,
}

/// The payment form of an upgrade. Card number, security code and expiry
/// are checked for their format and never stored.
#[derive(Debug, PartialEq, Eq)]
pub struct Payment {
    pub first_name: String,
    pub last_name: String,
    pub address: String,
    pub card_number: String,
    pub cvc: String,
    pub exp_month: String,
    pub exp_year: String,
}

/// A request to write one save slot.
#[derive(Debug, PartialEq, Eq)]
pub struct Save {
    /// The slot: 1, 2 or 3.
    pub opt: u8,
    pub data: Box<SaveData>,
}

} // verus!
