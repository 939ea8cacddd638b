//! Rows of the store.

use vstd::prelude::*;
use crate::models::game::SaveData;

verus! {

/// The three save slots of an account, each with the time it was written.
#[derive(Debug, PartialEq, Eq)]
pub struct Data {
    pub save_one: Option<SaveData>,
    pub save_two: Option<SaveData>,
    pub save_three: Option<SaveData>,
    pub timestamp_one: Option<i64>,
    pub timestamp_two: Option<i64>,
    pub timestamp_three: Option<i64>,
}

/// The save slots as contracts see them.
pub ghost struct Saves {
    pub save_one: Option<Seq<char>>,
    pub save_two: Option<Seq<char>>,
    pub save_three: Option<Seq<char>>,
    pub timestamp_one: Option<i64>,
    pub timestamp_two: Option<i64>,
    pub timestamp_three: Option<i64>,
}

/// The view of a save that may be absent.
pub open spec fn save_view(save: Option<SaveData>) -> Option<Seq<char>> {
    match save {
        Some(s) => Some(s@),
        None => None,
    }
}

impl View for Data {
    type V = Saves;

    open spec fn view(&self) -> Saves {
        Saves {
            save_one: save_view(self.save_one),
            save_two: save_view(self.save_two),
            save_three: save_view(self.save_three),
            timestamp_one: self.timestamp_one,
            timestamp_two: self.timestamp_two,
            timestamp_three: self.timestamp_three,
        }
    }
}

impl Saves {
    /// No slot written yet.
    pub open spec fn empty() -> Saves {
        Saves {
            save_one: None,
            save_two: None,
            save_three: None,
            timestamp_one: None,
            timestamp_two: None,
            timestamp_three: None,
        }
    }
}

/// An account as the store holds it.
#[derive(Debug, PartialEq, Eq)]
pub struct User {
    pub id: u128,
    pub username: String,
    /// `s` for a standard account, `u` for an upgraded one, `a` for an
    /// administrator.
    pub acc_type: String,
    /// Present in every stored row; absent once the row is made displayable.
    pub password: Option<String>,
    /// Present in every stored row; absent once the row is made displayable.
    pub salt: Option<String>,
    pub creation_date: i64,
    pub banned: bool,
    pub ban_date: Option<i64>,
}

/// An account as contracts see it.
pub ghost struct Account {
    pub id: u128,
    pub username: Seq<char>,
    pub acc_type: Seq<char>,
    pub password: Option<Seq<char>>,
    pub salt: Option<Seq<char>>,
    pub creation_date: i64,
    pub banned: bool,
    pub ban_date: Option<i64>,
}

/// The view of a text that may be absent.
pub open spec fn text_view(text: Option<String>) -> Option<Seq<char>> {
    match text {
        Some(t) => Some(t@),
        None => None,
    }
}

impl View for User {
    type V = Account;

    open spec fn view(&self) -> Account {
        Account {
            id: self.id,
            username: self.username@,
            acc_type: self.acc_type@,
            password: text_view(self.password),
            salt: text_view(self.salt),
            creation_date: self.creation_date,
            banned: self.banned,
            ban_date: self.ban_date,
        }
    }
}

impl Account {
    /// The account without its credentials.
    pub open spec fn public(self) -> Account {
        Account { password: None, salt: None, ..self }
    }
}

/// The views of rows, in their order.
pub open spec fn accounts(rows: Seq<User>) -> Seq<Account> {
    rows.map_values(|row: User| row@)
}

impl User {
    /// A copy of the account without its credentials.
    pub fn shown(&self) -> (shown: User)
        ensures
            shown@ == self@.public(),
    {
        User {
            id: self.id,
            username: self.username.clone(),
            acc_type: self.acc_type.clone(),
            password: None,
            salt: None,
            creation_date: self.creation_date,
            banned: self.banned,
            ban_date: self.ban_date,
        }
    }

    /// The account with its credentials taken out, fit to be shown.
    pub fn displayable(self) -> (shown: User)
        ensures
            shown@ == self@.public(),
    {
        let mut shown = self;
        shown.password = None;
        shown.salt = None;
        shown
    }
}

} // verus!
