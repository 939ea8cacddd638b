//! What the core asks of the row store: the statements that an operation
//! wants run, and what they mean on a model of the stored state.

use vstd::prelude::*;
use crate::models::api::{Name, Reply, Responses};
use crate::models::db::{Account, Saves};
use crate::models::game::SaveData;
use crate::validate::upper;

verus! {

/// One of the three save slots of an account.
#[derive(Clone, Copy, Debug, PartialEq, Eq, Structural)]
pub enum Slot {
    One,
    Two,
    Three,
}

/// A statement that changes stored rows.
#[derive(Debug, PartialEq, Eq)]
pub enum Statement {
    /// A new account row, not banned.
    InsertUser {
        id: u128,
        username: String,
        acc_type: String,
        password: String,
        salt: String,
        creation_date: i64,
    },
    /// A new row of save slots, all empty.
    InsertData { id: u128 },
    /// New credentials for the account of that username, whatever its case.
    SetPassword { username: String, password: String, salt: String },
    /// The record of a payment.
    InsertTransaction {
        tx_id: String,
        id: u128,
        first_name: String,
        last_name: String,
        address: String,
        tx_timestamp: i64,
    },
    /// A new role for an account.
    SetRole { id: u128, acc_type: String },
    /// One save slot, overwritten with the time of writing.
    SetSave { id: u128, slot: Slot, data: SaveData, timestamp: i64 },
    /// The ban of an account, set or lifted, with its date.
    SetBan { id: u128, banned: bool, ban_date: Option<i64> },
    /// The account row, removed.
    DeleteUser { id: u128 },
}

/// A statement as contracts see it.
pub ghost enum Write {
    InsertUser {
        id: u128,
        username: Seq<char>,
        acc_type: Seq<char>,
        password: Seq<char>,
        salt: Seq<char>,
        creation_date: i64,
    },
    InsertData { id: u128 },
    SetPassword { username: Seq<char>, password: Seq<char>, salt: Seq<char> },
    InsertTransaction {
        tx_id: Seq<char>,
        id: u128,
        first_name: Seq<char>,
        last_name: Seq<char>,
        address: Seq<char>,
        tx_timestamp: i64,
    },
    SetRole { id: u128, acc_type: Seq<char> },
    SetSave { id: u128, slot: Slot, data: Seq<char>, timestamp: i64 },
    SetBan { id: u128, banned: bool, ban_date: Option<i64> },
    DeleteUser { id: u128 },
}

impl View for Statement {
    type V = Write;

    open spec fn view(&self) -> Write {
        match self {
            Statement::InsertUser { id, username, acc_type, password, salt, creation_date } => Write::InsertUser {
                id: *id,
                username: username@,
                acc_type: acc_type@,
                password: password@,
                salt: salt@,
                creation_date: *creation_date,
            },
            Statement::InsertData { id } => Write::InsertData { id: *id },
            Statement::SetPassword { username, password, salt } => Write::SetPassword {
                username: username@,
                password: password@,
                salt: salt@,
            },
            Statement::InsertTransaction { tx_id, id, first_name, last_name, address, tx_timestamp } => Write::InsertTransaction {
                tx_id: tx_id@,
                id: *id,
                first_name: first_name@,
                last_name: last_name@,
                address: address@,
                tx_timestamp: *tx_timestamp,
            },
            Statement::SetRole { id, acc_type } => Write::SetRole { id: *id, acc_type: acc_type@ },
            Statement::SetSave { id, slot, data, timestamp } => Write::SetSave {
                id: *id,
                slot: *slot,
                data: data@,
                timestamp: *timestamp,
            },
            Statement::SetBan { id, banned, ban_date } => Write::SetBan {
                id: *id,
                banned: *banned,
                ban_date: *ban_date,
            },
            Statement::DeleteUser { id } => Write::DeleteUser { id: *id },
        }
    }
}

/// The views of statements, in their order.
pub open spec fn writes(statements: Seq<Statement>) -> Seq<Write> {
    statements.map_values(|statement: Statement| statement@)
}

/// What an operation that succeeded wants done: the statements to run, in
/// order, and the response to give once all of them have gone through.
#[derive(Debug, PartialEq, Eq)]
pub struct Plan {
    pub statements: Vec<Statement>,
    /// Whether the statements are one transaction: all of them or none.
    pub atomic: bool,
    pub response: Responses,
}

/// A plan as contracts see it.
pub ghost struct Course {
    pub writes: Seq<Write>,
    pub atomic: bool,
    pub reply: Reply,
}

impl View for Plan {
    type V = Course;

    open spec fn view(&self) -> Course {
        Course { writes: writes(self.statements@), atomic: self.atomic, reply: self.response@ }
    }
}

impl Plan {
    /// A plan of one statement.
    pub fn single(statement: Statement, response: Responses) -> (plan: Plan)
        ensures
            plan@ == (Course { writes: seq![statement@], atomic: false, reply: response@ }),
    {
        let mut statements = Vec::new();
        statements.push(statement);
        assert(writes(statements@) =~= seq![statement@]);
        Plan { statements, atomic: false, response }
    }
}

/// The record of a payment.
pub ghost struct Payment {
    pub tx_id: Seq<char>,
    pub id: u128,
    pub first_name: Seq<char>,
    pub last_name: Seq<char>,
    pub address: Seq<char>,
    pub tx_timestamp: i64,
}

/// A model of the stored state: the accounts and the save slots by account
/// id, and the payments in the order they were recorded.
pub ghost struct Store {
    pub accounts: Map<u128, Account>,
    pub payments: Seq<Payment>,
    pub saves: Map<u128, Saves>,
}

/// A character with a Latin capital turned into its small letter.
pub open spec fn lower_case(c: char) -> char {
    if upper(c) {
        ((c as u32) + 32) as char
    } else {
        c
    }
}

/// Whether two usernames are the same but for the case of their letters.
pub open spec fn same_name(a: Seq<char>, b: Seq<char>) -> bool {
    a.map_values(|c: char| lower_case(c)) == b.map_values(|c: char| lower_case(c))
}

/// The slots with one of them overwritten.
pub open spec fn with_save(saves: Saves, slot: Slot, data: Seq<char>, timestamp: i64) -> Saves {
    match slot {
        Slot::One => Saves { save_one: Some(data), timestamp_one: Some(timestamp), ..saves },
        Slot::Two => Saves { save_two: Some(data), timestamp_two: Some(timestamp), ..saves },
        Slot::Three => Saves { save_three: Some(data), timestamp_three: Some(timestamp), ..saves },
    }
}

impl Store {
    /// Whether an account has the username, whatever the case.
    pub open spec fn name_taken(self, username: Seq<char>) -> bool {
        exists|id: u128| #[trigger]
            self.accounts.contains_key(id) && same_name(self.accounts[id].username, username)
    }

    /// The account that a request names, if it is stored.
    pub open spec fn find(self, name: Name) -> Option<Account> {
        match name {
            Name::Uuid(id) => if self.accounts.contains_key(id) {
                Some(self.accounts[id])
            } else {
                None
            },
            Name::Username(username) => if self.name_taken(username) {
                Some(
                    self.accounts[choose|id: u128| #[trigger]
                        self.accounts.contains_key(id) && same_name(
                            self.accounts[id].username,
                            username,
                        )],
                )
            } else {
                None
            },
        }
    }

    /// The state after one statement has gone through. A statement that
    /// changes rows changes those that are there: where there are none it
    /// goes through and changes nothing.
    pub open spec fn after(self, write: Write) -> Store {
        match write {
            Write::InsertUser { id, username, acc_type, password, salt, creation_date } => Store {
                accounts: self.accounts.insert(
                    id,
                    Account {
                        id,
                        username,
                        acc_type,
                        password: Some(password),
                        salt: Some(salt),
                        creation_date,
                        banned: false,
                        ban_date: None,
                    },
                ),
                ..self
            },
            Write::InsertData { id } => Store { saves: self.saves.insert(id, Saves::empty()), ..self },
            Write::SetPassword { username, password, salt } => Store {
                accounts: Map::new(
                    |id: u128| self.accounts.contains_key(id),
                    |id: u128|
                        if same_name(self.accounts[id].username, username) {
                            Account { password: Some(password), salt: Some(salt), ..self.accounts[id] }
                        } else {
                            self.accounts[id]
                        },
                ),
                ..self
            },
            Write::InsertTransaction { tx_id, id, first_name, last_name, address, tx_timestamp } => Store {
                payments: self.payments.push(
                    Payment { tx_id, id, first_name, last_name, address, tx_timestamp },
                ),
                ..self
            },
            Write::SetRole { id, acc_type } => if self.accounts.contains_key(id) {
                Store {
                    accounts: self.accounts.insert(id, Account { acc_type, ..self.accounts[id] }),
                    ..self
                }
            } else {
                self
            },
            Write::SetSave { id, slot, data, timestamp } => if self.saves.contains_key(id) {
                Store {
                    saves: self.saves.insert(id, with_save(self.saves[id], slot, data, timestamp)),
                    ..self
                }
            } else {
                self
            },
            Write::SetBan { id, banned, ban_date } => if self.accounts.contains_key(id) {
                Store {
                    accounts: self.accounts.insert(
                        id,
                        Account { banned, ban_date, ..self.accounts[id] },
                    ),
                    ..self
                }
            } else {
                self
            },
            Write::DeleteUser { id } => Store { accounts: self.accounts.remove(id), ..self },
        }
    }

    /// The state after the first `n` of the statements have gone through.
    pub open spec fn after_first(self, writes: Seq<Write>, n: int) -> Store
        decreases n,
    {
        if n <= 0 {
            self
        } else {
            self.after_first(writes, n - 1).after(writes[n - 1])
        }
    }

    /// The state in which running a plan leaves the store. `failing` is the
    /// position of the statement that the store refuses, if it refuses one:
    /// the statements before it have gone through, unless the plan is one
    /// transaction, which then leaves no trace.
    pub open spec fn run(self, course: Course, failing: Option<int>) -> Store {
        match failing {
            None => self.after_first(course.writes, course.writes.len() as int),
            Some(k) => if course.atomic {
                self
            } else {
                self.after_first(course.writes, k)
            },
        }
    }
}

} // verus!
