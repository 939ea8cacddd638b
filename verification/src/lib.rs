//! Authentication and authorization core of a save-data game service.
//!
//! The core hashes and verifies passwords, issues and verifies signed access
//! tokens that carry a role, decides what each role may do, and takes every
//! operation on an account from the request to the statements that the row
//! store is to run. It reads no socket and no table: the service around it
//! fetches the rows that an operation needs, hands them over, and carries out
//! the plan that comes back.
//!
//! - [`validate`]: the formats of usernames, passwords and payment forms
//! - [`password`]: salted Argon2d hashes and their verification
//! - [`token`]: issue and verification of access tokens
//! - [`policy`]: roles and what an operation asks of them
//! - [`routes`]: what a request must pass before the store is asked
//! - [`db`]: what an operation decides once the store has answered
//! - [`store`]: the statements of a plan and what they mean
//! - [`errors`]: the failures and how they are shown
//! - [`models`], [`config`]: the values that all of these work on

pub mod clock;
pub mod config;
pub mod db;
pub mod decimal;
pub mod errors;
pub mod ids;
pub mod models;
pub mod password;
pub mod policy;
pub mod random;
pub mod routes;
pub mod store;
pub mod token;
pub mod validate;
