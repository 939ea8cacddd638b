//! The values that requests, responses and stored rows are made of.

pub mod api;
pub mod db;
pub mod game;
