//! The decisions of a Discord moderation bot that keeps a watchlist of users
//! to ban or to put into "the pit" (a restricting role), verified with Verus.
use vstd::prelude::*;

pub mod models;
pub mod text;
pub mod mention;
pub mod replies;
pub mod checks;
pub mod action;
pub mod commands;
pub mod join;
pub mod laws;

verus! {
} // verus!
