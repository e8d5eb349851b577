//! The concrete activity variants: each implements the handler
//! contract as a `verify` function (read-only checks, may resolve and
//! cache references) and a `receive` function (applies the mutation,
//! assuming `verify` passed). Outbound construction lives beside each
//! variant as its `send`.

pub mod add_mod;
pub mod create_or_update_post;
pub mod delete;
pub mod undo_follow;
pub mod update_community;
pub mod vote;
