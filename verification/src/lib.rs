use vstd::prelude::*;

pub mod text;
pub mod xml;
pub mod bgg;
pub mod models;
pub mod security;
pub mod photos;
pub mod backups;
pub mod schedule;
pub mod plays;
pub mod form;
pub mod play_form;
pub mod import;
pub mod stats;
pub mod collection;
pub mod admin;
pub mod auth;
pub mod archive;
pub mod export;
pub mod settings;

verus! {
}
