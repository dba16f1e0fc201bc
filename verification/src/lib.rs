//! Verified core of the MySocial salt service.

pub mod config;
pub mod db;
pub mod foreign;
pub mod handlers;
pub mod indexer_platforms;
pub mod json;
pub mod models;
pub mod numeral;
pub mod security;
pub mod startup;
pub mod text;
