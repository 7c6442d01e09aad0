//! Order management for hotels and restaurants.

pub mod account_laws;
pub mod accounts;
pub mod asking_laws;
pub mod auth;
pub mod basic_laws;
pub mod clock;
pub mod demo_laws;
pub mod error;
pub mod feed;
pub mod feed_laws;
pub mod flow;
pub mod ids;
pub mod isolation;
pub mod json;
pub mod laws;
pub mod listing_laws;
pub mod menu;
pub mod menu_laws;
pub mod order_laws;
pub mod orders;
pub mod orgs;
pub mod outcomes;
pub mod placing_laws;
pub mod profile_laws;
pub mod records;
pub mod seed;
pub mod seed_laws;
pub mod soundness;
pub mod store;
pub mod table_laws;
pub mod tables;
pub mod text;
pub mod token_laws;
