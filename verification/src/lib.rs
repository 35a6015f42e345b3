//! Settings-page and text-service decisions of the Qingjian input method.
//!
//! - `combo`: drop-down lists that pair a shown label with a config value.
//! - `general`: the general settings page.
//! - `phrases`: the custom-phrase page.
//! - `config`: the settings the text service reads for itself.
//! - `service`: the steps of activating and deactivating the text service.
//! - `text`: string comparison and decimal numerals.

pub mod combo;
pub mod config;
pub mod general;
pub mod phrases;
pub mod service;
pub mod text;
