//! A flat-file document store for a household inventory service: the
//! decision logic of its collections (users, houses), its version-checked
//! house documents, its atomic write protocol and its dated backups.
//! File-system and network work is done by the caller, which hands the
//! library what it observed and performs what the library decides.

pub mod error;
pub mod text;
pub mod paths;
pub mod token;
pub mod user;
pub mod house;
pub mod houses;
pub mod accounts;
pub mod versioned;
pub mod backup_manager;
pub mod file_storage;
pub mod images;
