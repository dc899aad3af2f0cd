//! Files and the database: what to do with them, and in which order.
pub mod crash_safety;
pub mod db_service;
pub mod discovery;
pub mod import;
pub mod restore;
pub mod settings;
