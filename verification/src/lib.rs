pub mod command;
pub mod container;
pub mod database;
pub mod error;
pub mod method;
pub mod query;
pub mod record;
pub mod repository;
pub mod session;
pub mod sidebar;
pub mod user;
pub mod value;
pub mod view;
