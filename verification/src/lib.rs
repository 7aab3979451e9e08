//! The logic of a paste site: creating, editing and viewing pastes, groups, boards
//! and users, the rules that each request follows, how records are read from and
//! written to database rows and kept in caches, and the small languages the site
//! compiles (SSM style markup, the booklist).
pub mod booklist;
pub mod bundlesdb;
pub mod cache;
pub mod config;
pub mod db;
pub mod log_db;
pub mod markdown;
pub mod model;
pub mod number;
pub mod pages;
pub mod pastemd;
pub mod pattern;
pub mod sql;
pub mod ssm;
pub mod text;
pub mod utility;
