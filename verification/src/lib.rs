//! Azure DevOps administration logic: access levels, filters, identifiers,
//! organization parsing, credential resolution, paging and table rendering.

pub mod text;
pub mod collect;
pub mod error;
pub mod identity;
pub mod access_level;
pub mod pool_type;
pub mod project_state;
pub mod cli;
pub mod config;
pub mod credentials;
pub mod auth;
pub mod request;
pub mod users;
pub mod projects;
pub mod pools;
pub mod table;
pub mod output;
pub mod debug;
pub mod commands;
pub mod packaging;
