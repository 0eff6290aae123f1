//! Access provisioning for a private proxy: who asked for access, who was
//! granted it, and the credential entries and links that a grant produces.

pub mod commands;
pub mod config;
pub mod db;
pub mod decimal;
pub mod format;
pub mod keyboards;
pub mod laws;
pub mod link;
pub mod provision;
pub mod telemt_cfg;
pub mod text;
