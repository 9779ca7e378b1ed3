//! Helpers for particular kinds of accounts and for test environments.

pub mod anchor;
pub mod banks_client;
pub mod genesis;
pub mod program_loader;
pub mod sysvars;
pub mod token;
