//! A terminal ledger for signed currency ("mana") transactions: a cursor-accurate
//! text-editing primitive, a mode/popup state machine, and a composable filter tree
//! that compiles to parameterized query fragments.
//!
//! Everything that decides or computes lives here, with contracts; terminal drawing,
//! the configuration file and the database connection are collaborators kept outside.

pub mod app;
pub mod config;
pub mod cursored;
pub mod decimal;
pub mod describe;
pub mod filter;
pub mod input;
pub mod ledger;
pub mod popups;
pub mod storage;
pub mod strutil;
