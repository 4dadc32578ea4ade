//! The rules by which a collaboration server is brought up for a test, driven
//! through a scenario, and taken down again.
//!
//! Every decision is made here on plain values; the database, the network and
//! the editor are reached by the caller, who performs what this library asks
//! for and hands back what came of it.

pub mod check;
pub mod client;
pub mod entropy;
pub mod fleet;
pub mod judging;
pub mod names;
pub mod scenario;
pub mod server;
pub mod session;
pub mod step;
pub mod text;
pub mod view;
