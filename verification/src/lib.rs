//! Core of a logon launcher: the list of startup items, the application
//! settings, and the decisions taken when items are launched and when the
//! application registers itself with the operating system.
//!
//! The library reads no file, starts no process and touches no registry. It
//! says what is to be done and how an answer of the operating system is to be
//! read; the program around it does the work.

pub mod batch;
pub mod desktop;
pub mod error;
pub mod item;
pub mod launch;
pub mod privilege;
pub mod quoting;
pub mod registrar;
pub mod reminders;
pub mod settings;
pub mod store;
pub mod text;
pub mod tokens;
