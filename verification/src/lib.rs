//! Rust-side support types for Postgres extensions: the `Datum` word, object
//! identifiers, error reports and the decisions taken when errors cross the
//! boundary between Rust and Postgres.
#![allow(non_camel_case_types)]
#![allow(non_snake_case)]

pub mod oids;
pub mod elog;
pub mod errcodes;
pub mod datum;
pub mod range;
pub mod fmt;
pub mod error_report;
pub mod panic_handling;
pub mod guard;
pub mod thread_check;
pub mod tupdesc;
pub mod pg_try;
