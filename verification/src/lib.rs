//! Verified business rules of a beauty-salon back office: appointment
//! scheduling and status flow, package usage and refunds, attendance-based
//! payroll day counts, login sessions and account administration.
//!
//! Storage (SQLite), the desktop shell and every money amount (kept as
//! floating point by the application) live outside this crate; the crate
//! receives plain values and returns decisions.

pub mod text;
pub mod time;
pub mod appointment;
pub mod session;
pub mod account;
pub mod package;
pub mod payroll;
pub mod service;
pub mod maintenance;
