//! Core of a pharmacy locator: paged query results, sort requests, the
//! medication search over stock records, and the reservation rules.

pub mod account;
pub mod page;
pub mod reservation;
pub mod schedule;
pub mod search;
pub mod sort;
