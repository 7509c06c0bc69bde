//! A single-employee time-punch ledger: a record of shift, break and lunch
//! clock events, changed only through six guarded transitions, and a store
//! that creates one record per identifier.
pub mod laws;
pub mod record;
pub mod store;

pub use record::{
    apply, clock_in, clock_intermittent_in, clock_intermittent_out, clock_lunch_in,
    clock_lunch_out, clock_out, EmployeeData, ErrorCode, Transition,
};

pub use store::{AlreadyExists, EmployeeAccount, PdeascAccount, RecordStore};
