//! The demonstrations, one module each.

pub mod iborrow;
pub mod ienum;
pub mod ilifetime;
pub mod istring;
