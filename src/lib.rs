pub mod order;
pub mod schedule;
pub mod store;
pub mod validation;
