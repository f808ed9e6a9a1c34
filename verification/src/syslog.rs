//! Delivery of log records to a service that may go away and come back.

pub mod accounting;
pub mod clock;
pub mod model;
pub mod retry;
