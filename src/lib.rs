pub mod timestamp;
pub mod store;
pub mod notify;
pub mod controller;
