pub mod bus;
pub mod error;
pub mod ram;
pub mod utils;
