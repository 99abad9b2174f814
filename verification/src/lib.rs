pub mod account;
pub mod csrf;
pub mod error;
pub mod lifecycle;
pub mod password;
pub mod session;
pub mod store;
pub mod utils;

pub use error::Error;
