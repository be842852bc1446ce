pub mod bulk;
pub mod error;
pub mod handlers;
pub mod task;
pub mod tasklist;
pub use error::Error;
