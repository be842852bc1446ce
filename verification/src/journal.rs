pub mod book;
pub mod effectors;
pub mod entry;
pub mod error;
pub use book::{Book, EntryDescription};
pub use entry::{Entry, Mood};
pub use error::Error;
