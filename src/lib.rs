pub mod epoll;
pub mod error;
pub mod fdset;

pub use error::{ErrorKind, OsError};
pub use fdset::{select_outcome, timeval_parts, FdSet};
