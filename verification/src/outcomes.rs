//! What comes of each operation, said of its arguments and its result alone.

pub mod input;
pub mod local_session;
pub mod pictures;
pub mod registry;
pub mod sizes;
pub mod streams;
