//! Commands whose query parameters are each optional, described by the
//! `Mode` and `Operation` enums, and the replies they are answered with.

pub mod cmd;
pub mod enums;
pub mod infos;
pub mod response;
