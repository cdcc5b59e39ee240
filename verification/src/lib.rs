//! Records of a small family registry: users, families, memberships and
//! one-time SMS codes, each in three shapes (request, domain record, stored
//! row), with the rules that take one shape to the next and the decisions
//! that the create and read operations make around the store.

pub mod code;
pub mod error;
pub mod family;
pub mod identifier;
pub mod response;
pub mod sms;
pub mod timestamp;
pub mod user;
pub mod user_family;
