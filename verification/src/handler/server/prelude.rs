//! The names that callers of the privileged verbs need.

pub use super::authoritative_users::{authoritative_users, AuthorityTable, ExecutionAlias};
pub use super::relay::{Delivery, Execution, Progress, Sending};
pub use crate::error::{Error, Fault, ServerFailure};
