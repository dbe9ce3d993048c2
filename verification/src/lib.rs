//! A small actor runtime: the verified core.
pub mod addr;
pub mod computation;
pub mod context;
pub mod poll;
pub mod mailbox;
pub mod ring;
pub mod suspend_points;
pub mod test_actor;
pub mod types;
pub mod waker;

pub use crate::addr::Message;
pub use crate::context::Context;
