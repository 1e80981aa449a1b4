//! Process groups as one unit: every descendant of a launched program is
//! waited on, signalled and terminated together with it.
//!
//! A group is identified at spawn, reaped as a whole, and terminated as a
//! whole. [`GroupChild`] is the handle of a group on the session-based
//! backend; [`child::windows`] and [`winres`] hold the decisions of the
//! kernel-object backend; [`drain`] collects a group's output and
//! [`adapter`] lets a cooperative task wait for a group.

pub mod adapter;
pub mod builder;
pub mod child;
pub mod drain;
pub mod error;
pub mod reaper;
pub mod status;
pub mod sys;
pub mod unix_ext;
pub mod winres;

pub use crate::builder::CommandGroupBuilder;
pub use crate::child::GroupChild;
pub use crate::error::GroupError;
pub use crate::status::{ExitStatus, Output};
pub use crate::unix_ext::UnixChildExt;
