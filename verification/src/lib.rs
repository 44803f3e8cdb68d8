//! Processing coordinator and task-status bookkeeping for a video
//! conversion service.
//!
//! The crate decides *what* has to happen for one conversion task and *what*
//! pollers get to see while it happens. It never touches a file or starts a
//! process itself: every step that needs the outside world is handed out as
//! a [`command::Action`], and how it went comes back as a
//! [`command::ToolOutcome`].
//!
//! * [`probe`] reads the source picture's dimensions from the probing
//!   tool's output;
//! * [`format`] checks the requested delivery target against them;
//! * [`plan`] chooses the renditions and lays out the steps;
//! * [`command`] names the output files and the tools' command lines;
//! * [`coordinator`] runs the steps one after another and keeps the task's
//!   record;
//! * [`status`] and [`store`] hold the records that pollers read;
//! * [`error`] lists the ways in which a task can fail.

pub mod command;
pub mod coordinator;
pub mod error;
pub mod format;
pub mod plan;
pub mod probe;
pub mod status;
pub mod store;
pub mod text;

pub use command::{Action, Invocation, ToolOutcome};
pub use coordinator::{Coordinator, ProcessRequest, ProcessResponse};
pub use error::ProcessError;
pub use format::{DeliveryTarget, Dimensions};
pub use status::{TaskState, TaskStatus};
pub use store::StatusStore;
