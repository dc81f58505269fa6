//! Lifecycle rules and operator signalling of a multi-role network node.
//!
//! The crate decides; its caller acts. Every function here maps plain values
//! to plain values: which record to hand to the logger, which subsystem to
//! start or stop next, whether the periodic bulletin is due. Async tasks,
//! timers and the logger itself live with the caller.

pub mod advisory;
pub mod bulletin;
pub mod laws;
pub mod lifecycle;
pub mod role;
pub mod scheduler;

pub use advisory::{log_clean_error, recovery_message, LogRecord, Severity};
pub use bulletin::notification_message;
pub use lifecycle::{Action, LifecycleState, NodeError, NodeRole};
pub use role::{Collaborators, HandleStatus, RoleKind, Subsystem};
pub use scheduler::{
    start_notification_message_loop, NotificationLoop, NOTIFICATION_INTERVAL_SECS,
};
