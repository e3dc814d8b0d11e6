//! What history records: the stored enums, row types and the rules that
//! read them. The database itself is driven from outside the library.

pub mod accounts;
pub mod drafts;
pub mod legacy;
pub mod types;
pub mod users;

pub use types::{
    DraftStatus, FormStats, FormStatus, NewPendingTask, PipelineStatus, ReplyType, ResponseFilter,
    ResponseType, Stats, Status, TaskFilter, TaskStats, TaskStatus, TaskType, UnknownEnumValue,
    DEFAULT_USER_ID,
};
