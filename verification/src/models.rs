//! Domain records: ghosts (remote agents), tasks issued to them, and the
//! request payloads the console sends out.

use vstd::prelude::*;

verus! {

/// Lifecycle status of a task issued to a ghost.
#[derive(Clone, Copy, Debug, PartialEq, Eq, Structural)]
pub enum TaskStatus {
    Pending,
    Sent,
    Running,
    Success,
    Failed,
    Unknown,
}

impl TaskStatus {
    /// The upper-case label under which this status is displayed.
    pub open spec fn label_spec(self) -> Seq<char> {
        match self {
            TaskStatus::Pending => "PENDING"@,
            TaskStatus::Sent => "SENT"@,
            TaskStatus::Running => "RUNNING"@,
            TaskStatus::Success => "SUCCESS"@,
            TaskStatus::Failed => "FAILED"@,
            TaskStatus::Unknown => "UNKNOWN"@,
        }
    }

    /// Upper-case display label of this status.
    pub fn label(&self) -> (s: String)
        ensures
            s@ == self.label_spec(),
    {
        match self {
            TaskStatus::Pending => "PENDING".to_owned(),
            TaskStatus::Sent => "SENT".to_owned(),
            TaskStatus::Running => "RUNNING".to_owned(),
            TaskStatus::Success => "SUCCESS".to_owned(),
            TaskStatus::Failed => "FAILED".to_owned(),
            TaskStatus::Unknown => "UNKNOWN".to_owned(),
        }
    }
}

/// Status named by its lower-case wire form; any unrecognized form reads as
/// Unknown.
pub open spec fn status_of_wire(s: Seq<char>) -> TaskStatus {
    if s == "pending"@ {
        TaskStatus::Pending
    } else if s == "sent"@ {
        TaskStatus::Sent
    } else if s == "running"@ {
        TaskStatus::Running
    } else if s == "success"@ {
        TaskStatus::Success
    } else if s == "failed"@ {
        TaskStatus::Failed
    } else {
        TaskStatus::Unknown
    }
}

/// Reads a task status from its lower-case wire form; anything else is
/// Unknown.
pub fn task_status_from_wire(s: &str) -> (r: TaskStatus)
    ensures
        r == status_of_wire(s@),
{
    if crate::text::str_eq(s, "pending") {
        TaskStatus::Pending
    } else if crate::text::str_eq(s, "sent") {
        TaskStatus::Sent
    } else if crate::text::str_eq(s, "running") {
        TaskStatus::Running
    } else if crate::text::str_eq(s, "success") {
        TaskStatus::Success
    } else if crate::text::str_eq(s, "failed") {
        TaskStatus::Failed
    } else {
        TaskStatus::Unknown
    }
}

/// Mathematical value of a [`GhostAgent`]: every text field as a sequence of
/// characters, the timestamp as an unbounded integer.
#[verifier::ext_equal]
pub ghost struct GhostAgentV {
    pub id: Seq<char>,
    pub hostname: Seq<char>,
    pub os: Seq<char>,
    pub last_seen: int,
}

/// A remote agent tracked by the console. Immutable once received; the
/// roster is replaced wholesale on each successful fetch.
#[derive(Clone, Debug, PartialEq, Eq)]
pub struct GhostAgent {
    pub id: String,
    pub hostname: String,
    pub os: String,
    /// Unix timestamp of the last contact.
    pub last_seen: i64,
}

impl View for GhostAgent {
    type V = GhostAgentV;

    open spec fn view(&self) -> GhostAgentV {
        GhostAgentV {
            id: self.id@,
            hostname: self.hostname@,
            os: self.os@,
            last_seen: self.last_seen as int,
        }
    }
}

impl GhostAgent {
    /// A ghost counts as active when its last contact is more recent than
    /// the timeout. Liveness is derived at display time and never stored.
    pub fn is_active(&self, current_time: i64, timeout_seconds: i64) -> (r: bool)
        requires
            i64::MIN <= current_time - self.last_seen <= i64::MAX,
        ensures
            r == (current_time - self@.last_seen < timeout_seconds),
    {
        (current_time - self.last_seen) < timeout_seconds
    }
}

/// Mathematical value of a [`Task`].
#[verifier::ext_equal]
pub ghost struct TaskV {
    pub id: Seq<char>,
    pub command: Seq<char>,
    pub args: Seq<char>,
    pub status: TaskStatus,
    pub result: Option<Seq<char>>,
}

/// A unit of work issued to a ghost. The task list of the active ghost is
/// replaced wholesale per fetch; the console never mutates a task in place.
#[derive(Clone, Debug, PartialEq, Eq)]
pub struct Task {
    pub id: String,
    pub command: String,
    pub args: String,
    pub status: TaskStatus,
    pub result: Option<String>,
}

impl View for Task {
    type V = TaskV;

    open spec fn view(&self) -> TaskV {
        TaskV {
            id: self.id@,
            command: self.command@,
            args: self.args@,
            status: self.status,
            result: match self.result {
                Some(ref s) => Some(s@),
                None => None,
            },
        }
    }
}

/// Mathematical value of a [`TaskRequest`].
#[verifier::ext_equal]
pub ghost struct TaskRequestV {
    pub command: Seq<char>,
    pub args: Seq<char>,
}

/// Body of a task-submission request: a command verb plus its arguments.
#[derive(Clone, Debug, PartialEq, Eq)]
pub struct TaskRequest {
    pub command: String,
    pub args: String,
}

impl View for TaskRequest {
    type V = TaskRequestV;

    open spec fn view(&self) -> TaskRequestV {
        TaskRequestV { command: self.command@, args: self.args@ }
    }
}

/// Element-wise view of a ghost roster.
pub open spec fn ghost_seq_view(v: Seq<GhostAgent>) -> Seq<GhostAgentV> {
    Seq::new(v.len(), |i: int| v[i]@)
}

/// Element-wise view of a task list.
pub open spec fn task_seq_view(v: Seq<Task>) -> Seq<TaskV> {
    Seq::new(v.len(), |i: int| v[i]@)
}

/// Body of a per-ghost configuration update.
#[derive(Clone, Copy, Debug, PartialEq, Eq, Structural)]
pub struct GhostConfigUpdate {
    pub sleep_interval: i64,
    pub jitter_percent: i16,
}

} // verus!
