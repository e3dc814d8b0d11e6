//! Row types and the string-backed enums stored alongside them.

use vstd::prelude::*;

verus! {

/// Rows created before authentication exists all belong to this user.
pub const DEFAULT_USER_ID: i64 = 1;

/// A stored text that names no variant of the enum it is read as.
#[derive(Debug, Clone, PartialEq, Eq)]
pub struct UnknownEnumValue {
    pub kind: &'static str,
    pub value: String,
}

impl UnknownEnumValue {
    /// The message the user sees: `unknown {kind} value "{value}" in the
    /// database`.
    pub fn message(&self) -> (r: String)
        ensures
            r@ == "unknown "@ + self.kind@ + " value \""@ + self.value@ + "\" in the database"@,
    {
        let a = crate::text::concat("unknown ", self.kind);
        let b = crate::text::concat(a.as_str(), " value \"");
        let c = crate::text::concat(b.as_str(), self.value.as_str());
        crate::text::concat(c.as_str(), "\" in the database")
    }
}

/// Delivery outcome of a single removal request.
#[derive(Debug, Clone, Copy, PartialEq, Eq, Structural, Hash, PartialOrd, Ord)]
pub enum Status {
    Sent,
    Failed,
    Pending,
}

/// The text `Status` is stored as.
pub open spec fn status_name(t: Status) -> Seq<char> {
    match t {
        Status::Sent => "sent"@,
        Status::Failed => "failed"@,
        Status::Pending => "pending"@,
    }
}

/// The `Status` a stored text names, if any.
pub open spec fn status_named(s: Seq<char>) -> Option<Status> {
    if s == "sent"@ {
        Some(Status::Sent)
    } else if s == "failed"@ {
        Some(Status::Failed)
    } else if s == "pending"@ {
        Some(Status::Pending)
    } else {
        None
    }
}

impl Status {
    pub fn as_str(self) -> (r: &'static str)
        ensures
            r@ == status_name(self),
    {
        match self {
            Status::Sent => "sent",
            Status::Failed => "failed",
            Status::Pending => "pending",
        }
    }

    /// Read a stored text; anything unrecognised is an error.
    pub fn parse(s: &str) -> (r: Result<Status, UnknownEnumValue>)
        ensures
            match r {
                Ok(t) => status_named(s@) == Some(t),
                Err(e) => status_named(s@) is None && e.kind@ == "Status"@ && e.value@ == s@,
            },
    {
        if crate::text::same_text(s, "sent") {
            return Ok(Status::Sent);
        }
        if crate::text::same_text(s, "failed") {
            return Ok(Status::Failed);
        }
        if crate::text::same_text(s, "pending") {
            return Ok(Status::Pending);
        }
        Err(UnknownEnumValue { kind: "Status", value: s.to_owned() })
    }

    /// Read a value back from the database, falling back to `Failed`
    /// rather than failing, so a row written by a newer version does not
    /// make an older one unable to list history.
    pub fn from_db(s: &str) -> (r: Status)
        ensures
            r == match status_named(s@) {
                Some(t) => t,
                None => Status::Failed,
            },
    {
        match Status::parse(s) {
            Ok(t) => t,
            Err(_) => Status::Failed,
        }
    }

    /// Every variant, in declaration order.
    pub fn all() -> (v: Vec<Status>)
        ensures
            v@ == seq![Status::Sent, Status::Failed, Status::Pending],
    {
        vec![Status::Sent, Status::Failed, Status::Pending]
    }
}

impl std::str::FromStr for Status {
    type Err = UnknownEnumValue;

    fn from_str(s: &str) -> (r: Result<Status, UnknownEnumValue>)
        ensures
            match r {
                Ok(t) => status_named(s@) == Some(t),
                Err(e) => status_named(s@) is None && e.kind@ == "Status"@ && e.value@ == s@,
            },
    {
        Status::parse(s)
    }
}

/// Each `Status` reads back from the text it is stored as.
pub proof fn status_round_trip(t: Status)
    ensures
        status_named(status_name(t)) == Some(t),
{
    reveal_strlit("sent");
    reveal_strlit("failed");
    reveal_strlit("pending");
    assert("sent"@.len() == 4 && "failed"@.len() == 6);
    assert("sent"@ != "failed"@);
    assert("sent"@.len() == 4 && "pending"@.len() == 7);
    assert("sent"@ != "pending"@);
    assert("failed"@.len() == 6 && "pending"@.len() == 7);
    assert("failed"@ != "pending"@);
}

/// Where a broker sits in the removal pipeline.
#[derive(Debug, Clone, Copy, PartialEq, Eq, Structural, Hash, PartialOrd, Ord)]
pub enum PipelineStatus {
    EmailSent,
    AwaitingResponse,
    FormRequired,
    FormFilled,
    AwaitingCaptcha,
    CaptchaSolved,
    AwaitingConfirmation,
    Confirmed,
    Failed,
    Rejected,
}

/// The text `PipelineStatus` is stored as.
pub open spec fn pipeline_status_name(t: PipelineStatus) -> Seq<char> {
    match t {
        PipelineStatus::EmailSent => "email_sent"@,
        PipelineStatus::AwaitingResponse => "awaiting_response"@,
        PipelineStatus::FormRequired => "form_required"@,
        PipelineStatus::FormFilled => "form_filled"@,
        PipelineStatus::AwaitingCaptcha => "awaiting_captcha"@,
        PipelineStatus::CaptchaSolved => "captcha_solved"@,
        PipelineStatus::AwaitingConfirmation => "awaiting_confirmation"@,
        PipelineStatus::Confirmed => "confirmed"@,
        PipelineStatus::Failed => "failed"@,
        PipelineStatus::Rejected => "rejected"@,
    }
}

/// The `PipelineStatus` a stored text names, if any.
pub open spec fn pipeline_status_named(s: Seq<char>) -> Option<PipelineStatus> {
    if s == "email_sent"@ {
        Some(PipelineStatus::EmailSent)
    } else if s == "awaiting_response"@ {
        Some(PipelineStatus::AwaitingResponse)
    } else if s == "form_required"@ {
        Some(PipelineStatus::FormRequired)
    } else if s == "form_filled"@ {
        Some(PipelineStatus::FormFilled)
    } else if s == "awaiting_captcha"@ {
        Some(PipelineStatus::AwaitingCaptcha)
    } else if s == "captcha_solved"@ {
        Some(PipelineStatus::CaptchaSolved)
    } else if s == "awaiting_confirmation"@ {
        Some(PipelineStatus::AwaitingConfirmation)
    } else if s == "confirmed"@ {
        Some(PipelineStatus::Confirmed)
    } else if s == "failed"@ {
        Some(PipelineStatus::Failed)
    } else if s == "rejected"@ {
        Some(PipelineStatus::Rejected)
    } else {
        None
    }
}

impl PipelineStatus {
    pub fn as_str(self) -> (r: &'static str)
        ensures
            r@ == pipeline_status_name(self),
    {
        match self {
            PipelineStatus::EmailSent => "email_sent",
            PipelineStatus::AwaitingResponse => "awaiting_response",
            PipelineStatus::FormRequired => "form_required",
            PipelineStatus::FormFilled => "form_filled",
            PipelineStatus::AwaitingCaptcha => "awaiting_captcha",
            PipelineStatus::CaptchaSolved => "captcha_solved",
            PipelineStatus::AwaitingConfirmation => "awaiting_confirmation",
            PipelineStatus::Confirmed => "confirmed",
            PipelineStatus::Failed => "failed",
            PipelineStatus::Rejected => "rejected",
        }
    }

    /// Read a stored text; anything unrecognised is an error.
    pub fn parse(s: &str) -> (r: Result<PipelineStatus, UnknownEnumValue>)
        ensures
            match r {
                Ok(t) => pipeline_status_named(s@) == Some(t),
                Err(e) => pipeline_status_named(s@) is None && e.kind@ == "PipelineStatus"@ && e.value@ == s@,
            },
    {
        if crate::text::same_text(s, "email_sent") {
            return Ok(PipelineStatus::EmailSent);
        }
        if crate::text::same_text(s, "awaiting_response") {
            return Ok(PipelineStatus::AwaitingResponse);
        }
        if crate::text::same_text(s, "form_required") {
            return Ok(PipelineStatus::FormRequired);
        }
        if crate::text::same_text(s, "form_filled") {
            return Ok(PipelineStatus::FormFilled);
        }
        if crate::text::same_text(s, "awaiting_captcha") {
            return Ok(PipelineStatus::AwaitingCaptcha);
        }
        if crate::text::same_text(s, "captcha_solved") {
            return Ok(PipelineStatus::CaptchaSolved);
        }
        if crate::text::same_text(s, "awaiting_confirmation") {
            return Ok(PipelineStatus::AwaitingConfirmation);
        }
        if crate::text::same_text(s, "confirmed") {
            return Ok(PipelineStatus::Confirmed);
        }
        if crate::text::same_text(s, "failed") {
            return Ok(PipelineStatus::Failed);
        }
        if crate::text::same_text(s, "rejected") {
            return Ok(PipelineStatus::Rejected);
        }
        Err(UnknownEnumValue { kind: "PipelineStatus", value: s.to_owned() })
    }

    /// Read a value back from the database, falling back to `EmailSent`
    /// rather than failing, so a row written by a newer version does not
    /// make an older one unable to list history.
    pub fn from_db(s: &str) -> (r: PipelineStatus)
        ensures
            r == match pipeline_status_named(s@) {
                Some(t) => t,
                None => PipelineStatus::EmailSent,
            },
    {
        match PipelineStatus::parse(s) {
            Ok(t) => t,
            Err(_) => PipelineStatus::EmailSent,
        }
    }

    /// Every variant, in declaration order.
    pub fn all() -> (v: Vec<PipelineStatus>)
        ensures
            v@ == seq![PipelineStatus::EmailSent, PipelineStatus::AwaitingResponse, PipelineStatus::FormRequired, PipelineStatus::FormFilled, PipelineStatus::AwaitingCaptcha, PipelineStatus::CaptchaSolved, PipelineStatus::AwaitingConfirmation, PipelineStatus::Confirmed, PipelineStatus::Failed, PipelineStatus::Rejected],
    {
        vec![PipelineStatus::EmailSent, PipelineStatus::AwaitingResponse, PipelineStatus::FormRequired, PipelineStatus::FormFilled, PipelineStatus::AwaitingCaptcha, PipelineStatus::CaptchaSolved, PipelineStatus::AwaitingConfirmation, PipelineStatus::Confirmed, PipelineStatus::Failed, PipelineStatus::Rejected]
    }
}

impl std::str::FromStr for PipelineStatus {
    type Err = UnknownEnumValue;

    fn from_str(s: &str) -> (r: Result<PipelineStatus, UnknownEnumValue>)
        ensures
            match r {
                Ok(t) => pipeline_status_named(s@) == Some(t),
                Err(e) => pipeline_status_named(s@) is None && e.kind@ == "PipelineStatus"@ && e.value@ == s@,
            },
    {
        PipelineStatus::parse(s)
    }
}

/// Each `PipelineStatus` reads back from the text it is stored as.
pub proof fn pipeline_status_round_trip(t: PipelineStatus)
    ensures
        pipeline_status_named(pipeline_status_name(t)) == Some(t),
{
    reveal_strlit("email_sent");
    reveal_strlit("awaiting_response");
    reveal_strlit("form_required");
    reveal_strlit("form_filled");
    reveal_strlit("awaiting_captcha");
    reveal_strlit("captcha_solved");
    reveal_strlit("awaiting_confirmation");
    reveal_strlit("confirmed");
    reveal_strlit("failed");
    reveal_strlit("rejected");
    assert("email_sent"@.len() == 10 && "awaiting_response"@.len() == 17);
    assert("email_sent"@ != "awaiting_response"@);
    assert("email_sent"@.len() == 10 && "form_required"@.len() == 13);
    assert("email_sent"@ != "form_required"@);
    assert("awaiting_response"@.len() == 17 && "form_required"@.len() == 13);
    assert("awaiting_response"@ != "form_required"@);
    assert("email_sent"@.len() == 10 && "form_filled"@.len() == 11);
    assert("email_sent"@ != "form_filled"@);
    assert("awaiting_response"@.len() == 17 && "form_filled"@.len() == 11);
    assert("awaiting_response"@ != "form_filled"@);
    assert("form_required"@.len() == 13 && "form_filled"@.len() == 11);
    assert("form_required"@ != "form_filled"@);
    assert("email_sent"@.len() == 10 && "awaiting_captcha"@.len() == 16);
    assert("email_sent"@ != "awaiting_captcha"@);
    assert("awaiting_response"@.len() == 17 && "awaiting_captcha"@.len() == 16);
    assert("awaiting_response"@ != "awaiting_captcha"@);
    assert("form_required"@.len() == 13 && "awaiting_captcha"@.len() == 16);
    assert("form_required"@ != "awaiting_captcha"@);
    assert("form_filled"@.len() == 11 && "awaiting_captcha"@.len() == 16);
    assert("form_filled"@ != "awaiting_captcha"@);
    assert("email_sent"@.len() == 10 && "captcha_solved"@.len() == 14);
    assert("email_sent"@ != "captcha_solved"@);
    assert("awaiting_response"@.len() == 17 && "captcha_solved"@.len() == 14);
    assert("awaiting_response"@ != "captcha_solved"@);
    assert("form_required"@.len() == 13 && "captcha_solved"@.len() == 14);
    assert("form_required"@ != "captcha_solved"@);
    assert("form_filled"@.len() == 11 && "captcha_solved"@.len() == 14);
    assert("form_filled"@ != "captcha_solved"@);
    assert("awaiting_captcha"@.len() == 16 && "captcha_solved"@.len() == 14);
    assert("awaiting_captcha"@ != "captcha_solved"@);
    assert("email_sent"@.len() == 10 && "awaiting_confirmation"@.len() == 21);
    assert("email_sent"@ != "awaiting_confirmation"@);
    assert("awaiting_response"@.len() == 17 && "awaiting_confirmation"@.len() == 21);
    assert("awaiting_response"@ != "awaiting_confirmation"@);
    assert("form_required"@.len() == 13 && "awaiting_confirmation"@.len() == 21);
    assert("form_required"@ != "awaiting_confirmation"@);
    assert("form_filled"@.len() == 11 && "awaiting_confirmation"@.len() == 21);
    assert("form_filled"@ != "awaiting_confirmation"@);
    assert("awaiting_captcha"@.len() == 16 && "awaiting_confirmation"@.len() == 21);
    assert("awaiting_captcha"@ != "awaiting_confirmation"@);
    assert("captcha_solved"@.len() == 14 && "awaiting_confirmation"@.len() == 21);
    assert("captcha_solved"@ != "awaiting_confirmation"@);
    assert("email_sent"@.len() == 10 && "confirmed"@.len() == 9);
    assert("email_sent"@ != "confirmed"@);
    assert("awaiting_response"@.len() == 17 && "confirmed"@.len() == 9);
    assert("awaiting_response"@ != "confirmed"@);
    assert("form_required"@.len() == 13 && "confirmed"@.len() == 9);
    assert("form_required"@ != "confirmed"@);
    assert("form_filled"@.len() == 11 && "confirmed"@.len() == 9);
    assert("form_filled"@ != "confirmed"@);
    assert("awaiting_captcha"@.len() == 16 && "confirmed"@.len() == 9);
    assert("awaiting_captcha"@ != "confirmed"@);
    assert("captcha_solved"@.len() == 14 && "confirmed"@.len() == 9);
    assert("captcha_solved"@ != "confirmed"@);
    assert("awaiting_confirmation"@.len() == 21 && "confirmed"@.len() == 9);
    assert("awaiting_confirmation"@ != "confirmed"@);
    assert("email_sent"@.len() == 10 && "failed"@.len() == 6);
    assert("email_sent"@ != "failed"@);
    assert("awaiting_response"@.len() == 17 && "failed"@.len() == 6);
    assert("awaiting_response"@ != "failed"@);
    assert("form_required"@.len() == 13 && "failed"@.len() == 6);
    assert("form_required"@ != "failed"@);
    assert("form_filled"@.len() == 11 && "failed"@.len() == 6);
    assert("form_filled"@ != "failed"@);
    assert("awaiting_captcha"@.len() == 16 && "failed"@.len() == 6);
    assert("awaiting_captcha"@ != "failed"@);
    assert("captcha_solved"@.len() == 14 && "failed"@.len() == 6);
    assert("captcha_solved"@ != "failed"@);
    assert("awaiting_confirmation"@.len() == 21 && "failed"@.len() == 6);
    assert("awaiting_confirmation"@ != "failed"@);
    assert("confirmed"@.len() == 9 && "failed"@.len() == 6);
    assert("confirmed"@ != "failed"@);
    assert("email_sent"@.len() == 10 && "rejected"@.len() == 8);
    assert("email_sent"@ != "rejected"@);
    assert("awaiting_response"@.len() == 17 && "rejected"@.len() == 8);
    assert("awaiting_response"@ != "rejected"@);
    assert("form_required"@.len() == 13 && "rejected"@.len() == 8);
    assert("form_required"@ != "rejected"@);
    assert("form_filled"@.len() == 11 && "rejected"@.len() == 8);
    assert("form_filled"@ != "rejected"@);
    assert("awaiting_captcha"@.len() == 16 && "rejected"@.len() == 8);
    assert("awaiting_captcha"@ != "rejected"@);
    assert("captcha_solved"@.len() == 14 && "rejected"@.len() == 8);
    assert("captcha_solved"@ != "rejected"@);
    assert("awaiting_confirmation"@.len() == 21 && "rejected"@.len() == 8);
    assert("awaiting_confirmation"@ != "rejected"@);
    assert("confirmed"@.len() == 9 && "rejected"@.len() == 8);
    assert("confirmed"@ != "rejected"@);
    assert("failed"@.len() == 6 && "rejected"@.len() == 8);
    assert("failed"@ != "rejected"@);
}

/// What kind of human intervention a pending task needs.
#[derive(Debug, Clone, Copy, PartialEq, Eq, Structural, Hash, PartialOrd, Ord)]
pub enum TaskType {
    Captcha,
    ManualForm,
    Review,
    Confirm,
    DraftReply,
}

/// The text `TaskType` is stored as.
pub open spec fn task_type_name(t: TaskType) -> Seq<char> {
    match t {
        TaskType::Captcha => "captcha"@,
        TaskType::ManualForm => "manual_form"@,
        TaskType::Review => "review"@,
        TaskType::Confirm => "confirm"@,
        TaskType::DraftReply => "draft_reply"@,
    }
}

/// The `TaskType` a stored text names, if any.
pub open spec fn task_type_named(s: Seq<char>) -> Option<TaskType> {
    if s == "captcha"@ {
        Some(TaskType::Captcha)
    } else if s == "manual_form"@ {
        Some(TaskType::ManualForm)
    } else if s == "review"@ {
        Some(TaskType::Review)
    } else if s == "confirm"@ {
        Some(TaskType::Confirm)
    } else if s == "draft_reply"@ {
        Some(TaskType::DraftReply)
    } else {
        None
    }
}

impl TaskType {
    pub fn as_str(self) -> (r: &'static str)
        ensures
            r@ == task_type_name(self),
    {
        match self {
            TaskType::Captcha => "captcha",
            TaskType::ManualForm => "manual_form",
            TaskType::Review => "review",
            TaskType::Confirm => "confirm",
            TaskType::DraftReply => "draft_reply",
        }
    }

    /// Read a stored text; anything unrecognised is an error.
    pub fn parse(s: &str) -> (r: Result<TaskType, UnknownEnumValue>)
        ensures
            match r {
                Ok(t) => task_type_named(s@) == Some(t),
                Err(e) => task_type_named(s@) is None && e.kind@ == "TaskType"@ && e.value@ == s@,
            },
    {
        if crate::text::same_text(s, "captcha") {
            return Ok(TaskType::Captcha);
        }
        if crate::text::same_text(s, "manual_form") {
            return Ok(TaskType::ManualForm);
        }
        if crate::text::same_text(s, "review") {
            return Ok(TaskType::Review);
        }
        if crate::text::same_text(s, "confirm") {
            return Ok(TaskType::Confirm);
        }
        if crate::text::same_text(s, "draft_reply") {
            return Ok(TaskType::DraftReply);
        }
        Err(UnknownEnumValue { kind: "TaskType", value: s.to_owned() })
    }

    /// Read a value back from the database, falling back to `Review`
    /// rather than failing, so a row written by a newer version does not
    /// make an older one unable to list history.
    pub fn from_db(s: &str) -> (r: TaskType)
        ensures
            r == match task_type_named(s@) {
                Some(t) => t,
                None => TaskType::Review,
            },
    {
        match TaskType::parse(s) {
            Ok(t) => t,
            Err(_) => TaskType::Review,
        }
    }

    /// Every variant, in declaration order.
    pub fn all() -> (v: Vec<TaskType>)
        ensures
            v@ == seq![TaskType::Captcha, TaskType::ManualForm, TaskType::Review, TaskType::Confirm, TaskType::DraftReply],
    {
        vec![TaskType::Captcha, TaskType::ManualForm, TaskType::Review, TaskType::Confirm, TaskType::DraftReply]
    }
}

impl std::str::FromStr for TaskType {
    type Err = UnknownEnumValue;

    fn from_str(s: &str) -> (r: Result<TaskType, UnknownEnumValue>)
        ensures
            match r {
                Ok(t) => task_type_named(s@) == Some(t),
                Err(e) => task_type_named(s@) is None && e.kind@ == "TaskType"@ && e.value@ == s@,
            },
    {
        TaskType::parse(s)
    }
}

/// Each `TaskType` reads back from the text it is stored as.
pub proof fn task_type_round_trip(t: TaskType)
    ensures
        task_type_named(task_type_name(t)) == Some(t),
{
    reveal_strlit("captcha");
    reveal_strlit("manual_form");
    reveal_strlit("review");
    reveal_strlit("confirm");
    reveal_strlit("draft_reply");
    assert("captcha"@.len() == 7 && "manual_form"@.len() == 11);
    assert("captcha"@ != "manual_form"@);
    assert("captcha"@.len() == 7 && "review"@.len() == 6);
    assert("captcha"@ != "review"@);
    assert("manual_form"@.len() == 11 && "review"@.len() == 6);
    assert("manual_form"@ != "review"@);
    assert("captcha"@[1] != "confirm"@[1]);
    assert("captcha"@ != "confirm"@);
    assert("manual_form"@.len() == 11 && "confirm"@.len() == 7);
    assert("manual_form"@ != "confirm"@);
    assert("review"@.len() == 6 && "confirm"@.len() == 7);
    assert("review"@ != "confirm"@);
    assert("captcha"@.len() == 7 && "draft_reply"@.len() == 11);
    assert("captcha"@ != "draft_reply"@);
    assert("manual_form"@[0] != "draft_reply"@[0]);
    assert("manual_form"@ != "draft_reply"@);
    assert("review"@.len() == 6 && "draft_reply"@.len() == 11);
    assert("review"@ != "draft_reply"@);
    assert("confirm"@.len() == 7 && "draft_reply"@.len() == 11);
    assert("confirm"@ != "draft_reply"@);
}

/// Lifecycle of a pending task.
#[derive(Debug, Clone, Copy, PartialEq, Eq, Structural, Hash, PartialOrd, Ord)]
pub enum TaskStatus {
    Pending,
    Completed,
    Skipped,
}

/// The text `TaskStatus` is stored as.
pub open spec fn task_status_name(t: TaskStatus) -> Seq<char> {
    match t {
        TaskStatus::Pending => "pending"@,
        TaskStatus::Completed => "completed"@,
        TaskStatus::Skipped => "skipped"@,
    }
}

/// The `TaskStatus` a stored text names, if any.
pub open spec fn task_status_named(s: Seq<char>) -> Option<TaskStatus> {
    if s == "pending"@ {
        Some(TaskStatus::Pending)
    } else if s == "completed"@ {
        Some(TaskStatus::Completed)
    } else if s == "skipped"@ {
        Some(TaskStatus::Skipped)
    } else {
        None
    }
}

impl TaskStatus {
    pub fn as_str(self) -> (r: &'static str)
        ensures
            r@ == task_status_name(self),
    {
        match self {
            TaskStatus::Pending => "pending",
            TaskStatus::Completed => "completed",
            TaskStatus::Skipped => "skipped",
        }
    }

    /// Read a stored text; anything unrecognised is an error.
    pub fn parse(s: &str) -> (r: Result<TaskStatus, UnknownEnumValue>)
        ensures
            match r {
                Ok(t) => task_status_named(s@) == Some(t),
                Err(e) => task_status_named(s@) is None && e.kind@ == "TaskStatus"@ && e.value@ == s@,
            },
    {
        if crate::text::same_text(s, "pending") {
            return Ok(TaskStatus::Pending);
        }
        if crate::text::same_text(s, "completed") {
            return Ok(TaskStatus::Completed);
        }
        if crate::text::same_text(s, "skipped") {
            return Ok(TaskStatus::Skipped);
        }
        Err(UnknownEnumValue { kind: "TaskStatus", value: s.to_owned() })
    }

    /// Read a value back from the database, falling back to `Pending`
    /// rather than failing, so a row written by a newer version does not
    /// make an older one unable to list history.
    pub fn from_db(s: &str) -> (r: TaskStatus)
        ensures
            r == match task_status_named(s@) {
                Some(t) => t,
                None => TaskStatus::Pending,
            },
    {
        match TaskStatus::parse(s) {
            Ok(t) => t,
            Err(_) => TaskStatus::Pending,
        }
    }

    /// Every variant, in declaration order.
    pub fn all() -> (v: Vec<TaskStatus>)
        ensures
            v@ == seq![TaskStatus::Pending, TaskStatus::Completed, TaskStatus::Skipped],
    {
        vec![TaskStatus::Pending, TaskStatus::Completed, TaskStatus::Skipped]
    }
}

impl std::str::FromStr for TaskStatus {
    type Err = UnknownEnumValue;

    fn from_str(s: &str) -> (r: Result<TaskStatus, UnknownEnumValue>)
        ensures
            match r {
                Ok(t) => task_status_named(s@) == Some(t),
                Err(e) => task_status_named(s@) is None && e.kind@ == "TaskStatus"@ && e.value@ == s@,
            },
    {
        TaskStatus::parse(s)
    }
}

/// Each `TaskStatus` reads back from the text it is stored as.
pub proof fn task_status_round_trip(t: TaskStatus)
    ensures
        task_status_named(task_status_name(t)) == Some(t),
{
    reveal_strlit("pending");
    reveal_strlit("completed");
    reveal_strlit("skipped");
    assert("pending"@.len() == 7 && "completed"@.len() == 9);
    assert("pending"@ != "completed"@);
    assert("pending"@[0] != "skipped"@[0]);
    assert("pending"@ != "skipped"@);
    assert("completed"@.len() == 9 && "skipped"@.len() == 7);
    assert("completed"@ != "skipped"@);
}

/// How the classifier read a broker's reply, as stored.
#[derive(Debug, Clone, Copy, PartialEq, Eq, Structural, Hash, PartialOrd, Ord)]
pub enum ResponseType {
    FormRequired,
    ConfirmationRequired,
    Success,
    Rejected,
    Bounced,
    Pending,
    Unknown,
}

/// The text `ResponseType` is stored as.
pub open spec fn response_type_name(t: ResponseType) -> Seq<char> {
    match t {
        ResponseType::FormRequired => "form_required"@,
        ResponseType::ConfirmationRequired => "confirmation_required"@,
        ResponseType::Success => "success"@,
        ResponseType::Rejected => "rejected"@,
        ResponseType::Bounced => "bounced"@,
        ResponseType::Pending => "pending"@,
        ResponseType::Unknown => "unknown"@,
    }
}

/// The `ResponseType` a stored text names, if any.
pub open spec fn response_type_named(s: Seq<char>) -> Option<ResponseType> {
    if s == "form_required"@ {
        Some(ResponseType::FormRequired)
    } else if s == "confirmation_required"@ {
        Some(ResponseType::ConfirmationRequired)
    } else if s == "success"@ {
        Some(ResponseType::Success)
    } else if s == "rejected"@ {
        Some(ResponseType::Rejected)
    } else if s == "bounced"@ {
        Some(ResponseType::Bounced)
    } else if s == "pending"@ {
        Some(ResponseType::Pending)
    } else if s == "unknown"@ {
        Some(ResponseType::Unknown)
    } else {
        None
    }
}

impl ResponseType {
    pub fn as_str(self) -> (r: &'static str)
        ensures
            r@ == response_type_name(self),
    {
        match self {
            ResponseType::FormRequired => "form_required",
            ResponseType::ConfirmationRequired => "confirmation_required",
            ResponseType::Success => "success",
            ResponseType::Rejected => "rejected",
            ResponseType::Bounced => "bounced",
            ResponseType::Pending => "pending",
            ResponseType::Unknown => "unknown",
        }
    }

    /// Read a stored text; anything unrecognised is an error.
    pub fn parse(s: &str) -> (r: Result<ResponseType, UnknownEnumValue>)
        ensures
            match r {
                Ok(t) => response_type_named(s@) == Some(t),
                Err(e) => response_type_named(s@) is None && e.kind@ == "ResponseType"@ && e.value@ == s@,
            },
    {
        if crate::text::same_text(s, "form_required") {
            return Ok(ResponseType::FormRequired);
        }
        if crate::text::same_text(s, "confirmation_required") {
            return Ok(ResponseType::ConfirmationRequired);
        }
        if crate::text::same_text(s, "success") {
            return Ok(ResponseType::Success);
        }
        if crate::text::same_text(s, "rejected") {
            return Ok(ResponseType::Rejected);
        }
        if crate::text::same_text(s, "bounced") {
            return Ok(ResponseType::Bounced);
        }
        if crate::text::same_text(s, "pending") {
            return Ok(ResponseType::Pending);
        }
        if crate::text::same_text(s, "unknown") {
            return Ok(ResponseType::Unknown);
        }
        Err(UnknownEnumValue { kind: "ResponseType", value: s.to_owned() })
    }

    /// Read a value back from the database, falling back to `Unknown`
    /// rather than failing, so a row written by a newer version does not
    /// make an older one unable to list history.
    pub fn from_db(s: &str) -> (r: ResponseType)
        ensures
            r == match response_type_named(s@) {
                Some(t) => t,
                None => ResponseType::Unknown,
            },
    {
        match ResponseType::parse(s) {
            Ok(t) => t,
            Err(_) => ResponseType::Unknown,
        }
    }

    /// Every variant, in declaration order.
    pub fn all() -> (v: Vec<ResponseType>)
        ensures
            v@ == seq![ResponseType::FormRequired, ResponseType::ConfirmationRequired, ResponseType::Success, ResponseType::Rejected, ResponseType::Bounced, ResponseType::Pending, ResponseType::Unknown],
    {
        vec![ResponseType::FormRequired, ResponseType::ConfirmationRequired, ResponseType::Success, ResponseType::Rejected, ResponseType::Bounced, ResponseType::Pending, ResponseType::Unknown]
    }
}

impl std::str::FromStr for ResponseType {
    type Err = UnknownEnumValue;

    fn from_str(s: &str) -> (r: Result<ResponseType, UnknownEnumValue>)
        ensures
            match r {
                Ok(t) => response_type_named(s@) == Some(t),
                Err(e) => response_type_named(s@) is None && e.kind@ == "ResponseType"@ && e.value@ == s@,
            },
    {
        ResponseType::parse(s)
    }
}

/// Each `ResponseType` reads back from the text it is stored as.
pub proof fn response_type_round_trip(t: ResponseType)
    ensures
        response_type_named(response_type_name(t)) == Some(t),
{
    reveal_strlit("form_required");
    reveal_strlit("confirmation_required");
    reveal_strlit("success");
    reveal_strlit("rejected");
    reveal_strlit("bounced");
    reveal_strlit("pending");
    reveal_strlit("unknown");
    assert("form_required"@.len() == 13 && "confirmation_required"@.len() == 21);
    assert("form_required"@ != "confirmation_required"@);
    assert("form_required"@.len() == 13 && "success"@.len() == 7);
    assert("form_required"@ != "success"@);
    assert("confirmation_required"@.len() == 21 && "success"@.len() == 7);
    assert("confirmation_required"@ != "success"@);
    assert("form_required"@.len() == 13 && "rejected"@.len() == 8);
    assert("form_required"@ != "rejected"@);
    assert("confirmation_required"@.len() == 21 && "rejected"@.len() == 8);
    assert("confirmation_required"@ != "rejected"@);
    assert("success"@.len() == 7 && "rejected"@.len() == 8);
    assert("success"@ != "rejected"@);
    assert("form_required"@.len() == 13 && "bounced"@.len() == 7);
    assert("form_required"@ != "bounced"@);
    assert("confirmation_required"@.len() == 21 && "bounced"@.len() == 7);
    assert("confirmation_required"@ != "bounced"@);
    assert("success"@[0] != "bounced"@[0]);
    assert("success"@ != "bounced"@);
    assert("rejected"@.len() == 8 && "bounced"@.len() == 7);
    assert("rejected"@ != "bounced"@);
    assert("form_required"@.len() == 13 && "pending"@.len() == 7);
    assert("form_required"@ != "pending"@);
    assert("confirmation_required"@.len() == 21 && "pending"@.len() == 7);
    assert("confirmation_required"@ != "pending"@);
    assert("success"@[0] != "pending"@[0]);
    assert("success"@ != "pending"@);
    assert("rejected"@.len() == 8 && "pending"@.len() == 7);
    assert("rejected"@ != "pending"@);
    assert("bounced"@[0] != "pending"@[0]);
    assert("bounced"@ != "pending"@);
    assert("form_required"@.len() == 13 && "unknown"@.len() == 7);
    assert("form_required"@ != "unknown"@);
    assert("confirmation_required"@.len() == 21 && "unknown"@.len() == 7);
    assert("confirmation_required"@ != "unknown"@);
    assert("success"@[0] != "unknown"@[0]);
    assert("success"@ != "unknown"@);
    assert("rejected"@.len() == 8 && "unknown"@.len() == 7);
    assert("rejected"@ != "unknown"@);
    assert("bounced"@[0] != "unknown"@[0]);
    assert("bounced"@ != "unknown"@);
    assert("pending"@[0] != "unknown"@[0]);
    assert("pending"@ != "unknown"@);
}

/// Where an opt-out form stands, derived from tasks and pipeline state.
#[derive(Debug, Clone, Copy, PartialEq, Eq, Structural, Hash, PartialOrd, Ord)]
pub enum FormStatus {
    Pending,
    Filled,
    Captcha,
    Failed,
    Skipped,
}

/// The text `FormStatus` is stored as.
pub open spec fn form_status_name(t: FormStatus) -> Seq<char> {
    match t {
        FormStatus::Pending => "pending"@,
        FormStatus::Filled => "filled"@,
        FormStatus::Captcha => "captcha"@,
        FormStatus::Failed => "failed"@,
        FormStatus::Skipped => "skipped"@,
    }
}

/// The `FormStatus` a stored text names, if any.
pub open spec fn form_status_named(s: Seq<char>) -> Option<FormStatus> {
    if s == "pending"@ {
        Some(FormStatus::Pending)
    } else if s == "filled"@ {
        Some(FormStatus::Filled)
    } else if s == "captcha"@ {
        Some(FormStatus::Captcha)
    } else if s == "failed"@ {
        Some(FormStatus::Failed)
    } else if s == "skipped"@ {
        Some(FormStatus::Skipped)
    } else {
        None
    }
}

impl FormStatus {
    pub fn as_str(self) -> (r: &'static str)
        ensures
            r@ == form_status_name(self),
    {
        match self {
            FormStatus::Pending => "pending",
            FormStatus::Filled => "filled",
            FormStatus::Captcha => "captcha",
            FormStatus::Failed => "failed",
            FormStatus::Skipped => "skipped",
        }
    }

    /// Read a stored text; anything unrecognised is an error.
    pub fn parse(s: &str) -> (r: Result<FormStatus, UnknownEnumValue>)
        ensures
            match r {
                Ok(t) => form_status_named(s@) == Some(t),
                Err(e) => form_status_named(s@) is None && e.kind@ == "FormStatus"@ && e.value@ == s@,
            },
    {
        if crate::text::same_text(s, "pending") {
            return Ok(FormStatus::Pending);
        }
        if crate::text::same_text(s, "filled") {
            return Ok(FormStatus::Filled);
        }
        if crate::text::same_text(s, "captcha") {
            return Ok(FormStatus::Captcha);
        }
        if crate::text::same_text(s, "failed") {
            return Ok(FormStatus::Failed);
        }
        if crate::text::same_text(s, "skipped") {
            return Ok(FormStatus::Skipped);
        }
        Err(UnknownEnumValue { kind: "FormStatus", value: s.to_owned() })
    }

    /// Read a value back from the database, falling back to `Pending`
    /// rather than failing, so a row written by a newer version does not
    /// make an older one unable to list history.
    pub fn from_db(s: &str) -> (r: FormStatus)
        ensures
            r == match form_status_named(s@) {
                Some(t) => t,
                None => FormStatus::Pending,
            },
    {
        match FormStatus::parse(s) {
            Ok(t) => t,
            Err(_) => FormStatus::Pending,
        }
    }

    /// Every variant, in declaration order.
    pub fn all() -> (v: Vec<FormStatus>)
        ensures
            v@ == seq![FormStatus::Pending, FormStatus::Filled, FormStatus::Captcha, FormStatus::Failed, FormStatus::Skipped],
    {
        vec![FormStatus::Pending, FormStatus::Filled, FormStatus::Captcha, FormStatus::Failed, FormStatus::Skipped]
    }
}

impl std::str::FromStr for FormStatus {
    type Err = UnknownEnumValue;

    fn from_str(s: &str) -> (r: Result<FormStatus, UnknownEnumValue>)
        ensures
            match r {
                Ok(t) => form_status_named(s@) == Some(t),
                Err(e) => form_status_named(s@) is None && e.kind@ == "FormStatus"@ && e.value@ == s@,
            },
    {
        FormStatus::parse(s)
    }
}

/// Each `FormStatus` reads back from the text it is stored as.
pub proof fn form_status_round_trip(t: FormStatus)
    ensures
        form_status_named(form_status_name(t)) == Some(t),
{
    reveal_strlit("pending");
    reveal_strlit("filled");
    reveal_strlit("captcha");
    reveal_strlit("failed");
    reveal_strlit("skipped");
    assert("pending"@.len() == 7 && "filled"@.len() == 6);
    assert("pending"@ != "filled"@);
    assert("pending"@[0] != "captcha"@[0]);
    assert("pending"@ != "captcha"@);
    assert("filled"@.len() == 6 && "captcha"@.len() == 7);
    assert("filled"@ != "captcha"@);
    assert("pending"@.len() == 7 && "failed"@.len() == 6);
    assert("pending"@ != "failed"@);
    assert("filled"@[1] != "failed"@[1]);
    assert("filled"@ != "failed"@);
    assert("captcha"@.len() == 7 && "failed"@.len() == 6);
    assert("captcha"@ != "failed"@);
    assert("pending"@[0] != "skipped"@[0]);
    assert("pending"@ != "skipped"@);
    assert("filled"@.len() == 6 && "skipped"@.len() == 7);
    assert("filled"@ != "skipped"@);
    assert("captcha"@[0] != "skipped"@[0]);
    assert("captcha"@ != "skipped"@);
    assert("failed"@.len() == 6 && "skipped"@.len() == 7);
    assert("failed"@ != "skipped"@);
}

/// Which reply a broker's email deserves.
#[derive(Debug, Clone, Copy, PartialEq, Eq, Structural, Hash, PartialOrd, Ord)]
pub enum ReplyType {
    MissingInfo,
    Confirm,
    IdVerification,
}

/// The text `ReplyType` is stored as.
pub open spec fn reply_type_name(t: ReplyType) -> Seq<char> {
    match t {
        ReplyType::MissingInfo => "missing_info"@,
        ReplyType::Confirm => "confirm"@,
        ReplyType::IdVerification => "id_verification"@,
    }
}

/// The `ReplyType` a stored text names, if any.
pub open spec fn reply_type_named(s: Seq<char>) -> Option<ReplyType> {
    if s == "missing_info"@ {
        Some(ReplyType::MissingInfo)
    } else if s == "confirm"@ {
        Some(ReplyType::Confirm)
    } else if s == "id_verification"@ {
        Some(ReplyType::IdVerification)
    } else {
        None
    }
}

impl ReplyType {
    pub fn as_str(self) -> (r: &'static str)
        ensures
            r@ == reply_type_name(self),
    {
        match self {
            ReplyType::MissingInfo => "missing_info",
            ReplyType::Confirm => "confirm",
            ReplyType::IdVerification => "id_verification",
        }
    }

    /// Read a stored text; anything unrecognised is an error.
    pub fn parse(s: &str) -> (r: Result<ReplyType, UnknownEnumValue>)
        ensures
            match r {
                Ok(t) => reply_type_named(s@) == Some(t),
                Err(e) => reply_type_named(s@) is None && e.kind@ == "ReplyType"@ && e.value@ == s@,
            },
    {
        if crate::text::same_text(s, "missing_info") {
            return Ok(ReplyType::MissingInfo);
        }
        if crate::text::same_text(s, "confirm") {
            return Ok(ReplyType::Confirm);
        }
        if crate::text::same_text(s, "id_verification") {
            return Ok(ReplyType::IdVerification);
        }
        Err(UnknownEnumValue { kind: "ReplyType", value: s.to_owned() })
    }

    /// Read a value back from the database, falling back to `MissingInfo`
    /// rather than failing, so a row written by a newer version does not
    /// make an older one unable to list history.
    pub fn from_db(s: &str) -> (r: ReplyType)
        ensures
            r == match reply_type_named(s@) {
                Some(t) => t,
                None => ReplyType::MissingInfo,
            },
    {
        match ReplyType::parse(s) {
            Ok(t) => t,
            Err(_) => ReplyType::MissingInfo,
        }
    }

    /// Every variant, in declaration order.
    pub fn all() -> (v: Vec<ReplyType>)
        ensures
            v@ == seq![ReplyType::MissingInfo, ReplyType::Confirm, ReplyType::IdVerification],
    {
        vec![ReplyType::MissingInfo, ReplyType::Confirm, ReplyType::IdVerification]
    }
}

impl std::str::FromStr for ReplyType {
    type Err = UnknownEnumValue;

    fn from_str(s: &str) -> (r: Result<ReplyType, UnknownEnumValue>)
        ensures
            match r {
                Ok(t) => reply_type_named(s@) == Some(t),
                Err(e) => reply_type_named(s@) is None && e.kind@ == "ReplyType"@ && e.value@ == s@,
            },
    {
        ReplyType::parse(s)
    }
}

/// Each `ReplyType` reads back from the text it is stored as.
pub proof fn reply_type_round_trip(t: ReplyType)
    ensures
        reply_type_named(reply_type_name(t)) == Some(t),
{
    reveal_strlit("missing_info");
    reveal_strlit("confirm");
    reveal_strlit("id_verification");
    assert("missing_info"@.len() == 12 && "confirm"@.len() == 7);
    assert("missing_info"@ != "confirm"@);
    assert("missing_info"@.len() == 12 && "id_verification"@.len() == 15);
    assert("missing_info"@ != "id_verification"@);
    assert("confirm"@.len() == 7 && "id_verification"@.len() == 15);
    assert("confirm"@ != "id_verification"@);
}

/// Where a drafted reply stands.
#[derive(Debug, Clone, Copy, PartialEq, Eq, Structural, Hash, PartialOrd, Ord)]
pub enum DraftStatus {
    Draft,
    Sent,
    Discarded,
}

/// The text `DraftStatus` is stored as.
pub open spec fn draft_status_name(t: DraftStatus) -> Seq<char> {
    match t {
        DraftStatus::Draft => "draft"@,
        DraftStatus::Sent => "sent"@,
        DraftStatus::Discarded => "discarded"@,
    }
}

/// The `DraftStatus` a stored text names, if any.
pub open spec fn draft_status_named(s: Seq<char>) -> Option<DraftStatus> {
    if s == "draft"@ {
        Some(DraftStatus::Draft)
    } else if s == "sent"@ {
        Some(DraftStatus::Sent)
    } else if s == "discarded"@ {
        Some(DraftStatus::Discarded)
    } else {
        None
    }
}

impl DraftStatus {
    pub fn as_str(self) -> (r: &'static str)
        ensures
            r@ == draft_status_name(self),
    {
        match self {
            DraftStatus::Draft => "draft",
            DraftStatus::Sent => "sent",
            DraftStatus::Discarded => "discarded",
        }
    }

    /// Read a stored text; anything unrecognised is an error.
    pub fn parse(s: &str) -> (r: Result<DraftStatus, UnknownEnumValue>)
        ensures
            match r {
                Ok(t) => draft_status_named(s@) == Some(t),
                Err(e) => draft_status_named(s@) is None && e.kind@ == "DraftStatus"@ && e.value@ == s@,
            },
    {
        if crate::text::same_text(s, "draft") {
            return Ok(DraftStatus::Draft);
        }
        if crate::text::same_text(s, "sent") {
            return Ok(DraftStatus::Sent);
        }
        if crate::text::same_text(s, "discarded") {
            return Ok(DraftStatus::Discarded);
        }
        Err(UnknownEnumValue { kind: "DraftStatus", value: s.to_owned() })
    }

    /// Read a value back from the database, falling back to `Discarded`
    /// rather than failing, so a row written by a newer version does not
    /// make an older one unable to list history.
    pub fn from_db(s: &str) -> (r: DraftStatus)
        ensures
            r == match draft_status_named(s@) {
                Some(t) => t,
                None => DraftStatus::Discarded,
            },
    {
        match DraftStatus::parse(s) {
            Ok(t) => t,
            Err(_) => DraftStatus::Discarded,
        }
    }

    /// Every variant, in declaration order.
    pub fn all() -> (v: Vec<DraftStatus>)
        ensures
            v@ == seq![DraftStatus::Draft, DraftStatus::Sent, DraftStatus::Discarded],
    {
        vec![DraftStatus::Draft, DraftStatus::Sent, DraftStatus::Discarded]
    }
}

impl std::str::FromStr for DraftStatus {
    type Err = UnknownEnumValue;

    fn from_str(s: &str) -> (r: Result<DraftStatus, UnknownEnumValue>)
        ensures
            match r {
                Ok(t) => draft_status_named(s@) == Some(t),
                Err(e) => draft_status_named(s@) is None && e.kind@ == "DraftStatus"@ && e.value@ == s@,
            },
    {
        DraftStatus::parse(s)
    }
}

/// Each `DraftStatus` reads back from the text it is stored as.
pub proof fn draft_status_round_trip(t: DraftStatus)
    ensures
        draft_status_named(draft_status_name(t)) == Some(t),
{
    reveal_strlit("draft");
    reveal_strlit("sent");
    reveal_strlit("discarded");
    assert("draft"@.len() == 5 && "sent"@.len() == 4);
    assert("draft"@ != "sent"@);
    assert("draft"@.len() == 5 && "discarded"@.len() == 9);
    assert("draft"@ != "discarded"@);
    assert("sent"@.len() == 4 && "discarded"@.len() == 9);
    assert("sent"@ != "discarded"@);
}

/// Map a classification onto the type stored in history.
impl From<crate::inbox::classifier::ResponseType> for ResponseType {
    fn from(value: crate::inbox::classifier::ResponseType) -> (r: ResponseType) {
        stored_response_type(value)
    }
}

impl vstd::std_specs::convert::FromSpecImpl<crate::inbox::classifier::ResponseType> for ResponseType {
    open spec fn obeys_from_spec() -> bool {
        true
    }

    open spec fn from_spec(v: crate::inbox::classifier::ResponseType) -> ResponseType {
        stored_kind(v)
    }
}

pub open spec fn stored_kind(v: crate::inbox::classifier::ResponseType) -> ResponseType {
    match v {
        crate::inbox::classifier::ResponseType::Success => ResponseType::Success,
        crate::inbox::classifier::ResponseType::FormRequired => ResponseType::FormRequired,
        crate::inbox::classifier::ResponseType::ConfirmationRequired => ResponseType::ConfirmationRequired,
        crate::inbox::classifier::ResponseType::Rejected => ResponseType::Rejected,
        crate::inbox::classifier::ResponseType::Pending => ResponseType::Pending,
        crate::inbox::classifier::ResponseType::Bounced => ResponseType::Bounced,
        crate::inbox::classifier::ResponseType::Unknown => ResponseType::Unknown,
    }
}

/// The stored type for a classification.
pub fn stored_response_type(v: crate::inbox::classifier::ResponseType) -> (r: ResponseType)
    ensures
        r == stored_kind(v),
{
    match v {
        crate::inbox::classifier::ResponseType::Success => ResponseType::Success,
        crate::inbox::classifier::ResponseType::FormRequired => ResponseType::FormRequired,
        crate::inbox::classifier::ResponseType::ConfirmationRequired => ResponseType::ConfirmationRequired,
        crate::inbox::classifier::ResponseType::Rejected => ResponseType::Rejected,
        crate::inbox::classifier::ResponseType::Pending => ResponseType::Pending,
        crate::inbox::classifier::ResponseType::Bounced => ResponseType::Bounced,
        crate::inbox::classifier::ResponseType::Unknown => ResponseType::Unknown,
    }
}

/// The stored type of a classification carries the same name, since one
/// is written and the other read.
pub proof fn stored_kind_keeps_its_name(v: crate::inbox::classifier::ResponseType)
    ensures
        response_type_name(stored_kind(v)) == crate::inbox::classifier::response_name(v),
{
}

/// Aggregate counts for the dashboard.
#[derive(Debug, Clone, Copy, Default, PartialEq, Eq)]
pub struct Stats {
    pub total: i64,
    pub sent: i64,
    pub failed: i64,
}

/// Counts of pending tasks by lifecycle state.
#[derive(Debug, Clone, Copy, Default, PartialEq, Eq)]
pub struct TaskStats {
    pub pending: i64,
    pub completed: i64,
    pub skipped: i64,
}

/// Counts of detected forms by state.
#[derive(Debug, Clone, Copy, Default, PartialEq, Eq)]
pub struct FormStats {
    pub pending: i64,
    pub filled: i64,
    pub captcha: i64,
    pub failed: i64,
    pub skipped: i64,
}

/// Filter for listing broker responses.
#[derive(Debug, Clone, Copy, Default)]
pub struct ResponseFilter {
    pub response_type: Option<ResponseType>,
    pub needs_review: bool,
    pub limit: Option<i64>,
}

/// Filter for listing pending tasks.
#[derive(Debug, Clone, Copy, Default)]
pub struct TaskFilter {
    pub task_type: Option<TaskType>,
    pub status: Option<TaskStatus>,
}

/// A task to create, before it has an id.
#[derive(Debug, Clone, PartialEq, Eq)]
pub struct NewPendingTask {
    pub user_id: i64,
    pub broker_id: String,
    pub broker_name: String,
    pub task_type: TaskType,
    pub form_url: String,
    pub screenshot_path: String,
    pub browser_state: String,
    pub notes: String,
}

impl Default for NewPendingTask {
    /// A review task for the default user, with every text empty.
    fn default() -> (r: NewPendingTask)
        ensures
            r.user_id == DEFAULT_USER_ID,
            r.task_type == TaskType::Review,
            r.broker_id@.len() == 0,
            r.broker_name@.len() == 0,
            r.form_url@.len() == 0,
            r.screenshot_path@.len() == 0,
            r.browser_state@.len() == 0,
            r.notes@.len() == 0,
    {
        NewPendingTask {
            user_id: DEFAULT_USER_ID,
            broker_id: String::new(),
            broker_name: String::new(),
            task_type: TaskType::Review,
            form_url: String::new(),
            screenshot_path: String::new(),
            browser_state: String::new(),
            notes: String::new(),
        }
    }
}

/// A form's state from its task and its broker's pipeline stage. A task,
/// when one exists, is more specific than the pipeline stage and so wins.
pub open spec fn form_state(task_id: i64, task_status: Seq<char>, pipeline: PipelineStatus) -> FormStatus {
    if task_status == "completed"@ {
        FormStatus::Filled
    } else if task_status == "skipped"@ {
        FormStatus::Skipped
    } else if task_status == "pending"@ && task_id > 0 {
        FormStatus::Captcha
    } else {
        match pipeline {
            PipelineStatus::FormFilled | PipelineStatus::Confirmed => FormStatus::Filled,
            PipelineStatus::Failed => FormStatus::Failed,
            PipelineStatus::Rejected => FormStatus::Skipped,
            _ => FormStatus::Pending,
        }
    }
}

/// Which task states settle a form by themselves.
pub open spec fn task_settles(task_id: i64, task_status: Seq<char>) -> bool {
    task_status == "completed"@ || task_status == "skipped"@ || (task_status == "pending"@
        && task_id > 0)
}

/// A form's state follows its task when the task settles it: a completed
/// task means filled, a skipped one skipped, and an open one (a CAPTCHA
/// waiting for a person) captcha. Without such a task it follows the
/// broker's stage: a broker whose form was filled, or whose removal was
/// confirmed, has its form filled; a failed broker a failed form; a broker
/// that refused a skipped form; and any other stage a form still pending.
pub proof fn law_a_forms_state_follows_its_task_then_its_stage(
    task_id: i64,
    task_status: Seq<char>,
    stage: PipelineStatus,
)
    ensures
        task_status == "completed"@ ==> form_state(task_id, task_status, stage)
            == FormStatus::Filled,
        task_status == "skipped"@ ==> form_state(task_id, task_status, stage)
            == FormStatus::Skipped,
        task_status == "pending"@ && task_id > 0 ==> form_state(task_id, task_status, stage)
            == FormStatus::Captcha,
        !task_settles(task_id, task_status) ==> {
            &&& (stage == PipelineStatus::FormFilled || stage == PipelineStatus::Confirmed)
                <==> form_state(task_id, task_status, stage) == FormStatus::Filled
            &&& stage == PipelineStatus::Failed <==> form_state(task_id, task_status, stage)
                == FormStatus::Failed
            &&& stage == PipelineStatus::Rejected <==> form_state(task_id, task_status, stage)
                == FormStatus::Skipped
            &&& form_state(task_id, task_status, stage) != FormStatus::Captcha
            &&& !(stage == PipelineStatus::FormFilled || stage == PipelineStatus::Confirmed
                || stage == PipelineStatus::Failed || stage == PipelineStatus::Rejected)
                ==> form_state(task_id, task_status, stage) == FormStatus::Pending
        },
{
    reveal_strlit("completed");
    reveal_strlit("skipped");
    reveal_strlit("pending");
    assert("completed"@ != "skipped"@) by {
        assert("completed"@.len() != "skipped"@.len());
    }
    assert("completed"@ != "pending"@) by {
        assert("completed"@.len() != "pending"@.len());
    }
    assert("skipped"@ != "pending"@) by {
        assert("skipped"@[0] != "pending"@[0]);
    }
}

/// Resolve a form's state from its task and its broker's pipeline stage.
pub fn form_status(task_id: i64, task_status: &str, pipeline_status: PipelineStatus) -> (r: FormStatus)
    ensures
        r == form_state(task_id, task_status@, pipeline_status),
{
    if crate::text::same_text(task_status, "completed") {
        return FormStatus::Filled;
    }
    if crate::text::same_text(task_status, "skipped") {
        return FormStatus::Skipped;
    }
    if crate::text::same_text(task_status, "pending") && task_id > 0 {
        return FormStatus::Captcha;
    }
    match pipeline_status {
        PipelineStatus::FormFilled | PipelineStatus::Confirmed => FormStatus::Filled,
        PipelineStatus::Failed => FormStatus::Failed,
        PipelineStatus::Rejected => FormStatus::Skipped,
        _ => FormStatus::Pending,
    }
}

/// How many of `forms` are in state `s`.
pub open spec fn forms_in(forms: Seq<FormStatus>, s: FormStatus) -> nat
    decreases forms.len(),
{
    if forms.len() == 0 {
        0
    } else {
        forms_in(forms.drop_last(), s) + if forms.last() == s {
            1nat
        } else {
            0nat
        }
    }
}

proof fn lemma_forms_in_bound(forms: Seq<FormStatus>, s: FormStatus)
    ensures
        forms_in(forms, s) <= forms.len(),
    decreases forms.len(),
{
    if forms.len() > 0 {
        lemma_forms_in_bound(forms.drop_last(), s);
    }
}

/// Count forms by state.
pub fn form_stats_of(forms: &[FormStatus]) -> (r: FormStats)
    requires
        forms@.len() <= i64::MAX,
    ensures
        r.pending == forms_in(forms@, FormStatus::Pending),
        r.filled == forms_in(forms@, FormStatus::Filled),
        r.captcha == forms_in(forms@, FormStatus::Captcha),
        r.failed == forms_in(forms@, FormStatus::Failed),
        r.skipped == forms_in(forms@, FormStatus::Skipped),
{
    let mut stats = FormStats { pending: 0, filled: 0, captcha: 0, failed: 0, skipped: 0 };
    let mut i: usize = 0;
    while i < forms.len()
        invariant
            i <= forms@.len(),
            forms@.len() <= i64::MAX,
            stats.pending == forms_in(forms@.take(i as int), FormStatus::Pending),
            stats.filled == forms_in(forms@.take(i as int), FormStatus::Filled),
            stats.captcha == forms_in(forms@.take(i as int), FormStatus::Captcha),
            stats.failed == forms_in(forms@.take(i as int), FormStatus::Failed),
            stats.skipped == forms_in(forms@.take(i as int), FormStatus::Skipped),
        decreases forms@.len() - i,
    {
        proof {
            assert(forms@.take(i + 1).drop_last() == forms@.take(i as int));
            lemma_forms_in_bound(forms@.take(i as int), FormStatus::Pending);
            lemma_forms_in_bound(forms@.take(i as int), FormStatus::Filled);
            lemma_forms_in_bound(forms@.take(i as int), FormStatus::Captcha);
            lemma_forms_in_bound(forms@.take(i as int), FormStatus::Failed);
            lemma_forms_in_bound(forms@.take(i as int), FormStatus::Skipped);
        }
        match forms[i] {
            FormStatus::Pending => stats.pending = stats.pending + 1,
            FormStatus::Filled => stats.filled = stats.filled + 1,
            FormStatus::Captcha => stats.captcha = stats.captcha + 1,
            FormStatus::Failed => stats.failed = stats.failed + 1,
            FormStatus::Skipped => stats.skipped = stats.skipped + 1,
        }
        i = i + 1;
    }
    assert(forms@.take(forms@.len() as int) == forms@);
    stats
}

/// Every form is counted in exactly one state.
pub proof fn form_stats_partition(forms: Seq<FormStatus>)
    ensures
        forms_in(forms, FormStatus::Pending) + forms_in(forms, FormStatus::Filled) + forms_in(
            forms,
            FormStatus::Captcha,
        ) + forms_in(forms, FormStatus::Failed) + forms_in(forms, FormStatus::Skipped)
            == forms.len(),
    decreases forms.len(),
{
    if forms.len() > 0 {
        form_stats_partition(forms.drop_last());
    }
}

/// One row of the form listing as the database returns it, newest first:
/// the join can give several rows for one broker.
#[derive(Debug, Clone, PartialEq, Eq)]
pub struct FormRow {
    pub broker_id: String,
    pub broker_name: String,
    pub form_url: String,
    pub email_subject: String,
    /// Seconds since the Unix epoch.
    pub detected_at: Option<i64>,
    /// `0` when no task goes with the form.
    pub task_id: i64,
    /// Empty when no task goes with the form.
    pub task_status: String,
    /// The broker's pipeline stage as stored.
    pub pipeline_status: String,
}

/// A form detected in a broker reply, with its current state.
#[derive(Debug, Clone, PartialEq, Eq)]
pub struct FormWithStatus {
    pub broker_id: String,
    pub broker_name: String,
    pub form_url: String,
    pub email_subject: String,
    pub detected_at: Option<i64>,
    pub status: FormStatus,
    pub task_id: i64,
    pub pipeline_status: PipelineStatus,
}

/// Whether a row for the same broker comes before position `i`.
pub open spec fn seen_before(rows: Seq<FormRow>, i: int) -> bool {
    exists|k: int| 0 <= k < i && #[trigger] rows[k].broker_id@ == rows[i].broker_id@
}

/// The positions of the rows kept: the first, so the newest, per broker.
pub open spec fn kept_rows(rows: Seq<FormRow>) -> Seq<int>
    decreases rows.len(),
{
    if rows.len() == 0 {
        Seq::empty()
    } else {
        let before = kept_rows(rows.drop_last());
        if seen_before(rows, rows.len() - 1) {
            before
        } else {
            before.push(rows.len() - 1)
        }
    }
}

/// The form a row describes.
pub open spec fn form_of(row: FormRow, f: FormWithStatus) -> bool {
    let pipeline = match pipeline_status_named(row.pipeline_status@) {
        Some(t) => t,
        None => PipelineStatus::EmailSent,
    };
    &&& f.broker_id@ == row.broker_id@
    &&& f.broker_name@ == row.broker_name@
    &&& f.form_url@ == row.form_url@
    &&& f.email_subject@ == row.email_subject@
    &&& f.detected_at == row.detected_at
    &&& f.task_id == row.task_id
    &&& f.pipeline_status == pipeline
    &&& f.status == form_state(row.task_id, row.task_status@, pipeline)
}

/// Every form detected in a broker reply, with its current state: one per
/// broker, the newest.
pub fn forms_with_status(rows: &[FormRow]) -> (r: Vec<FormWithStatus>)
    ensures
        r@.len() == kept_rows(rows@).len(),
        forall|j: int|
            0 <= j < r@.len() ==> form_of(rows@[kept_rows(rows@)[j]], #[trigger] r@[j]),
{
    let mut forms: Vec<FormWithStatus> = Vec::new();
    let ghost mut kept: Seq<int> = Seq::empty();
    let mut i: usize = 0;
    while i < rows.len()
        invariant
            i <= rows@.len(),
            kept == kept_rows(rows@.take(i as int)),
            forms@.len() == kept.len(),
            forall|j: int| 0 <= j < kept.len() ==> 0 <= #[trigger] kept[j] < i,
            forall|j: int|
                0 <= j < forms@.len() ==> form_of(rows@[kept[j]], #[trigger] forms@[j]),
        decreases rows@.len() - i,
    {
        let ghost prefix = rows@.take(i + 1);
        proof {
            assert(prefix.drop_last() == rows@.take(i as int));
            assert(prefix.last() == rows@[i as int]);
        }
        let row = &rows[i];
        let mut seen = false;
        let mut k: usize = 0;
        while k < i
            invariant
                k <= i < rows@.len(),
                prefix == rows@.take(i + 1),
                seen == (exists|m: int| 0 <= m < k && #[trigger] rows@[m].broker_id@
                    == rows@[i as int].broker_id@),
            decreases i - k,
        {
            if crate::text::same_text(rows[k].broker_id.as_str(), rows[i].broker_id.as_str()) {
                seen = true;
            }
            k = k + 1;
        }
        proof {
            assert(seen == seen_before(prefix, i as int)) by {
                if seen {
                    let m = choose|m: int| 0 <= m < i && #[trigger] rows@[m].broker_id@
                        == rows@[i as int].broker_id@;
                    assert(prefix[m] == rows@[m]);
                }
                if seen_before(prefix, i as int) {
                    let m = choose|m: int| 0 <= m < i && #[trigger] prefix[m].broker_id@
                        == prefix[i as int].broker_id@;
                    assert(prefix[m] == rows@[m]);
                }
            }
        }
        if !seen {
            let pipeline = PipelineStatus::from_db(row.pipeline_status.as_str());
            let status = form_status(row.task_id, row.task_status.as_str(), pipeline);
            forms.push(
                FormWithStatus {
                    broker_id: row.broker_id.clone(),
                    broker_name: row.broker_name.clone(),
                    form_url: row.form_url.clone(),
                    email_subject: row.email_subject.clone(),
                    detected_at: row.detected_at,
                    status,
                    task_id: row.task_id,
                    pipeline_status: pipeline,
                },
            );
            proof {
                kept = kept.push(i as int);
            }
        }
        i = i + 1;
    }
    assert(rows@.take(rows@.len() as int) == rows@);
    forms
}

/// The form listing names each broker once, keeping its newest form.
pub proof fn law_one_form_per_broker(rows: Seq<FormRow>)
    ensures
        forall|j: int, k: int|
            0 <= j < k < kept_rows(rows).len() ==> rows[kept_rows(rows)[j]].broker_id@
                != rows[kept_rows(rows)[k]].broker_id@,
        forall|j: int| 0 <= j < kept_rows(rows).len() ==> 0 <= #[trigger] kept_rows(rows)[j] < rows.len()
            && !seen_before(rows, kept_rows(rows)[j]),
    decreases rows.len(),
{
    if rows.len() > 0 {
        let before = rows.drop_last();
        law_one_form_per_broker(before);
        let kb = kept_rows(before);
        assert forall|j: int| 0 <= j < kb.len() implies rows[kb[j]] == before[kb[j]]
            && (seen_before(rows, kb[j]) == seen_before(before, kb[j])) by {
            if seen_before(rows, kb[j]) {
                let m = choose|m: int| 0 <= m < kb[j] && #[trigger] rows[m].broker_id@
                    == rows[kb[j]].broker_id@;
                assert(before[m] == rows[m]);
            }
            if seen_before(before, kb[j]) {
                let m = choose|m: int| 0 <= m < kb[j] && #[trigger] before[m].broker_id@
                    == before[kb[j]].broker_id@;
                assert(before[m] == rows[m]);
            }
        }
        let last = rows.len() - 1;
        if !seen_before(rows, last) {
            assert forall|j: int| 0 <= j < kb.len() implies rows[kb[j]].broker_id@
                != rows[last].broker_id@ by {
                if rows[kb[j]].broker_id@ == rows[last].broker_id@ {
                    assert(seen_before(rows, last));
                }
            }
        }
    }
}

/// The fields needed to record a new request; the rest are assigned on
/// insert.
#[derive(Debug, Clone, PartialEq, Eq)]
pub struct NewRecord {
    pub user_id: i64,
    /// Which sending account carried it, when one is known: this is what
    /// makes the daily count per account rather than per person.
    pub sender_account_id: Option<i64>,
    pub broker_id: String,
    pub broker_name: String,
    pub email: String,
    pub template: String,
    pub status: Status,
    pub message_id: String,
    pub error: String,
    /// When it went out, as seconds since the Unix epoch.
    pub sent_at: Option<i64>,
}

impl NewRecord {
    /// A successful send, for the default user, at `sent_at`.
    pub fn sent(
        broker_id: &str,
        broker_name: &str,
        email: &str,
        template: &str,
        message_id: &str,
        sent_at: i64,
    ) -> (r: NewRecord)
        ensures
            r.user_id == DEFAULT_USER_ID,
            r.sender_account_id is None,
            r.broker_id@ == broker_id@,
            r.broker_name@ == broker_name@,
            r.email@ == email@,
            r.template@ == template@,
            r.status == Status::Sent,
            r.message_id@ == message_id@,
            r.error@.len() == 0,
            r.sent_at == Some(sent_at),
    {
        NewRecord {
            user_id: DEFAULT_USER_ID,
            sender_account_id: None,
            broker_id: broker_id.to_string(),
            broker_name: broker_name.to_string(),
            email: email.to_string(),
            template: template.to_string(),
            status: Status::Sent,
            message_id: message_id.to_string(),
            error: String::new(),
            sent_at: Some(sent_at),
        }
    }

    /// A send that failed, for the default user, at `sent_at`. `error` is
    /// shown to the user, so it must already be free of credentials.
    pub fn failed(
        broker_id: &str,
        broker_name: &str,
        email: &str,
        template: &str,
        error: &str,
        sent_at: i64,
    ) -> (r: NewRecord)
        ensures
            r.user_id == DEFAULT_USER_ID,
            r.sender_account_id is None,
            r.broker_id@ == broker_id@,
            r.broker_name@ == broker_name@,
            r.email@ == email@,
            r.template@ == template@,
            r.status == Status::Failed,
            r.message_id@.len() == 0,
            r.error@ == error@,
            r.sent_at == Some(sent_at),
    {
        NewRecord {
            user_id: DEFAULT_USER_ID,
            sender_account_id: None,
            broker_id: broker_id.to_string(),
            broker_name: broker_name.to_string(),
            email: email.to_string(),
            template: template.to_string(),
            status: Status::Failed,
            message_id: String::new(),
            error: error.to_string(),
            sent_at: Some(sent_at),
        }
    }

    /// The same record, for `user_id`.
    pub fn for_user(self, user_id: i64) -> (r: NewRecord)
        ensures
            r == (NewRecord { user_id, ..self }),
    {
        NewRecord { user_id, ..self }
    }

    /// The same record, attributed to a particular account.
    pub fn through_account(self, account_id: Option<i64>) -> (r: NewRecord)
        ensures
            r == (NewRecord { sender_account_id: account_id, ..self }),
    {
        NewRecord { sender_account_id: account_id, ..self }
    }
}

} // verus!
