//! The records that the dashboard and its server exchange, with their
//! mathematical views.
use vstd::prelude::*;

verus! {

/// The long-term vision and the core mission, edited and saved together.
#[derive(Debug, Clone, PartialEq, Eq)]
pub struct VisionPayload {
    pub vision: String,
    pub mission: String,
}

/// What a `VisionPayload` holds, as character sequences.
pub struct VisionView {
    pub vision: Seq<char>,
    pub mission: Seq<char>,
}

impl View for VisionPayload {
    type V = VisionView;

    open spec fn view(&self) -> VisionView {
        VisionView { vision: self.vision@, mission: self.mission@ }
    }
}

/// The four goals of the dashboard, one for each time frame.
#[derive(Debug, Clone, PartialEq, Eq)]
pub struct GoalsPayload {
    pub yearly: String,
    pub quarterly: String,
    pub monthly: String,
    pub weekly: String,
}

/// What a `GoalsPayload` holds, as character sequences.
pub struct GoalsView {
    pub yearly: Seq<char>,
    pub quarterly: Seq<char>,
    pub monthly: Seq<char>,
    pub weekly: Seq<char>,
}

impl View for GoalsPayload {
    type V = GoalsView;

    open spec fn view(&self) -> GoalsView {
        GoalsView {
            yearly: self.yearly@,
            quarterly: self.quarterly@,
            monthly: self.monthly@,
            weekly: self.weekly@,
        }
    }
}

/// A focus reminder. `id` is the row id the server gave it (absent on a
/// reminder that is still to be created); `created_at` is never filled in by
/// the server's responses.
#[derive(Debug, Clone, PartialEq, Eq)]
pub struct Reminder {
    pub id: Option<i64>,
    pub text: String,
    pub is_completed: bool,
    pub created_at: Option<String>,
}

/// What a `Reminder` holds, with its strings as character sequences.
pub struct ReminderView {
    pub id: Option<i64>,
    pub text: Seq<char>,
    pub is_completed: bool,
    pub created_at: Option<Seq<char>>,
}

pub open spec fn optional_text(s: Option<String>) -> Option<Seq<char>> {
    match s {
        Some(t) => Some(t@),
        None => None,
    }
}

impl View for Reminder {
    type V = ReminderView;

    open spec fn view(&self) -> ReminderView {
        ReminderView {
            id: self.id,
            text: self.text@,
            is_completed: self.is_completed,
            created_at: optional_text(self.created_at),
        }
    }
}

/// The views of a list of reminders, in order.
pub open spec fn reminder_views(rs: Seq<Reminder>) -> Seq<ReminderView> {
    rs.map_values(|r: Reminder| r@)
}

} // verus!
