//! The dashboard's state machine. The page keeps the data the server last
//! sent, the contents of its edit fields and the page being shown; each
//! user action or server reply is a method that updates the state and
//! answers with the requests to send. What the pages show is computed here
//! too.
use vstd::prelude::*;
use vstd::string::*;
use crate::model::{
    GoalsPayload, GoalsView, Reminder, ReminderView, VisionPayload, VisionView, reminder_views,
};
use crate::text::{
    is_white_space, lemma_signed_decimal_injective, lemma_trimmed_shape, push_signed_decimal,
    signed_decimal, trim, trimmed,
};

verus! {

/// The pages of the dashboard, one for each item of the bottom navigation.
#[derive(Debug, Clone, Copy, PartialEq, Eq, Structural)]
pub enum Tab {
    Home,
    Mission,
    Vision,
    Goals,
    Reminder,
}

/// The HTTP methods the dashboard uses.
#[derive(Debug, Clone, Copy, PartialEq, Eq, Structural)]
pub enum Method {
    Get,
    Put,
    Post,
    Delete,
}

/// The JSON body of a request.
#[derive(Debug, Clone, PartialEq, Eq)]
pub enum Body {
    Empty,
    Vision(VisionPayload),
    Goals(GoalsPayload),
    Reminder(Reminder),
}

/// A request to the server.
#[derive(Debug, Clone, PartialEq, Eq)]
pub struct Request {
    pub method: Method,
    pub url: String,
    pub body: Body,
}

pub enum BodyView {
    Empty,
    Vision(VisionView),
    Goals(GoalsView),
    Reminder(ReminderView),
}

pub struct RequestView {
    pub method: Method,
    pub url: Seq<char>,
    pub body: BodyView,
}

impl View for Body {
    type V = BodyView;

    open spec fn view(&self) -> BodyView {
        match self {
            Body::Empty => BodyView::Empty,
            Body::Vision(p) => BodyView::Vision(p@),
            Body::Goals(p) => BodyView::Goals(p@),
            Body::Reminder(r) => BodyView::Reminder(r@),
        }
    }
}

impl View for Request {
    type V = RequestView;

    open spec fn view(&self) -> RequestView {
        RequestView { method: self.method, url: self.url@, body: self.body@ }
    }
}

/// The edit fields of the dashboard.
#[derive(Debug, Clone, Copy, PartialEq, Eq, Structural)]
pub enum Field {
    Vision,
    Mission,
    Yearly,
    Quarterly,
    Monthly,
    Weekly,
    NewReminder,
}

/// The state of the dashboard page.
pub struct Dashboard {
    pub active_tab: Tab,
    pub vision_data: VisionPayload,
    pub goals_data: GoalsPayload,
    pub reminders: Vec<Reminder>,
    pub edit_vision: String,
    pub edit_mission: String,
    pub edit_yearly: String,
    pub edit_quarterly: String,
    pub edit_monthly: String,
    pub edit_weekly: String,
    pub new_reminder_text: String,
}

/// What a `Dashboard` holds.
pub struct DashboardView {
    pub active_tab: Tab,
    pub vision_data: VisionView,
    pub goals_data: GoalsView,
    pub reminders: Seq<ReminderView>,
    pub edit_vision: Seq<char>,
    pub edit_mission: Seq<char>,
    pub edit_yearly: Seq<char>,
    pub edit_quarterly: Seq<char>,
    pub edit_monthly: Seq<char>,
    pub edit_weekly: Seq<char>,
    pub new_reminder_text: Seq<char>,
}

impl View for Dashboard {
    type V = DashboardView;

    open spec fn view(&self) -> DashboardView {
        DashboardView {
            active_tab: self.active_tab,
            vision_data: self.vision_data@,
            goals_data: self.goals_data@,
            reminders: reminder_views(self.reminders@),
            edit_vision: self.edit_vision@,
            edit_mission: self.edit_mission@,
            edit_yearly: self.edit_yearly@,
            edit_quarterly: self.edit_quarterly@,
            edit_monthly: self.edit_monthly@,
            edit_weekly: self.edit_weekly@,
            new_reminder_text: self.new_reminder_text@,
        }
    }
}

pub open spec fn vision_url() -> Seq<char> {
    "http://127.0.0.1:3000/api/vision"@
}

pub open spec fn goals_url() -> Seq<char> {
    "http://127.0.0.1:3000/api/goals"@
}

pub open spec fn reminders_url() -> Seq<char> {
    "http://127.0.0.1:3000/api/reminders"@
}

/// The address of one reminder: the reminders address, a slash and the id.
pub open spec fn reminder_url(id: i64) -> Seq<char> {
    "http://127.0.0.1:3000/api/reminders/"@ + signed_decimal(id as int)
}

/// The dashboard as it opens: the home page, with empty data and fields.
pub open spec fn initial_view() -> DashboardView {
    DashboardView {
        active_tab: Tab::Home,
        vision_data: VisionView { vision: Seq::empty(), mission: Seq::empty() },
        goals_data: GoalsView {
            yearly: Seq::empty(),
            quarterly: Seq::empty(),
            monthly: Seq::empty(),
            weekly: Seq::empty(),
        },
        reminders: Seq::empty(),
        edit_vision: Seq::empty(),
        edit_mission: Seq::empty(),
        edit_yearly: Seq::empty(),
        edit_quarterly: Seq::empty(),
        edit_monthly: Seq::empty(),
        edit_weekly: Seq::empty(),
        new_reminder_text: Seq::empty(),
    }
}

/// The three reads that bring the whole dashboard up to date: the vision,
/// the goals and the reminders.
pub open spec fn load_views() -> Seq<RequestView> {
    seq![
        RequestView { method: Method::Get, url: vision_url(), body: BodyView::Empty },
        RequestView { method: Method::Get, url: goals_url(), body: BodyView::Empty },
        RequestView { method: Method::Get, url: reminders_url(), body: BodyView::Empty },
    ]
}

pub open spec fn with_tab(v: DashboardView, tab: Tab) -> DashboardView {
    DashboardView { active_tab: tab, ..v }
}

pub open spec fn with_input(v: DashboardView, field: Field, value: Seq<char>) -> DashboardView {
    match field {
        Field::Vision => DashboardView { edit_vision: value, ..v },
        Field::Mission => DashboardView { edit_mission: value, ..v },
        Field::Yearly => DashboardView { edit_yearly: value, ..v },
        Field::Quarterly => DashboardView { edit_quarterly: value, ..v },
        Field::Monthly => DashboardView { edit_monthly: value, ..v },
        Field::Weekly => DashboardView { edit_weekly: value, ..v },
        Field::NewReminder => DashboardView { new_reminder_text: value, ..v },
    }
}

/// The vision and mission arrived: they are shown and fill both edit fields.
pub open spec fn after_vision_fetched(v: DashboardView, data: VisionView) -> DashboardView {
    DashboardView {
        vision_data: data,
        edit_vision: data.vision,
        edit_mission: data.mission,
        ..v
    }
}

/// The goals arrived: they are shown and fill the four goal fields.
pub open spec fn after_goals_fetched(v: DashboardView, data: GoalsView) -> DashboardView {
    DashboardView {
        goals_data: data,
        edit_yearly: data.yearly,
        edit_quarterly: data.quarterly,
        edit_monthly: data.monthly,
        edit_weekly: data.weekly,
        ..v
    }
}

/// The request that saves the vision and mission fields together.
pub open spec fn vision_save_view(v: DashboardView) -> RequestView {
    RequestView {
        method: Method::Put,
        url: vision_url(),
        body: BodyView::Vision(VisionView { vision: v.edit_vision, mission: v.edit_mission }),
    }
}

/// The request that saves the four goal fields.
pub open spec fn goals_save_view(v: DashboardView) -> RequestView {
    RequestView {
        method: Method::Put,
        url: goals_url(),
        body: BodyView::Goals(
            GoalsView {
                yearly: v.edit_yearly,
                quarterly: v.edit_quarterly,
                monthly: v.edit_monthly,
                weekly: v.edit_weekly,
            },
        ),
    }
}

/// The request that creates a reminder from the new-reminder field, trimmed;
/// none when nothing but white space was typed.
pub open spec fn submission_view(v: DashboardView) -> Option<RequestView> {
    let text = trimmed(v.new_reminder_text);
    if text.len() == 0 {
        None
    } else {
        Some(
            RequestView {
                method: Method::Post,
                url: reminders_url(),
                body: BodyView::Reminder(
                    ReminderView { id: None, text, is_completed: false, created_at: None },
                ),
            },
        )
    }
}

/// The id under which the dashboard addresses a reminder; a reminder
/// without an id is addressed as 0.
pub open spec fn reminder_key(r: ReminderView) -> i64 {
    match r.id {
        Some(id) => id,
        None => 0,
    }
}

/// The reminder with its completion state flipped.
pub open spec fn toggled(r: ReminderView) -> ReminderView {
    ReminderView { is_completed: !r.is_completed, ..r }
}

pub open spec fn toggle_view(r: ReminderView) -> RequestView {
    RequestView {
        method: Method::Put,
        url: reminder_url(reminder_key(r)),
        body: BodyView::Reminder(toggled(r)),
    }
}

pub open spec fn delete_view(r: ReminderView) -> RequestView {
    RequestView { method: Method::Delete, url: reminder_url(reminder_key(r)), body: BodyView::Empty }
}

/// The class of a navigation item: marked active for the page on display.
pub open spec fn nav_class(active: Tab, tab: Tab) -> Seq<char> {
    if active == tab {
        "nav-item active"@
    } else {
        "nav-item"@
    }
}

/// The class of an item of the reminder list.
pub open spec fn reminder_class(is_completed: bool) -> Seq<char> {
    if is_completed {
        "reminder-item completed"@
    } else {
        "reminder-item"@
    }
}

/// What a goal card shows: the goal, or "Not set" in place of an empty one.
pub open spec fn goal_text(goal: Seq<char>) -> Seq<char> {
    if goal.len() == 0 {
        "Not set"@
    } else {
        goal
    }
}

/// What the vision card shows.
pub open spec fn vision_text(vision: Seq<char>) -> Seq<char> {
    if vision.len() == 0 {
        "No vision statement set. Tap to add your guiding star."@
    } else {
        vision
    }
}

/// What the mission card shows.
pub open spec fn mission_text(mission: Seq<char>) -> Seq<char> {
    if mission.len() == 0 {
        "No core mission set. Tap to define your daily engine."@
    } else {
        mission
    }
}

fn get_request(url: &str) -> (r: Request)
    ensures
        r@ == (RequestView { method: Method::Get, url: url@, body: BodyView::Empty }),
{
    Request { method: Method::Get, url: String::from_str(url), body: Body::Empty }
}

fn reminder_address(id: i64) -> (url: String)
    ensures
        url@ == reminder_url(id),
{
    let mut url = String::from_str("http://127.0.0.1:3000/api/reminders/");
    push_signed_decimal(&mut url, id);
    url
}

impl Dashboard {
    /// The dashboard as it opens.
    pub fn new() -> (d: Dashboard)
        ensures
            d@ == initial_view(),
            d.active_tab == Tab::Home,
            d.reminders@.len() == 0,
            d.vision_data.vision@.len() == 0 && d.vision_data.mission@.len() == 0,
            d.goals_data.yearly@.len() == 0 && d.goals_data.quarterly@.len() == 0,
            d.goals_data.monthly@.len() == 0 && d.goals_data.weekly@.len() == 0,
            d.edit_vision@.len() == 0 && d.edit_mission@.len() == 0,
            d.edit_yearly@.len() == 0 && d.edit_quarterly@.len() == 0,
            d.edit_monthly@.len() == 0 && d.edit_weekly@.len() == 0,
            d.new_reminder_text@.len() == 0,
    {
        let d = Dashboard {
            active_tab: Tab::Home,
            vision_data: VisionPayload { vision: String::new(), mission: String::new() },
            goals_data: GoalsPayload {
                yearly: String::new(),
                quarterly: String::new(),
                monthly: String::new(),
                weekly: String::new(),
            },
            reminders: Vec::new(),
            edit_vision: String::new(),
            edit_mission: String::new(),
            edit_yearly: String::new(),
            edit_quarterly: String::new(),
            edit_monthly: String::new(),
            edit_weekly: String::new(),
            new_reminder_text: String::new(),
        };
        assert(d@.reminders =~= Seq::<ReminderView>::empty());
        d
    }

    /// The reads that bring the dashboard up to date, sent when it opens and
    /// after every change it makes.
    pub fn load_requests() -> (reqs: Vec<Request>)
        ensures
            reqs@.map_values(|r: Request| r@) == load_views(),
            reqs@.len() == 3,
            forall|i: int| 0 <= i < 3 ==> (#[trigger] reqs@[i]).method == Method::Get && reqs@[i].body
                is Empty,
            reqs@[0].url@ == "http://127.0.0.1:3000/api/vision"@,
            reqs@[1].url@ == "http://127.0.0.1:3000/api/goals"@,
            reqs@[2].url@ == "http://127.0.0.1:3000/api/reminders"@,
    {
        let mut reqs: Vec<Request> = Vec::new();
        reqs.push(get_request("http://127.0.0.1:3000/api/vision"));
        reqs.push(get_request("http://127.0.0.1:3000/api/goals"));
        reqs.push(get_request("http://127.0.0.1:3000/api/reminders"));
        assert(reqs@.map_values(|r: Request| r@) =~= load_views());
        reqs
    }

    /// Shows another page: a navigation item, a card of the home page or a
    /// Cancel button was pressed.
    pub fn select_tab(&mut self, tab: Tab)
        ensures
            final(self)@ == with_tab(old(self)@, tab),
            final(self).active_tab == tab,
    {
        self.active_tab = tab;
    }

    /// Typing into one of the edit fields.
    pub fn input(&mut self, field: Field, value: String)
        ensures
            final(self)@ == with_input(old(self)@, field, value@),
            field == Field::Vision ==> final(self).edit_vision@ == value@,
            field == Field::Mission ==> final(self).edit_mission@ == value@,
            field == Field::Yearly ==> final(self).edit_yearly@ == value@,
            field == Field::Quarterly ==> final(self).edit_quarterly@ == value@,
            field == Field::Monthly ==> final(self).edit_monthly@ == value@,
            field == Field::Weekly ==> final(self).edit_weekly@ == value@,
            field == Field::NewReminder ==> final(self).new_reminder_text@ == value@,
    {
        match field {
            Field::Vision => { self.edit_vision = value; },
            Field::Mission => { self.edit_mission = value; },
            Field::Yearly => { self.edit_yearly = value; },
            Field::Quarterly => { self.edit_quarterly = value; },
            Field::Monthly => { self.edit_monthly = value; },
            Field::Weekly => { self.edit_weekly = value; },
            Field::NewReminder => { self.new_reminder_text = value; },
        }
    }

    /// The server answered the read of the vision.
    pub fn vision_fetched(&mut self, data: VisionPayload)
        ensures
            final(self)@ == after_vision_fetched(old(self)@, data@),
            final(self).vision_data.vision@ == data.vision@,
            final(self).vision_data.mission@ == data.mission@,
            final(self).edit_vision@ == data.vision@,
            final(self).edit_mission@ == data.mission@,
            final(self).active_tab == old(self).active_tab,
    {
        self.edit_vision = data.vision.clone();
        self.edit_mission = data.mission.clone();
        self.vision_data = data;
    }

    /// The server answered the read of the goals.
    pub fn goals_fetched(&mut self, data: GoalsPayload)
        ensures
            final(self)@ == after_goals_fetched(old(self)@, data@),
            final(self).goals_data.yearly@ == data.yearly@,
            final(self).goals_data.quarterly@ == data.quarterly@,
            final(self).goals_data.monthly@ == data.monthly@,
            final(self).goals_data.weekly@ == data.weekly@,
            final(self).edit_yearly@ == data.yearly@,
            final(self).edit_quarterly@ == data.quarterly@,
            final(self).edit_monthly@ == data.monthly@,
            final(self).edit_weekly@ == data.weekly@,
            final(self).active_tab == old(self).active_tab,
    {
        self.edit_yearly = data.yearly.clone();
        self.edit_quarterly = data.quarterly.clone();
        self.edit_monthly = data.monthly.clone();
        self.edit_weekly = data.weekly.clone();
        self.goals_data = data;
    }

    /// The server answered the read of the reminders; they are shown in the
    /// order it sent them.
    pub fn reminders_fetched(&mut self, list: Vec<Reminder>)
        ensures
            final(self)@ == (DashboardView { reminders: reminder_views(list@), ..old(self)@ }),
            final(self).reminders@ == list@,
    {
        self.reminders = list;
    }

    /// Save was pressed on the vision or the mission page: both fields are
    /// sent together.
    pub fn save_vision(&self) -> (r: Request)
        ensures
            r@ == vision_save_view(self@),
            r.method == Method::Put,
            r.url@ == "http://127.0.0.1:3000/api/vision"@,
            r.body matches Body::Vision(p) && p.vision@ == self.edit_vision@ && p.mission@
                == self.edit_mission@,
    {
        Request {
            method: Method::Put,
            url: String::from_str("http://127.0.0.1:3000/api/vision"),
            body: Body::Vision(
                VisionPayload { vision: self.edit_vision.clone(), mission: self.edit_mission.clone() },
            ),
        }
    }

    /// Save was pressed on the goals page.
    pub fn save_goals(&self) -> (r: Request)
        ensures
            r@ == goals_save_view(self@),
            r.method == Method::Put,
            r.url@ == "http://127.0.0.1:3000/api/goals"@,
            r.body matches Body::Goals(g) && g.yearly@ == self.edit_yearly@ && g.quarterly@
                == self.edit_quarterly@ && g.monthly@ == self.edit_monthly@ && g.weekly@
                == self.edit_weekly@,
    {
        Request {
            method: Method::Put,
            url: String::from_str("http://127.0.0.1:3000/api/goals"),
            body: Body::Goals(
                GoalsPayload {
                    yearly: self.edit_yearly.clone(),
                    quarterly: self.edit_quarterly.clone(),
                    monthly: self.edit_monthly.clone(),
                    weekly: self.edit_weekly.clone(),
                },
            ),
        }
    }

    /// A save of the vision or of the goals has been answered, whatever the
    /// answer: the home page is shown and everything is read again.
    pub fn save_finished(&mut self) -> (reqs: Vec<Request>)
        ensures
            final(self)@ == with_tab(old(self)@, Tab::Home),
            final(self).active_tab == Tab::Home,
            reqs@.map_values(|r: Request| r@) == load_views(),
    {
        self.active_tab = Tab::Home;
        Self::load_requests()
    }

    /// The new-reminder form was submitted: the typed text, trimmed, is sent
    /// as a new open reminder, unless nothing but white space was typed.
    pub fn submit_reminder(&self) -> (r: Option<Request>)
        ensures
            match r {
                Some(req) => submission_view(self@) == Some(req@),
                None => submission_view(self@) is None,
            },
            r is Some <==> trimmed(self.new_reminder_text@).len() > 0,
            r matches Some(req) ==> {
                &&& req.method == Method::Post
                &&& req.url@ == "http://127.0.0.1:3000/api/reminders"@
                &&& req.body matches Body::Reminder(x)
                &&& x.text@ == trimmed(self.new_reminder_text@)
                &&& x.id is None
                &&& !x.is_completed
                &&& x.created_at is None
            },
    {
        let text = trim(self.new_reminder_text.as_str());
        if text.as_str().is_empty() {
            None
        } else {
            Some(
                Request {
                    method: Method::Post,
                    url: String::from_str("http://127.0.0.1:3000/api/reminders"),
                    body: Body::Reminder(
                        Reminder { id: None, text, is_completed: false, created_at: None },
                    ),
                },
            )
        }
    }

    /// The creation of a reminder has been answered, whatever the answer:
    /// the new-reminder field is emptied and everything is read again.
    pub fn reminder_submitted(&mut self) -> (reqs: Vec<Request>)
        ensures
            final(self)@ == with_input(old(self)@, Field::NewReminder, Seq::empty()),
            final(self).new_reminder_text@.len() == 0,
            reqs@.map_values(|r: Request| r@) == load_views(),
    {
        self.new_reminder_text = String::new();
        Self::load_requests()
    }

    /// The check box of a reminder was pressed: the reminder is sent back
    /// with its completion state flipped. Once answered, everything is read
    /// again (`load_requests`).
    pub fn toggle_reminder(reminder: &Reminder) -> (r: Request)
        ensures
            r@ == toggle_view(reminder@),
            r.method == Method::Put,
            reminder.id matches Some(i) ==> r.url@ == "http://127.0.0.1:3000/api/reminders/"@
                + signed_decimal(i as int),
            reminder.id is None ==> r.url@ == "http://127.0.0.1:3000/api/reminders/"@ + seq!['0'],
            r.body matches Body::Reminder(u) && u.id == reminder.id && u.text@ == reminder.text@
                && u.is_completed == !reminder.is_completed && u@.created_at
                == reminder@.created_at,
    {
        let id = reminder.id.unwrap_or(0);
        let created_at = match &reminder.created_at {
            Some(t) => Some(t.clone()),
            None => None,
        };
        let updated = Reminder {
            id: reminder.id,
            text: reminder.text.clone(),
            is_completed: !reminder.is_completed,
            created_at,
        };
        Request { method: Method::Put, url: reminder_address(id), body: Body::Reminder(updated) }
    }

    /// The delete button of a reminder was pressed. Once answered, everything
    /// is read again (`load_requests`).
    pub fn delete_reminder(reminder: &Reminder) -> (r: Request)
        ensures
            r@ == delete_view(reminder@),
            r.method == Method::Delete,
            reminder.id matches Some(i) ==> r.url@ == "http://127.0.0.1:3000/api/reminders/"@
                + signed_decimal(i as int),
            reminder.id is None ==> r.url@ == "http://127.0.0.1:3000/api/reminders/"@ + seq!['0'],
            r.body is Empty,
    {
        let id = reminder.id.unwrap_or(0);
        Request { method: Method::Delete, url: reminder_address(id), body: Body::Empty }
    }

    /// The class of the navigation item for `tab`.
    pub fn nav_item_class(&self, tab: Tab) -> (c: &'static str)
        ensures
            c@ == nav_class(self.active_tab, tab),
            self.active_tab == tab ==> c@ == "nav-item active"@,
            self.active_tab != tab ==> c@ == "nav-item"@,
    {
        if self.active_tab == tab {
            "nav-item active"
        } else {
            "nav-item"
        }
    }

    /// What the vision card of the home page shows.
    pub fn vision_display(&self) -> (s: String)
        ensures
            s@ == vision_text(self.vision_data.vision@),
            self.vision_data.vision@.len() > 0 ==> s@ == self.vision_data.vision@,
            self.vision_data.vision@.len() == 0 ==> s@
                == "No vision statement set. Tap to add your guiding star."@,
    {
        if self.vision_data.vision.as_str().is_empty() {
            String::from_str("No vision statement set. Tap to add your guiding star.")
        } else {
            self.vision_data.vision.clone()
        }
    }

    /// What the mission card of the home page shows.
    pub fn mission_display(&self) -> (s: String)
        ensures
            s@ == mission_text(self.vision_data.mission@),
            self.vision_data.mission@.len() > 0 ==> s@ == self.vision_data.mission@,
            self.vision_data.mission@.len() == 0 ==> s@
                == "No core mission set. Tap to define your daily engine."@,
    {
        if self.vision_data.mission.as_str().is_empty() {
            String::from_str("No core mission set. Tap to define your daily engine.")
        } else {
            self.vision_data.mission.clone()
        }
    }
}

/// What a goal card of the home page shows for `goal`.
pub fn goal_display(goal: &String) -> (s: String)
    ensures
        s@ == goal_text(goal@),
        goal@.len() > 0 ==> s@ == goal@,
        goal@.len() == 0 ==> s@ == "Not set"@,
{
    if goal.as_str().is_empty() {
        String::from_str("Not set")
    } else {
        goal.clone()
    }
}

/// The class of an item of the reminder list.
pub fn reminder_item_class(is_completed: bool) -> (c: &'static str)
    ensures
        c@ == reminder_class(is_completed),
        is_completed ==> c@ == "reminder-item completed"@,
        !is_completed ==> c@ == "reminder-item"@,
{
    if is_completed {
        "reminder-item completed"
    } else {
        "reminder-item"
    }
}

/// Saving right after the server's data arrived sends that data back
/// unchanged, for the vision and mission as for the goals.
pub proof fn lemma_save_after_fetch_sends_fetched_data(
    v: DashboardView,
    vision: VisionView,
    goals: GoalsView,
)
    ensures
        vision_save_view(after_vision_fetched(v, vision)).body == BodyView::Vision(vision),
        goals_save_view(after_goals_fetched(v, goals)).body == BodyView::Goals(goals),
{
}

/// The mission page and the vision page save the same record: what was
/// typed on one page is sent together with the other page's field.
pub proof fn lemma_one_page_saves_both_statements(v: DashboardView, text: Seq<char>)
    ensures
        vision_save_view(with_input(v, Field::Mission, text)).body == BodyView::Vision(
            VisionView { vision: v.edit_vision, mission: text },
        ),
        vision_save_view(with_input(v, Field::Vision, text)).body == BodyView::Vision(
            VisionView { vision: text, mission: v.edit_mission },
        ),
{
}

/// Exactly one navigation item is marked active: the one of the page on
/// display.
pub proof fn lemma_one_active_nav_item(active: Tab, tab: Tab)
    ensures
        nav_class(active, tab) == "nav-item active"@ <==> tab == active,
{
    reveal_strlit("nav-item active");
    reveal_strlit("nav-item");
    assert("nav-item"@.len() != "nav-item active"@.len());
}

/// Pressing the check box of a reminder twice restores it, and both the
/// check box and the delete button address the same reminder.
pub proof fn lemma_toggle_twice_restores(r: ReminderView)
    ensures
        toggled(toggled(r)) == r,
        toggle_view(toggled(r)).body == BodyView::Reminder(r),
        toggle_view(r).url == delete_view(r).url,
{
}

/// Distinct reminder ids are sent to distinct addresses.
pub proof fn lemma_reminder_urls_distinct(a: i64, b: i64)
    ensures
        reminder_url(a) == reminder_url(b) ==> a == b,
{
    if reminder_url(a) == reminder_url(b) {
        let prefix = "http://127.0.0.1:3000/api/reminders/"@;
        assert(reminder_url(a).subrange(prefix.len() as int, reminder_url(a).len() as int)
            =~= signed_decimal(a as int));
        assert(reminder_url(b).subrange(prefix.len() as int, reminder_url(b).len() as int)
            =~= signed_decimal(b as int));
        lemma_signed_decimal_injective(a as int, b as int);
    }
}

/// A reminder is submitted exactly when the field holds something other
/// than white space, and then its text is the field's text without the
/// surrounding white space: never empty, never starting or ending with
/// white space, and it is new and open.
pub proof fn lemma_submission_never_blank(v: DashboardView)
    ensures
        submission_view(v) is None <==> (forall|k: int|
            0 <= k < v.new_reminder_text.len() ==> is_white_space(
                #[trigger] v.new_reminder_text[k],
            )),
        submission_view(v) matches Some(req) ==> {
            &&& req.method == Method::Post
            &&& req.body matches BodyView::Reminder(r)
            &&& r.text == trimmed(v.new_reminder_text)
            &&& r.text.len() > 0
            &&& !is_white_space(r.text[0])
            &&& !is_white_space(r.text.last())
            &&& r.id is None
            &&& !r.is_completed
        },
{
    lemma_trimmed_shape(v.new_reminder_text);
}

/// Pressing the check box of a reminder sends that same reminder, with only
/// its completion state negated, to the address of its id.
pub proof fn lemma_toggle_flips_only_completion(r: ReminderView)
    ensures
        toggle_view(r).method == Method::Put,
        toggle_view(r).body == BodyView::Reminder(
            ReminderView {
                id: r.id,
                text: r.text,
                is_completed: !r.is_completed,
                created_at: r.created_at,
            },
        ),
        toggle_view(r).body matches BodyView::Reminder(u) && u.is_completed != r.is_completed,
        r.id matches Some(i) ==> toggle_view(r).url == "http://127.0.0.1:3000/api/reminders/"@
            + signed_decimal(i as int),
        r.id is None ==> toggle_view(r).url == "http://127.0.0.1:3000/api/reminders/"@ + seq!['0'],
{
}

/// The delete button sends a bodiless DELETE to the address of the
/// reminder's id.
pub proof fn lemma_delete_addresses_the_reminder(r: ReminderView)
    ensures
        delete_view(r).method == Method::Delete,
        delete_view(r).body == BodyView::Empty,
        r.id matches Some(i) ==> delete_view(r).url == "http://127.0.0.1:3000/api/reminders/"@
            + signed_decimal(i as int),
{
}

/// Saving the goals sends the four goal fields as they stand, whatever the
/// goals last shown hold; a goal just typed is the one sent, and the other
/// three are sent as they were.
pub proof fn lemma_goals_save_sends_the_fields(v: DashboardView, text: Seq<char>)
    ensures
        goals_save_view(v).method == Method::Put,
        goals_save_view(v).url == "http://127.0.0.1:3000/api/goals"@,
        goals_save_view(v).body == BodyView::Goals(
            GoalsView {
                yearly: v.edit_yearly,
                quarterly: v.edit_quarterly,
                monthly: v.edit_monthly,
                weekly: v.edit_weekly,
            },
        ),
        goals_save_view(with_input(v, Field::Yearly, text)).body == BodyView::Goals(
            GoalsView {
                yearly: text,
                quarterly: v.edit_quarterly,
                monthly: v.edit_monthly,
                weekly: v.edit_weekly,
            },
        ),
        goals_save_view(with_input(v, Field::Quarterly, text)).body matches BodyView::Goals(g)
            && g.quarterly == text,
        goals_save_view(with_input(v, Field::Monthly, text)).body matches BodyView::Goals(g)
            && g.monthly == text,
        goals_save_view(with_input(v, Field::Weekly, text)).body matches BodyView::Goals(g)
            && g.weekly == text,
{
}

/// Saving the vision sends the two statement fields as they stand.
pub proof fn lemma_vision_save_sends_the_fields(v: DashboardView)
    ensures
        vision_save_view(v).method == Method::Put,
        vision_save_view(v).url == "http://127.0.0.1:3000/api/vision"@,
        vision_save_view(v).body == BodyView::Vision(
            VisionView { vision: v.edit_vision, mission: v.edit_mission },
        ),
{
}

/// Goals that arrive are kept, each under its own time frame, both for the
/// home page and in the edit fields; nothing else changes.
pub proof fn lemma_goals_fetch_keeps_each_goal(v: DashboardView, g: GoalsView)
    ensures
        after_goals_fetched(v, g).goals_data.yearly == g.yearly,
        after_goals_fetched(v, g).goals_data.quarterly == g.quarterly,
        after_goals_fetched(v, g).goals_data.monthly == g.monthly,
        after_goals_fetched(v, g).goals_data.weekly == g.weekly,
        after_goals_fetched(v, g).edit_yearly == g.yearly,
        after_goals_fetched(v, g).edit_quarterly == g.quarterly,
        after_goals_fetched(v, g).edit_monthly == g.monthly,
        after_goals_fetched(v, g).edit_weekly == g.weekly,
        after_goals_fetched(v, g).active_tab == v.active_tab,
        after_goals_fetched(v, g).vision_data == v.vision_data,
        after_goals_fetched(v, g).edit_vision == v.edit_vision,
        after_goals_fetched(v, g).edit_mission == v.edit_mission,
        after_goals_fetched(v, g).reminders == v.reminders,
        after_goals_fetched(v, g).new_reminder_text == v.new_reminder_text,
{
}

/// A vision and mission that arrive are kept for the home page and fill
/// their edit fields; nothing else changes.
pub proof fn lemma_vision_fetch_keeps_both_statements(v: DashboardView, d: VisionView)
    ensures
        after_vision_fetched(v, d).vision_data.vision == d.vision,
        after_vision_fetched(v, d).vision_data.mission == d.mission,
        after_vision_fetched(v, d).edit_vision == d.vision,
        after_vision_fetched(v, d).edit_mission == d.mission,
        after_vision_fetched(v, d).active_tab == v.active_tab,
        after_vision_fetched(v, d).goals_data == v.goals_data,
        after_vision_fetched(v, d).reminders == v.reminders,
        after_vision_fetched(v, d).new_reminder_text == v.new_reminder_text,
{
}

/// A card shows a non-empty text whole, and its placeholder only in place of
/// an empty one.
pub proof fn lemma_cards_show_text_whole(text: Seq<char>)
    ensures
        text.len() > 0 ==> vision_text(text) == text && mission_text(text) == text && goal_text(
            text,
        ) == text,
        text.len() == 0 ==> vision_text(text)
            == "No vision statement set. Tap to add your guiding star."@,
        text.len() == 0 ==> mission_text(text)
            == "No core mission set. Tap to define your daily engine."@,
        text.len() == 0 ==> goal_text(text) == "Not set"@,
{
}

/// A reminder item is marked completed exactly when the reminder is.
pub proof fn lemma_reminder_class_follows_completion(is_completed: bool)
    ensures
        reminder_class(is_completed) == "reminder-item completed"@ <==> is_completed,
{
    reveal_strlit("reminder-item completed");
    reveal_strlit("reminder-item");
    assert("reminder-item"@.len() != "reminder-item completed"@.len());
}

/// Selecting a page changes only the page shown; typing changes only the
/// field typed into.
pub proof fn lemma_changes_stay_local(v: DashboardView, tab: Tab, field: Field, text: Seq<char>)
    ensures
        with_tab(v, tab).active_tab == tab,
        with_tab(v, tab).vision_data == v.vision_data,
        with_tab(v, tab).goals_data == v.goals_data,
        with_tab(v, tab).reminders == v.reminders,
        with_tab(v, tab).edit_vision == v.edit_vision,
        with_tab(v, tab).new_reminder_text == v.new_reminder_text,
        with_input(v, field, text).active_tab == v.active_tab,
        with_input(v, field, text).vision_data == v.vision_data,
        with_input(v, field, text).goals_data == v.goals_data,
        with_input(v, field, text).reminders == v.reminders,
        with_input(v, Field::Vision, text).edit_vision == text,
        with_input(v, Field::Yearly, text).edit_yearly == text,
        with_input(v, Field::Yearly, text).edit_quarterly == v.edit_quarterly,
        with_input(v, Field::Quarterly, text).edit_quarterly == text,
        with_input(v, Field::Monthly, text).edit_monthly == text,
        with_input(v, Field::Weekly, text).edit_weekly == text,
        with_input(v, Field::Mission, text).edit_mission == text,
        with_input(v, Field::Mission, text).edit_vision == v.edit_vision,
        with_input(v, Field::NewReminder, text).new_reminder_text == text,
{
}

} // verus!
