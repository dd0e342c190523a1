use remember::dashboard::{
    goal_display, reminder_item_class, Body, Dashboard, Field, Method, Request, Tab,
};
use remember::model::{GoalsPayload, Reminder, VisionPayload};

fn reminder(id: Option<i64>, text: &str, done: bool) -> Reminder {
    Reminder { id, text: text.to_string(), is_completed: done, created_at: None }
}

fn get(url: &str) -> Request {
    Request { method: Method::Get, url: url.to_string(), body: Body::Empty }
}

fn loads() -> Vec<Request> {
    vec![
        get("http://127.0.0.1:3000/api/vision"),
        get("http://127.0.0.1:3000/api/goals"),
        get("http://127.0.0.1:3000/api/reminders"),
    ]
}

#[test]
fn opens_on_the_home_page_with_nothing_loaded() {
    let d = Dashboard::new();
    assert_eq!(d.active_tab, Tab::Home);
    assert!(d.reminders.is_empty());
    assert_eq!(d.edit_vision, "");
    assert_eq!(d.new_reminder_text, "");
    assert_eq!(Dashboard::load_requests(), loads());
}

#[test]
fn fetched_vision_fills_the_edit_fields() {
    let mut d = Dashboard::new();
    d.input(Field::Vision, "draft".to_string());
    d.vision_fetched(VisionPayload { vision: "V".to_string(), mission: "M".to_string() });
    assert_eq!(d.vision_data.vision, "V");
    assert_eq!(d.edit_vision, "V");
    assert_eq!(d.edit_mission, "M");
}

#[test]
fn fetched_goals_fill_the_edit_fields() {
    let mut d = Dashboard::new();
    d.goals_fetched(GoalsPayload {
        yearly: "y".to_string(),
        quarterly: "q".to_string(),
        monthly: "m".to_string(),
        weekly: "w".to_string(),
    });
    assert_eq!(
        (d.edit_yearly.as_str(), d.edit_quarterly.as_str(), d.edit_monthly.as_str(), d.edit_weekly.as_str()),
        ("y", "q", "m", "w")
    );
    assert_eq!(d.goals_data.weekly, "w");
}

#[test]
fn save_after_fetch_sends_the_fetched_data_back() {
    let mut d = Dashboard::new();
    let v = VisionPayload { vision: "V".to_string(), mission: "M".to_string() };
    d.vision_fetched(v.clone());
    assert_eq!(
        d.save_vision(),
        Request { method: Method::Put, url: "http://127.0.0.1:3000/api/vision".to_string(), body: Body::Vision(v) }
    );
}

#[test]
fn mission_page_saves_the_vision_too() {
    let mut d = Dashboard::new();
    d.input(Field::Vision, "far".to_string());
    d.select_tab(Tab::Mission);
    d.input(Field::Mission, "near".to_string());
    let r = d.save_vision();
    assert_eq!(r.body, Body::Vision(VisionPayload { vision: "far".to_string(), mission: "near".to_string() }));
}

#[test]
fn goals_save_request() {
    let mut d = Dashboard::new();
    d.input(Field::Yearly, "a".to_string());
    d.input(Field::Quarterly, "b".to_string());
    d.input(Field::Monthly, "c".to_string());
    d.input(Field::Weekly, "d".to_string());
    let r = d.save_goals();
    assert_eq!(r.method, Method::Put);
    assert_eq!(r.url, "http://127.0.0.1:3000/api/goals");
    assert_eq!(
        r.body,
        Body::Goals(GoalsPayload {
            yearly: "a".to_string(),
            quarterly: "b".to_string(),
            monthly: "c".to_string(),
            weekly: "d".to_string()
        })
    );
}

#[test]
fn finished_save_returns_home_and_reloads() {
    let mut d = Dashboard::new();
    d.select_tab(Tab::Goals);
    let reqs = d.save_finished();
    assert_eq!(d.active_tab, Tab::Home);
    assert_eq!(reqs, loads());
}

#[test]
fn submission_trims_the_text() {
    let mut d = Dashboard::new();
    d.input(Field::NewReminder, "  drink water \n".to_string());
    let r = d.submit_reminder().unwrap();
    assert_eq!(
        r,
        Request {
            method: Method::Post,
            url: "http://127.0.0.1:3000/api/reminders".to_string(),
            body: Body::Reminder(reminder(None, "drink water", false)),
        }
    );
}

#[test]
fn blank_submission_sends_nothing() {
    let mut d = Dashboard::new();
    assert_eq!(d.submit_reminder(), None);
    d.input(Field::NewReminder, " \t\u{3000} ".to_string());
    assert_eq!(d.submit_reminder(), None);
}

#[test]
fn submitted_reminder_clears_the_field_and_reloads() {
    let mut d = Dashboard::new();
    d.input(Field::NewReminder, "x".to_string());
    assert_eq!(d.reminder_submitted(), loads());
    assert_eq!(d.new_reminder_text, "");
}

#[test]
fn toggle_flips_the_state_and_addresses_the_reminder() {
    let r = reminder(Some(7), "walk", false);
    let req = Dashboard::toggle_reminder(&r);
    assert_eq!(req.method, Method::Put);
    assert_eq!(req.url, "http://127.0.0.1:3000/api/reminders/7");
    assert_eq!(req.body, Body::Reminder(reminder(Some(7), "walk", true)));
}

#[test]
fn toggling_twice_restores_the_reminder() {
    let r = Reminder { id: Some(3), text: "t".to_string(), is_completed: true, created_at: Some("now".to_string()) };
    let first = Dashboard::toggle_reminder(&r);
    let Body::Reminder(flipped) = first.body else { panic!("no reminder") };
    let second = Dashboard::toggle_reminder(&flipped);
    assert_eq!(second.body, Body::Reminder(r));
}

#[test]
fn reminder_without_id_is_addressed_as_zero() {
    let r = reminder(None, "x", true);
    assert_eq!(Dashboard::toggle_reminder(&r).url, "http://127.0.0.1:3000/api/reminders/0");
    assert_eq!(
        Dashboard::delete_reminder(&r),
        Request { method: Method::Delete, url: "http://127.0.0.1:3000/api/reminders/0".to_string(), body: Body::Empty }
    );
}

#[test]
fn delete_addresses_the_reminder() {
    let r = reminder(Some(12345), "x", false);
    let req = Dashboard::delete_reminder(&r);
    assert_eq!(req.method, Method::Delete);
    assert_eq!(req.url, "http://127.0.0.1:3000/api/reminders/12345");
    assert_eq!(req.url, Dashboard::toggle_reminder(&r).url);
}

#[test]
fn exactly_one_nav_item_is_active() {
    let tabs = [Tab::Home, Tab::Mission, Tab::Vision, Tab::Goals, Tab::Reminder];
    for active in tabs {
        let mut d = Dashboard::new();
        d.select_tab(active);
        let marked: Vec<Tab> = tabs.iter().copied().filter(|t| d.nav_item_class(*t) == "nav-item active").collect();
        assert_eq!(marked, vec![active]);
        for t in tabs {
            if t != active {
                assert_eq!(d.nav_item_class(t), "nav-item");
            }
        }
    }
}

#[test]
fn home_page_texts() {
    let mut d = Dashboard::new();
    assert_eq!(d.vision_display(), "No vision statement set. Tap to add your guiding star.");
    assert_eq!(d.mission_display(), "No core mission set. Tap to define your daily engine.");
    d.vision_fetched(VisionPayload { vision: "V".to_string(), mission: "M".to_string() });
    assert_eq!(d.vision_display(), "V");
    assert_eq!(d.mission_display(), "M");
    assert_eq!(goal_display(&String::new()), "Not set");
    assert_eq!(goal_display(&"Run".to_string()), "Run");
}

#[test]
fn reminder_classes() {
    assert_eq!(reminder_item_class(true), "reminder-item completed");
    assert_eq!(reminder_item_class(false), "reminder-item");
}

#[test]
fn fetched_reminders_keep_their_order() {
    let mut d = Dashboard::new();
    let list = vec![reminder(Some(2), "b", false), reminder(Some(1), "a", true)];
    d.reminders_fetched(list.clone());
    assert_eq!(d.reminders, list);
}

#[test]
fn distinct_ids_get_distinct_addresses() {
    let ids = [0i64, 1, -1, 10, 100, -10, i64::MAX, i64::MIN];
    for a in ids {
        for b in ids {
            let ua = Dashboard::delete_reminder(&reminder(Some(a), "x", false)).url;
            let ub = Dashboard::delete_reminder(&reminder(Some(b), "x", false)).url;
            assert_eq!(ua == ub, a == b);
        }
    }
}

#[test]
fn cancel_returns_home_and_keeps_the_edits() {
    let mut d = Dashboard::new();
    d.select_tab(Tab::Vision);
    d.input(Field::Vision, "half typed".to_string());
    d.select_tab(Tab::Home);
    assert_eq!(d.active_tab, Tab::Home);
    assert_eq!(d.edit_vision, "half typed");
}
