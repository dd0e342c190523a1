use remember::model::{GoalsPayload, Reminder, VisionPayload};
use remember::server::{
    created_reminder, create_reminder_statement, delete_reminder_statement, goals_from_row,
    goals_query, reminders_from_rows, reminders_query, setup_statements,
    toggle_reminder_statement, update_goals_statement, update_vision_statement, vision_from_row,
    vision_query, ReminderRow, SqlValue,
};

fn reminder(id: Option<i64>, text: &str, done: bool) -> Reminder {
    Reminder { id, text: text.to_string(), is_completed: done, created_at: None }
}

#[test]
fn setup_creates_tables_then_seeds_rows() {
    let stmts = setup_statements();
    assert_eq!(stmts.len(), 5);
    assert!(stmts[0].sql.starts_with("CREATE TABLE IF NOT EXISTS vision"));
    assert!(stmts[1].sql.starts_with("CREATE TABLE IF NOT EXISTS goals"));
    assert!(stmts[2].sql.starts_with("CREATE TABLE IF NOT EXISTS reminders"));
    assert!(stmts[2].sql.contains("AUTOINCREMENT"));
    assert_eq!(stmts[3].sql, "INSERT OR IGNORE INTO vision (id, vision, mission) VALUES (1, '', '');");
    assert_eq!(
        stmts[4].sql,
        "INSERT OR IGNORE INTO goals (id, yearly, quarterly, monthly, weekly) VALUES (1, '', '', '', '');"
    );
    assert!(stmts.iter().all(|s| s.params.is_empty()));
}

#[test]
fn vision_read_and_write() {
    let q = vision_query();
    assert_eq!(q.sql, "SELECT vision, mission FROM vision WHERE id = 1");
    assert!(q.params.is_empty());
    let p = vision_from_row("See far".to_string(), "Ship daily".to_string());
    assert_eq!(p, VisionPayload { vision: "See far".to_string(), mission: "Ship daily".to_string() });
    let s = update_vision_statement(&p);
    assert_eq!(s.sql, "UPDATE vision SET vision = ?, mission = ? WHERE id = 1");
    assert_eq!(
        s.params,
        vec![SqlValue::Text("See far".to_string()), SqlValue::Text("Ship daily".to_string())]
    );
}

#[test]
fn goals_read_and_write() {
    let q = goals_query();
    assert_eq!(q.sql, "SELECT yearly, quarterly, monthly, weekly FROM goals WHERE id = 1");
    let p = goals_from_row("Y".to_string(), "Q".to_string(), "M".to_string(), "W".to_string());
    assert_eq!(
        p,
        GoalsPayload {
            yearly: "Y".to_string(),
            quarterly: "Q".to_string(),
            monthly: "M".to_string(),
            weekly: "W".to_string()
        }
    );
    let s = update_goals_statement(&p);
    assert_eq!(s.sql, "UPDATE goals SET yearly = ?, quarterly = ?, monthly = ?, weekly = ? WHERE id = 1");
    assert_eq!(
        s.params,
        vec![
            SqlValue::Text("Y".to_string()),
            SqlValue::Text("Q".to_string()),
            SqlValue::Text("M".to_string()),
            SqlValue::Text("W".to_string()),
        ]
    );
}

#[test]
fn listing_keeps_the_row_order() {
    assert_eq!(reminders_query().sql, "SELECT id, text, is_completed FROM reminders ORDER BY id DESC");
    let rows = vec![
        ReminderRow { id: 9, text: "stretch".to_string(), is_completed: true },
        ReminderRow { id: 4, text: "water".to_string(), is_completed: false },
    ];
    let list = reminders_from_rows(&rows);
    assert_eq!(list, vec![reminder(Some(9), "stretch", true), reminder(Some(4), "water", false)]);
}

#[test]
fn listing_of_no_rows_is_empty() {
    assert!(reminders_from_rows(&Vec::new()).is_empty());
}

#[test]
fn creation_binds_text_and_state_and_answers_with_the_row_id() {
    let payload = Reminder {
        id: Some(123),
        text: "breathe".to_string(),
        is_completed: false,
        created_at: Some("2024-01-01".to_string()),
    };
    let s = create_reminder_statement(&payload);
    assert_eq!(s.sql, "INSERT INTO reminders (text, is_completed) VALUES (?, ?)");
    assert_eq!(s.params, vec![SqlValue::Text("breathe".to_string()), SqlValue::Bool(false)]);
    let r = created_reminder(payload, 17);
    assert_eq!(r, reminder(Some(17), "breathe", false));
}

#[test]
fn toggle_uses_the_path_id() {
    let payload = reminder(Some(99), "walk", true);
    let s = toggle_reminder_statement(5, &payload);
    assert_eq!(s.sql, "UPDATE reminders SET is_completed = ? WHERE id = ?");
    assert_eq!(s.params, vec![SqlValue::Bool(true), SqlValue::Integer(5)]);
}

#[test]
fn delete_binds_the_id() {
    let s = delete_reminder_statement(-3);
    assert_eq!(s.sql, "DELETE FROM reminders WHERE id = ?");
    assert_eq!(s.params, vec![SqlValue::Integer(-3)]);
}

#[test]
fn placeholders_match_parameters() {
    let p = reminder(None, "x", false);
    let v = VisionPayload { vision: String::new(), mission: String::new() };
    let g = GoalsPayload { yearly: String::new(), quarterly: String::new(), monthly: String::new(), weekly: String::new() };
    for s in [
        update_vision_statement(&v),
        update_goals_statement(&g),
        create_reminder_statement(&p),
        toggle_reminder_statement(1, &p),
        delete_reminder_statement(1),
        vision_query(),
        goals_query(),
        reminders_query(),
    ] {
        assert_eq!(s.sql.matches('?').count(), s.params.len(), "{}", s.sql);
    }
}

#[test]
fn table_definitions_keep_their_layout() {
    let stmts = setup_statements();
    assert_eq!(
        stmts[0].sql,
        "CREATE TABLE IF NOT EXISTS vision (
            id INTEGER PRIMARY KEY CHECK (id = 1),
            vision TEXT NOT NULL DEFAULT '',
            mission TEXT NOT NULL DEFAULT ''
        );"
    );
    assert_eq!(
        stmts[1].sql,
        "CREATE TABLE IF NOT EXISTS goals (
            id INTEGER PRIMARY KEY CHECK (id = 1),
            yearly TEXT NOT NULL DEFAULT '',
            quarterly TEXT NOT NULL DEFAULT '',
            monthly TEXT NOT NULL DEFAULT '',
            weekly TEXT NOT NULL DEFAULT ''
        );"
    );
    assert_eq!(
        stmts[2].sql,
        "CREATE TABLE IF NOT EXISTS reminders (
            id INTEGER PRIMARY KEY AUTOINCREMENT,
            text TEXT NOT NULL,
            is_completed BOOLEAN NOT NULL DEFAULT 0,
            created_at TIMESTAMP DEFAULT CURRENT_TIMESTAMP
        );"
    );
}
