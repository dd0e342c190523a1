//! What the dashboard's server computes around its database: the statements
//! it issues for each request, with their parameters in binding order, and
//! the responses it builds from what the database returns.
use vstd::prelude::*;
use vstd::string::*;
use crate::model::{GoalsPayload, Reminder, ReminderView, VisionPayload, VisionView, reminder_views};

verus! {

/// A value bound to a `?` placeholder of a statement.
#[derive(Debug, Clone, PartialEq, Eq)]
pub enum SqlValue {
    Text(String),
    Integer(i64),
    Bool(bool),
}

/// What an `SqlValue` holds, with text as a character sequence.
pub enum SqlValueView {
    Text(Seq<char>),
    Integer(i64),
    Bool(bool),
}

impl View for SqlValue {
    type V = SqlValueView;

    open spec fn view(&self) -> SqlValueView {
        match self {
            SqlValue::Text(t) => SqlValueView::Text(t@),
            SqlValue::Integer(i) => SqlValueView::Integer(*i),
            SqlValue::Bool(b) => SqlValueView::Bool(*b),
        }
    }
}

/// A statement for the database: its SQL text and the values bound to its
/// placeholders, in order.
#[derive(Debug, Clone, PartialEq, Eq)]
pub struct Statement {
    pub sql: &'static str,
    pub params: Vec<SqlValue>,
}

/// What a `Statement` holds.
pub struct StatementView {
    pub sql: Seq<char>,
    pub params: Seq<SqlValueView>,
}

impl View for Statement {
    type V = StatementView;

    open spec fn view(&self) -> StatementView {
        StatementView { sql: self.sql@, params: self.params@.map_values(|v: SqlValue| v@) }
    }
}

pub open spec fn create_vision_table_sql() -> Seq<char> {
    "CREATE TABLE IF NOT EXISTS vision (\n            id INTEGER PRIMARY KEY CHECK (id = 1),\n            vision TEXT NOT NULL DEFAULT '',\n            mission TEXT NOT NULL DEFAULT ''\n        );"@
}

pub open spec fn create_goals_table_sql() -> Seq<char> {
    "CREATE TABLE IF NOT EXISTS goals (\n            id INTEGER PRIMARY KEY CHECK (id = 1),\n            yearly TEXT NOT NULL DEFAULT '',\n            quarterly TEXT NOT NULL DEFAULT '',\n            monthly TEXT NOT NULL DEFAULT '',\n            weekly TEXT NOT NULL DEFAULT ''\n        );"@
}

pub open spec fn create_reminders_table_sql() -> Seq<char> {
    "CREATE TABLE IF NOT EXISTS reminders (\n            id INTEGER PRIMARY KEY AUTOINCREMENT,\n            text TEXT NOT NULL,\n            is_completed BOOLEAN NOT NULL DEFAULT 0,\n            created_at TIMESTAMP DEFAULT CURRENT_TIMESTAMP\n        );"@
}

pub open spec fn seed_vision_sql() -> Seq<char> {
    "INSERT OR IGNORE INTO vision (id, vision, mission) VALUES (1, '', '');"@
}

pub open spec fn seed_goals_sql() -> Seq<char> {
    "INSERT OR IGNORE INTO goals (id, yearly, quarterly, monthly, weekly) VALUES (1, '', '', '', '');"@
}

pub open spec fn select_vision_sql() -> Seq<char> {
    "SELECT vision, mission FROM vision WHERE id = 1"@
}

pub open spec fn update_vision_sql() -> Seq<char> {
    "UPDATE vision SET vision = ?, mission = ? WHERE id = 1"@
}

pub open spec fn select_goals_sql() -> Seq<char> {
    "SELECT yearly, quarterly, monthly, weekly FROM goals WHERE id = 1"@
}

pub open spec fn update_goals_sql() -> Seq<char> {
    "UPDATE goals SET yearly = ?, quarterly = ?, monthly = ?, weekly = ? WHERE id = 1"@
}

pub open spec fn select_reminders_sql() -> Seq<char> {
    "SELECT id, text, is_completed FROM reminders ORDER BY id DESC"@
}

pub open spec fn insert_reminder_sql() -> Seq<char> {
    "INSERT INTO reminders (text, is_completed) VALUES (?, ?)"@
}

pub open spec fn toggle_reminder_sql() -> Seq<char> {
    "UPDATE reminders SET is_completed = ? WHERE id = ?"@
}

pub open spec fn delete_reminder_sql() -> Seq<char> {
    "DELETE FROM reminders WHERE id = ?"@
}

fn statement_without_params(sql: &'static str) -> (s: Statement)
    ensures
        s@.sql == sql@,
        s@.params.len() == 0,
{
    Statement { sql, params: Vec::new() }
}

/// The statements that prepare a database at start-up: the three tables,
/// created where missing, and the single vision and goals rows, inserted
/// where missing.
pub fn setup_statements() -> (stmts: Vec<Statement>)
    ensures
        stmts@.len() == 5,
        stmts@[0]@.sql == create_vision_table_sql(),
        stmts@[1]@.sql == create_goals_table_sql(),
        stmts@[2]@.sql == create_reminders_table_sql(),
        stmts@[3]@.sql == seed_vision_sql(),
        stmts@[4]@.sql == seed_goals_sql(),
        forall|i: int| 0 <= i < 5 ==> (#[trigger] stmts@[i])@.params.len() == 0,
{
    let mut stmts: Vec<Statement> = Vec::new();
    stmts.push(
        statement_without_params(
            "CREATE TABLE IF NOT EXISTS vision (\n            id INTEGER PRIMARY KEY CHECK (id = 1),\n            vision TEXT NOT NULL DEFAULT '',\n            mission TEXT NOT NULL DEFAULT ''\n        );",
        ),
    );
    stmts.push(
        statement_without_params(
            "CREATE TABLE IF NOT EXISTS goals (\n            id INTEGER PRIMARY KEY CHECK (id = 1),\n            yearly TEXT NOT NULL DEFAULT '',\n            quarterly TEXT NOT NULL DEFAULT '',\n            monthly TEXT NOT NULL DEFAULT '',\n            weekly TEXT NOT NULL DEFAULT ''\n        );",
        ),
    );
    stmts.push(
        statement_without_params(
            "CREATE TABLE IF NOT EXISTS reminders (\n            id INTEGER PRIMARY KEY AUTOINCREMENT,\n            text TEXT NOT NULL,\n            is_completed BOOLEAN NOT NULL DEFAULT 0,\n            created_at TIMESTAMP DEFAULT CURRENT_TIMESTAMP\n        );",
        ),
    );
    stmts.push(
        statement_without_params(
            "INSERT OR IGNORE INTO vision (id, vision, mission) VALUES (1, '', '');",
        ),
    );
    stmts.push(
        statement_without_params(
            "INSERT OR IGNORE INTO goals (id, yearly, quarterly, monthly, weekly) VALUES (1, '', '', '', '');",
        ),
    );
    stmts
}

/// The query that reads the vision row.
pub fn vision_query() -> (s: Statement)
    ensures
        s@.sql == select_vision_sql(),
        s.sql@ == "SELECT vision, mission FROM vision WHERE id = 1"@,
        s@.params.len() == 0,
{
    statement_without_params("SELECT vision, mission FROM vision WHERE id = 1")
}

/// The response to a read of the vision, from the row's `vision` and
/// `mission` columns.
pub fn vision_from_row(vision: String, mission: String) -> (p: VisionPayload)
    ensures
        p@ == (VisionView { vision: vision@, mission: mission@ }),
        p.vision@ == vision@,
        p.mission@ == mission@,
{
    VisionPayload { vision, mission }
}

/// The statement that stores a new vision and mission; the server answers
/// the request with the payload itself.
pub fn update_vision_statement(payload: &VisionPayload) -> (s: Statement)
    ensures
        s@.sql == update_vision_sql(),
        s.sql@ == "UPDATE vision SET vision = ?, mission = ? WHERE id = 1"@,
        s@.params == seq![SqlValueView::Text(payload.vision@), SqlValueView::Text(payload.mission@)],
{
    let mut params: Vec<SqlValue> = Vec::new();
    params.push(SqlValue::Text(payload.vision.clone()));
    params.push(SqlValue::Text(payload.mission.clone()));
    let s = Statement { sql: "UPDATE vision SET vision = ?, mission = ? WHERE id = 1", params };
    assert(s@.params =~= seq![SqlValueView::Text(payload.vision@), SqlValueView::Text(payload.mission@)]);
    s
}

/// The query that reads the goals row.
pub fn goals_query() -> (s: Statement)
    ensures
        s@.sql == select_goals_sql(),
        s.sql@ == "SELECT yearly, quarterly, monthly, weekly FROM goals WHERE id = 1"@,
        s@.params.len() == 0,
{
    statement_without_params("SELECT yearly, quarterly, monthly, weekly FROM goals WHERE id = 1")
}

/// The response to a read of the goals, from the row's four columns.
pub fn goals_from_row(yearly: String, quarterly: String, monthly: String, weekly: String) -> (p:
    GoalsPayload)
    ensures
        p.yearly@ == yearly@,
        p.quarterly@ == quarterly@,
        p.monthly@ == monthly@,
        p.weekly@ == weekly@,
{
    GoalsPayload { yearly, quarterly, monthly, weekly }
}

/// The statement that stores new goals; the server answers the request with
/// the payload itself.
pub fn update_goals_statement(payload: &GoalsPayload) -> (s: Statement)
    ensures
        s@.sql == update_goals_sql(),
        s.sql@ == "UPDATE goals SET yearly = ?, quarterly = ?, monthly = ?, weekly = ? WHERE id = 1"@,
        s@.params == seq![
            SqlValueView::Text(payload.yearly@),
            SqlValueView::Text(payload.quarterly@),
            SqlValueView::Text(payload.monthly@),
            SqlValueView::Text(payload.weekly@),
        ],
{
    let mut params: Vec<SqlValue> = Vec::new();
    params.push(SqlValue::Text(payload.yearly.clone()));
    params.push(SqlValue::Text(payload.quarterly.clone()));
    params.push(SqlValue::Text(payload.monthly.clone()));
    params.push(SqlValue::Text(payload.weekly.clone()));
    let s = Statement {
        sql: "UPDATE goals SET yearly = ?, quarterly = ?, monthly = ?, weekly = ? WHERE id = 1",
        params,
    };
    assert(s@.params =~= seq![
        SqlValueView::Text(payload.yearly@),
        SqlValueView::Text(payload.quarterly@),
        SqlValueView::Text(payload.monthly@),
        SqlValueView::Text(payload.weekly@),
    ]);
    s
}

/// The query that lists the reminders, newest first.
pub fn reminders_query() -> (s: Statement)
    ensures
        s@.sql == select_reminders_sql(),
        s.sql@ == "SELECT id, text, is_completed FROM reminders ORDER BY id DESC"@,
        s@.params.len() == 0,
{
    statement_without_params("SELECT id, text, is_completed FROM reminders ORDER BY id DESC")
}

/// A row of the reminders query: its `id`, `text` and `is_completed` columns.
#[derive(Debug, Clone, PartialEq, Eq)]
pub struct ReminderRow {
    pub id: i64,
    pub text: String,
    pub is_completed: bool,
}

/// The reminder that the server reports for a row of the reminders table.
pub open spec fn reminder_of_row(row: ReminderRow) -> ReminderView {
    ReminderView { id: Some(row.id), text: row.text@, is_completed: row.is_completed, created_at: None }
}

/// The response to a listing of the reminders: one reminder for each row,
/// in the order of the rows, with the row's id and no creation time.
pub fn reminders_from_rows(rows: &Vec<ReminderRow>) -> (list: Vec<Reminder>)
    ensures
        reminder_views(list@) == rows@.map_values(|row: ReminderRow| reminder_of_row(row)),
        list@.len() == rows@.len(),
        forall|k: int|
            0 <= k < rows@.len() ==> {
                &&& (#[trigger] list@[k]).id == Some(rows@[k].id)
                &&& list@[k].text@ == rows@[k].text@
                &&& list@[k].is_completed == rows@[k].is_completed
                &&& list@[k].created_at is None
            },
{
    let mut list: Vec<Reminder> = Vec::new();
    let mut i: usize = 0;
    while i < rows.len()
        invariant
            i <= rows@.len(),
            list@.len() == i,
            forall|k: int| 0 <= k < i ==> (#[trigger] list@[k])@ == reminder_of_row(rows@[k]),
        decreases rows@.len() - i,
    {
        let row = &rows[i];
        list.push(
            Reminder { id: Some(row.id), text: row.text.clone(), is_completed: row.is_completed, created_at: None },
        );
        i = i + 1;
    }
    assert(reminder_views(list@) =~= rows@.map_values(|row: ReminderRow| reminder_of_row(row)));
    list
}

/// The statement that inserts a new reminder with the submitted text and
/// completion state; the database assigns its id.
pub fn create_reminder_statement(payload: &Reminder) -> (s: Statement)
    ensures
        s@.sql == insert_reminder_sql(),
        s.sql@ == "INSERT INTO reminders (text, is_completed) VALUES (?, ?)"@,
        s@.params == seq![SqlValueView::Text(payload.text@), SqlValueView::Bool(payload.is_completed)],
{
    let mut params: Vec<SqlValue> = Vec::new();
    params.push(SqlValue::Text(payload.text.clone()));
    params.push(SqlValue::Bool(payload.is_completed));
    let s = Statement { sql: "INSERT INTO reminders (text, is_completed) VALUES (?, ?)", params };
    assert(s@.params =~= seq![SqlValueView::Text(payload.text@), SqlValueView::Bool(payload.is_completed)]);
    s
}

/// The response to a creation: the submitted text and completion state
/// under the row id that the insert produced, and no creation time.
pub fn created_reminder(payload: Reminder, row_id: i64) -> (r: Reminder)
    ensures
        r@ == (ReminderView {
            id: Some(row_id),
            text: payload.text@,
            is_completed: payload.is_completed,
            created_at: None,
        }),
{
    Reminder { id: Some(row_id), text: payload.text, is_completed: payload.is_completed, created_at: None }
}

/// The statement that sets the completion state of the reminder named by
/// the request's path to the one in the payload; the payload's own id plays
/// no part. The server answers with the payload itself.
pub fn toggle_reminder_statement(id: i64, payload: &Reminder) -> (s: Statement)
    ensures
        s@.sql == toggle_reminder_sql(),
        s.sql@ == "UPDATE reminders SET is_completed = ? WHERE id = ?"@,
        s@.params == seq![SqlValueView::Bool(payload.is_completed), SqlValueView::Integer(id)],
{
    let mut params: Vec<SqlValue> = Vec::new();
    params.push(SqlValue::Bool(payload.is_completed));
    params.push(SqlValue::Integer(id));
    let s = Statement { sql: "UPDATE reminders SET is_completed = ? WHERE id = ?", params };
    assert(s@.params =~= seq![SqlValueView::Bool(payload.is_completed), SqlValueView::Integer(id)]);
    s
}

/// The statement that deletes the reminder named by the request's path; the
/// server answers `true`.
pub fn delete_reminder_statement(id: i64) -> (s: Statement)
    ensures
        s@.sql == delete_reminder_sql(),
        s.sql@ == "DELETE FROM reminders WHERE id = ?"@,
        s@.params == seq![SqlValueView::Integer(id)],
{
    let mut params: Vec<SqlValue> = Vec::new();
    params.push(SqlValue::Integer(id));
    let s = Statement { sql: "DELETE FROM reminders WHERE id = ?", params };
    assert(s@.params =~= seq![SqlValueView::Integer(id)]);
    s
}

/// Each listed reminder carries its row's id, text and completion state
/// unchanged, and no creation time.
pub proof fn lemma_listing_keeps_each_row(row: ReminderRow)
    ensures
        reminder_of_row(row).id == Some(row.id),
        reminder_of_row(row).text == row.text@,
        reminder_of_row(row).is_completed == row.is_completed,
        reminder_of_row(row).created_at is None,
{
}

/// The listing keeps the number and the order of the rows: the k-th
/// reminder is made from the k-th row.
pub proof fn lemma_listing_keeps_row_order(rows: Seq<ReminderRow>, k: int)
    requires
        0 <= k < rows.len(),
    ensures
        rows.map_values(|row: ReminderRow| reminder_of_row(row)).len() == rows.len(),
        rows.map_values(|row: ReminderRow| reminder_of_row(row))[k].text == rows[k].text@,
        rows.map_values(|row: ReminderRow| reminder_of_row(row))[k].id == Some(rows[k].id),
{
}

} // verus!
