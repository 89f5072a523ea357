//! The statements that keep a relational store in step with the list, and the
//! reading of its rows. Running a statement against the store is the
//! caller's part; what is sent, and what a row means, is decided here.

use crate::todo_core::{lemma_label_round_trip, task_views, texts, State, Task, TaskView};
use vstd::prelude::*;
use vstd::string::*;

verus! {

/// A statement as contracts see it.
pub struct StatementView {
    pub sql: Seq<char>,
    pub params: Seq<Seq<char>>,
}

/// One SQL statement with the values bound to its placeholders, in order.
#[derive(PartialEq, Eq, Debug)]
pub struct Statement {
    sql: String,
    params: Vec<String>,
}

impl View for Statement {
    type V = StatementView;

    closed spec fn view(&self) -> StatementView {
        StatementView { sql: self.sql@, params: texts(self.params@) }
    }
}

impl Statement {
    /// The SQL text.
    pub fn sql(&self) -> (r: &str)
        ensures
            r@ == self@.sql,
    {
        self.sql.as_str()
    }

    /// The values to bind: the first to `?1`, the second to `?2`.
    pub fn params(&self) -> (r: &Vec<String>)
        ensures
            texts(r@) == self@.params,
    {
        &self.params
    }
}

/// Creates the table of tasks unless the store already has it.
pub open spec fn create_table_spec() -> StatementView {
    StatementView {
        sql: "CREATE TABLE IF NOT EXISTS todolist (name TEXT NOT NULL PRIMARY KEY, state TEXT NOT NULL)"@,
        params: Seq::empty(),
    }
}

/// Stores one task: its text as the name, its status by its label.
pub open spec fn insert_spec(task: TaskView) -> StatementView {
    StatementView {
        sql: "INSERT INTO todolist (name, state) VALUES (?1, ?2)"@,
        params: seq![task.text, task.status.label_spec()],
    }
}

/// Sets the stored status of the task with the given text.
pub open spec fn update_spec(text: Seq<char>, value: State) -> StatementView {
    StatementView {
        sql: "UPDATE todolist SET state = ?1 WHERE name = ?2"@,
        params: seq![value.label_spec(), text],
    }
}

/// Reads every stored task.
pub open spec fn select_all_spec() -> StatementView {
    StatementView { sql: "SELECT * FROM todolist"@, params: Seq::empty() }
}

/// Deletes every stored task.
pub open spec fn delete_all_spec() -> StatementView {
    StatementView { sql: "DELETE FROM todolist"@, params: Seq::empty() }
}

/// The task that a stored row stands for, given the row's name and state.
pub open spec fn row_task(name: Seq<char>, state: Seq<char>) -> TaskView {
    TaskView { text: name, status: State::stored_spec(state) }
}

/// The tasks that a sequence of rows stands for, in the rows' order.
pub open spec fn row_tasks(rows: Seq<(String, String)>) -> Seq<TaskView> {
    rows.map_values(|row: (String, String)| row_task(row.0@, row.1@))
}

/// A row that holds what the statement storing a task binds, the name first
/// and the state second, is read back as that task: the same text and the
/// same status.
pub proof fn lemma_stored_task_reads_back(task: TaskView)
    ensures
        row_task(insert_spec(task).params[0], insert_spec(task).params[1]) == task,
{
    lemma_label_round_trip(task.status);
}

/// Rows that hold, one for each task of a list and in its order, what the
/// statement storing that task binds are read back as the list.
pub proof fn lemma_stored_list_reads_back(tasks: Seq<TaskView>, rows: Seq<(String, String)>)
    requires
        rows.len() == tasks.len(),
        forall|i: int|
            0 <= i < rows.len() ==> (#[trigger] rows[i]).0@ == insert_spec(tasks[i]).params[0]
                && rows[i].1@ == insert_spec(tasks[i]).params[1],
    ensures
        row_tasks(rows) == tasks,
{
    assert forall|i: int| 0 <= i < rows.len() implies #[trigger] row_tasks(rows)[i] == tasks[i] by {
        lemma_stored_task_reads_back(tasks[i]);
    }
}

/// A row that holds what the statement setting a status binds is read back
/// with that status: the update binds the state first and the name second.
pub proof fn lemma_updated_task_reads_back(text: Seq<char>, value: State)
    ensures
        row_task(update_spec(text, value).params[1], update_spec(text, value).params[0]) == (
        TaskView { text, status: value }),
{
    lemma_label_round_trip(value);
}

/// The name of the store's file in its directory, with the separator before
/// it.
pub open spec fn file_name_spec() -> Seq<char> {
    "\\todo_list.db3"@
}

/// The adapter between the list and its store: it knows the store's file.
pub struct DB {
    db_path: String,
}

impl DB {
    /// The path of the store's file; empty until `create_db` has set it.
    pub closed spec fn path_spec(&self) -> Seq<char> {
        self.db_path@
    }

    pub fn new() -> (r: DB)
        ensures
            r.path_spec() == Seq::<char>::empty(),
    {
        DB { db_path: String::new() }
    }

    /// The path of the store's file.
    pub fn path(&self) -> (r: &str)
        ensures
            r@ == self.path_spec(),
    {
        self.db_path.as_str()
    }

    /// Settles where the store lives and gives the statement that prepares
    /// it. `dir` is the working directory where it can be written as text;
    /// without it the path stays as it was.
    pub fn create_db(&mut self, dir: Option<&str>) -> (r: Statement)
        ensures
            final(self).path_spec() == match dir {
                Some(d) => d@ + file_name_spec(),
                None => old(self).path_spec(),
            },
            r@ == create_table_spec(),
    {
        if let Some(x) = dir {
            self.db_path = String::from_str(x).concat("\\todo_list.db3");
        }
        let r = Statement {
            sql: String::from_str(
                "CREATE TABLE IF NOT EXISTS todolist (name TEXT NOT NULL PRIMARY KEY, state TEXT NOT NULL)",
            ),
            params: Vec::new(),
        };
        assert(r@.params =~= Seq::empty());
        r
    }

    /// The statement that stores `task`.
    pub fn add_task(&self, task: Task) -> (r: Statement)
        ensures
            r@ == insert_spec(task@),
    {
        let mut params: Vec<String> = Vec::new();
        params.push(String::from_str(task.text()));
        params.push(task.status().to_string());
        let r = Statement {
            sql: String::from_str("INSERT INTO todolist (name, state) VALUES (?1, ?2)"),
            params,
        };
        assert(r@.params =~= insert_spec(task@).params);
        r
    }

    /// The statement that sets the stored status of `task` to `value`.
    pub fn set_done(&mut self, task: Task, value: State) -> (r: Statement)
        ensures
            r@ == update_spec(task@.text, value),
            final(self).path_spec() == old(self).path_spec(),
    {
        let mut params: Vec<String> = Vec::new();
        params.push(value.to_string());
        params.push(String::from_str(task.text()));
        let r = Statement {
            sql: String::from_str("UPDATE todolist SET state = ?1 WHERE name = ?2"),
            params,
        };
        assert(r@.params =~= update_spec(task@.text, value).params);
        r
    }

    /// The statement that reads every stored task.
    pub fn select_all(&self) -> (r: Statement)
        ensures
            r@ == select_all_spec(),
    {
        let r = Statement { sql: String::from_str("SELECT * FROM todolist"), params: Vec::new() };
        assert(r@.params =~= Seq::empty());
        r
    }

    /// Appends to `todos` the task of each row, in the rows' order. A row is
    /// the stored name and the stored state.
    pub fn load(&mut self, rows: Vec<(String, String)>, todos: &mut Vec<Task>)
        ensures
            task_views(final(todos)@) == task_views(old(todos)@) + row_tasks(rows@),
            final(self).path_spec() == old(self).path_spec(),
    {
        let ghost before = task_views(todos@);
        let n: usize = rows.len();
        let mut i: usize = 0;
        while i < n
            invariant
                i <= n,
                n == rows@.len(),
                task_views(todos@) == before + row_tasks(rows@.take(i as int)),
            decreases n - i,
        {
            let ghost prev = todos@;
            let status = State::from_stored(rows[i].1.as_str());
            let task = Task::new(rows[i].0.clone(), status);
            todos.push(task);
            assert(task_views(todos@) =~= task_views(prev).push(task@));
            i += 1;
        }
    }

    /// The statement that deletes every stored task.
    pub fn clear(&self) -> (r: Statement)
        ensures
            r@ == delete_all_spec(),
    {
        let r = Statement { sql: String::from_str("DELETE FROM todolist"), params: Vec::new() };
        assert(r@.params =~= Seq::empty());
        r
    }
}

} // verus!
