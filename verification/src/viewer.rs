//! The menu: what it offers, what a selection means, and what each action
//! does to the list. Asking the questions and showing the answers is the
//! caller's part.

use crate::report::{not_found, Channel, Notice, NoticeView, Operation};
use crate::todo_core::{
    italic_green, lemma_first_at_is_position, lemma_position, lines_of, listing_spec, plain_lines,
    position_spec, styled_of, State, Task, TaskView, Todos,
};
use crate::todo_db::{
    create_table_spec, delete_all_spec, file_name_spec, insert_spec, row_tasks, select_all_spec,
    update_spec, Statement, StatementView,
};
use vstd::prelude::*;
use vstd::string::*;

verus! {

/// What the menu can be asked to do.
#[derive(Copy, Clone, PartialEq, Eq, Structural, Debug)]
pub enum Choice {
    Add,
    Done,
    List,
    Clear,
    Quit,
}

/// What a selection means, by its place in the menu; `None` is a menu that
/// was left without a selection.
pub open spec fn choice_spec(selection: Option<usize>) -> Choice {
    match selection {
        Some(i) => if i == 0 {
            Choice::Add
        } else if i == 1 {
            Choice::Done
        } else if i == 2 {
            Choice::List
        } else if i == 3 {
            Choice::Clear
        } else {
            Choice::Quit
        },
        None => Choice::Quit,
    }
}

/// What is to be asked before a choice is carried out: a text for a task to
/// add or to finish, nothing for the rest.
pub open spec fn prompt_spec(choice: Choice) -> Option<Seq<char>> {
    match choice {
        Choice::Add => Some("Task:"@),
        Choice::Done => Some("Task >"@),
        _ => None,
    }
}

/// What the caller is to do once a choice has been carried out on the list.
#[derive(PartialEq, Eq, Debug)]
pub enum Action {
    /// Run the statement against the store and report how the operation went.
    Send(Operation, Statement),
    /// Show the notice.
    Show(Notice),
    /// Write the text to the output.
    Print(String),
    /// Leave the loop.
    Quit,
}

/// An action as contracts see it.
pub enum ActionView {
    Send(Operation, StatementView),
    Show(NoticeView),
    Print(Seq<char>),
    Quit,
}

impl View for Action {
    type V = ActionView;

    open spec fn view(&self) -> ActionView {
        match self {
            Action::Send(op, statement) => ActionView::Send(*op, statement@),
            Action::Show(notice) => ActionView::Show(notice@),
            Action::Print(text) => ActionView::Print(text@),
            Action::Quit => ActionView::Quit,
        }
    }
}

/// The menu over a list of tasks.
pub struct Viewer {
    list: Todos,
}

impl View for Viewer {
    type V = Seq<TaskView>;

    closed spec fn view(&self) -> Seq<TaskView> {
        self.list@
    }
}

impl Viewer {
    /// The path of the store's file; empty until `init_db` has set it.
    pub closed spec fn path_spec(&self) -> Seq<char> {
        self.list.path_spec()
    }

    pub fn new() -> (r: Viewer)
        ensures
            r@ == Seq::<TaskView>::empty(),
            r.path_spec() == Seq::<char>::empty(),
    {
        Viewer { list: Todos::new() }
    }

    /// The path of the store's file.
    pub fn path(&self) -> (r: &str)
        ensures
            r@ == self.path_spec(),
    {
        self.list.path()
    }

    /// Settles where the store lives and gives the statement that prepares
    /// it.
    pub fn init_db(&mut self, dir: Option<&str>) -> (r: Statement)
        ensures
            final(self).path_spec() == match dir {
                Some(d) => d@ + file_name_spec(),
                None => old(self).path_spec(),
            },
            final(self)@ == old(self)@,
            r@ == create_table_spec(),
    {
        self.list.init_db(dir)
    }

    /// The entries of the menu, in the order in which `choice` counts them.
    /// The last one is "quit" in green italics, as far as the terminal shows
    /// styles.
    pub fn menu() -> (r: Vec<String>)
        ensures
            r@.len() == 5,
            r@[0]@ == "add"@,
            r@[1]@ == "done"@,
            r@[2]@ == "list"@,
            r@[3]@ == "clear"@,
            styled_of("quit"@, r@[4]@),
    {
        let mut items: Vec<String> = Vec::new();
        items.push(String::from_str("add"));
        items.push(String::from_str("done"));
        items.push(String::from_str("list"));
        items.push(String::from_str("clear"));
        items.push(italic_green("quit"));
        items
    }

    /// What the selected entry asks for. The first entry is the one that the
    /// menu offers by default.
    pub fn choice(selection: Option<usize>) -> (r: Choice)
        ensures
            r == choice_spec(selection),
    {
        match selection {
            Some(0) => Choice::Add,
            Some(1) => Choice::Done,
            Some(2) => Choice::List,
            Some(3) => Choice::Clear,
            _ => Choice::Quit,
        }
    }

    /// The question to ask before `step`, for the choices that need a text.
    pub fn prompt(choice: Choice) -> (r: Option<&'static str>)
        ensures
            match r {
                Some(p) => prompt_spec(choice) == Some(p@),
                None => prompt_spec(choice) is None,
            },
    {
        match choice {
            Choice::Add => Some("Task:"),
            Choice::Done => Some("Task >"),
            _ => None,
        }
    }

    /// Carries out one choice of the menu on the list and says what is left
    /// for the caller to do. `text` is the answer to the choice's prompt; the
    /// choices without one leave it aside.
    pub fn step(&mut self, choice: Choice, text: String) -> (r: Action)
        ensures
            final(self).path_spec() == old(self).path_spec(),
            match choice {
                Choice::Add => {
                    let task = TaskView { text: text@, status: State::OnGoing };
                    final(self)@ == old(self)@.push(task) && r@ == ActionView::Send(
                        Operation::Add,
                        insert_spec(task),
                    )
                },
                Choice::Done => match position_spec(old(self)@, text@) {
                    Some(i) => final(self)@ == old(self)@.update(
                        i,
                        TaskView { text: text@, status: State::Done },
                    ) && r@ == ActionView::Send(
                        Operation::SetDone,
                        update_spec(text@, State::Done),
                    ),
                    None => final(self)@ == old(self)@ && r@ == ActionView::Show(
                        NoticeView { channel: Channel::Output, text: "task not found"@ },
                    ),
                },
                Choice::List => final(self)@ == old(self)@ && exists|lines: Seq<Seq<char>>|
                    lines_of(old(self)@, lines) && r@ == ActionView::Print(
                        "List: "@ + #[trigger] listing_spec(lines),
                    ),
                Choice::Clear => final(self)@ == Seq::<TaskView>::empty() && r@
                    == ActionView::Send(Operation::Clear, delete_all_spec()),
                Choice::Quit => final(self)@ == old(self)@ && r@ == ActionView::Quit,
            },
    {
        match choice {
            Choice::Add => Action::Send(Operation::Add, self.add(text)),
            Choice::Done => match self.done(text) {
                Some(statement) => Action::Send(Operation::SetDone, statement),
                None => Action::Show(not_found()),
            },
            Choice::List => Action::Print(self.list()),
            Choice::Clear => Action::Send(Operation::Clear, self.clear()),
            Choice::Quit => Action::Quit,
        }
    }

    /// Puts a task with the given text, still to do, at the end of the list
    /// and gives the statement that stores it.
    pub fn add(&mut self, text: String) -> (r: Statement)
        ensures
            final(self)@ == old(self)@.push(TaskView { text: text@, status: State::OnGoing }),
            final(self).path_spec() == old(self).path_spec(),
            r@ == insert_spec(TaskView { text: text@, status: State::OnGoing }),
    {
        self.list.add(Task::new(text, State::OnGoing))
    }

    /// What the screen shows for the list, each task's label styled.
    pub fn list(&self) -> (r: String)
        ensures
            exists|lines: Seq<Seq<char>>|
                lines_of(self@, lines) && r@ == "List: "@ + #[trigger] listing_spec(lines),
    {
        String::from_str("List: ").concat(self.list.to_string().as_str())
    }

    /// The list with the plain label of each task's status.
    pub fn plain(&self) -> (r: String)
        ensures
            r@ == "List: "@ + listing_spec(plain_lines(self@)),
    {
        String::from_str("List: ").concat(self.list.plain().as_str())
    }

    /// Empties the list and gives the statement that empties the store.
    pub fn clear(&mut self) -> (r: Statement)
        ensures
            final(self)@ == Seq::<TaskView>::empty(),
            final(self).path_spec() == old(self).path_spec(),
            r@ == delete_all_spec(),
    {
        self.list.clear()
    }

    /// The statement that reads every stored task; its rows are for `load`.
    pub fn select_all(&self) -> (r: Statement)
        ensures
            r@ == select_all_spec(),
    {
        self.list.select_all()
    }

    /// Appends the task of each row, in the rows' order.
    pub fn load(&mut self, rows: Vec<(String, String)>)
        ensures
            final(self)@ == old(self)@ + row_tasks(rows@),
            final(self).path_spec() == old(self).path_spec(),
    {
        self.list.load(rows);
    }

    /// Marks the first task with the given text as finished and gives the
    /// statement that sets its stored status. Where no task has the text the
    /// list stays as it is and there is nothing to send.
    pub fn done(&mut self, text: String) -> (r: Option<Statement>)
        ensures
            match position_spec(old(self)@, text@) {
                Some(i) => final(self)@ == old(self)@.update(
                    i,
                    TaskView { text: text@, status: State::Done },
                ) && r is Some && r->0@ == update_spec(text@, State::Done),
                None => final(self)@ == old(self)@ && r is None,
            },
            final(self).path_spec() == old(self).path_spec(),
    {
        let task = Task::new(text, State::OnGoing);
        proof {
            lemma_position(self@, text@);
        }
        if let Some(t) = self.list.find_task(task) {
            t.set_status(State::Done);
            let task = t.clone();
            let ghost i = position_spec(old(self)@, text@)->0;
            proof {
                assert forall|j: int| 0 <= j < i implies (#[trigger] self@.take(i)[j]).text
                    != text@ by {
                    assert(old(self)@.take(i)[j].text != text@);
                }
                lemma_first_at_is_position(self@, text@, i);
            }
            let r = self.list.set_done(task, State::Done);
            Some(r.1)
        } else {
            None
        }
    }
}

} // verus!
