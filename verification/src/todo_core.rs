//! Tasks and the collection of tasks.

use crate::text::{folded, same_ignoring_case};
use crate::todo_db::{
    create_table_spec, delete_all_spec, file_name_spec, insert_spec, row_tasks, select_all_spec,
    update_spec, Statement, DB,
};
use vstd::prelude::*;
use vstd::string::*;

verus! {

/// Where a task stands: finished, or still to do.
#[derive(Copy, Clone, PartialEq, Eq, Structural, Debug)]
pub enum State {
    Done,
    OnGoing,
}

impl State {
    /// The text that stands for a status, in the store and on the screen.
    pub open spec fn label_spec(self) -> Seq<char> {
        match self {
            State::Done => "done"@,
            State::OnGoing => "on going"@,
        }
    }

    /// The status that a stored text stands for: `OnGoing` for "on going" in
    /// any mix of upper and lower case, `Done` for every other text.
    pub open spec fn stored_spec(s: Seq<char>) -> State {
        if folded(s) == folded("on going"@) {
            State::OnGoing
        } else {
            State::Done
        }
    }

    /// The status that a typed text stands for: `Done` for "done" in any mix
    /// of upper and lower case, `OnGoing` for every other text.
    pub open spec fn typed_spec(s: Seq<char>) -> State {
        if folded(s) == folded("done"@) {
            State::Done
        } else {
            State::OnGoing
        }
    }

    /// The plain label of the status: "done" or "on going".
    pub fn label(&self) -> (r: &'static str)
        ensures
            r@ == self.label_spec(),
    {
        match self {
            State::Done => "done",
            State::OnGoing => "on going",
        }
    }

    /// The plain label as an owned string.
    pub fn to_string(&self) -> (r: String)
        ensures
            r@ == self.label_spec(),
    {
        String::from_str(self.label())
    }

    /// Reads a status back from the text that the store holds for it.
    pub fn from_stored(s: &str) -> (r: State)
        ensures
            r == State::stored_spec(s@),
    {
        if same_ignoring_case(s, "on going") {
            State::OnGoing
        } else {
            State::Done
        }
    }
}

/// Reads a status from a text that a person wrote: see `State::typed_spec`.
impl From<&str> for State {
    fn from(item: &str) -> (r: State) {
        if same_ignoring_case(item, "done") {
            State::Done
        } else {
            State::OnGoing
        }
    }
}

impl vstd::std_specs::convert::FromSpecImpl<&str> for State {
    open spec fn obeys_from_spec() -> bool {
        true
    }

    open spec fn from_spec(item: &str) -> State {
        State::typed_spec(item@)
    }
}

/// What a stored label is read back as: the status it was written for.
pub proof fn lemma_label_round_trip(s: State)
    ensures
        State::stored_spec(s.label_spec()) == s,
        State::typed_spec(s.label_spec()) == s,
{
    reveal_strlit("done");
    reveal_strlit("on going");
    assert(folded("on going"@).len() == 8);
}

/// A task as contracts see it.
pub struct TaskView {
    pub text: Seq<char>,
    pub status: State,
}

/// One entry of the list: what is to be done, and whether it has been.
#[derive(PartialEq, Eq, Debug)]
pub struct Task {
    text: String,
    status: State,
}

impl View for Task {
    type V = TaskView;

    closed spec fn view(&self) -> TaskView {
        TaskView { text: self.text@, status: self.status }
    }
}

/// Whether `styled` is `plain` with something, or nothing, before it and
/// after it.
pub open spec fn styled_of(plain: Seq<char>, styled: Seq<char>) -> bool {
    exists|before: Seq<char>, after: Seq<char>| styled == #[trigger] (before + plain + after)
}

/// `console::style` with italic, strike-through and red, written out as a
/// string. Whether the escape codes are written depends on the terminal and
/// the environment; either way the text itself is written as it is, between
/// the codes that switch the style on and off, and that much is claimed.
#[verifier::external_body]
fn italic_struck_red(label: &str) -> (r: String)
    ensures
        styled_of(label@, r@),
{
    console::style(label).attr(console::Attribute::Italic).strikethrough().red().to_string()
}

/// `console::style` with italic and green, written out as a string. Whether
/// the escape codes are written depends on the terminal and the environment;
/// either way the text itself is written as it is, between the codes that
/// switch the style on and off, and that much is claimed.
#[verifier::external_body]
pub(crate) fn italic_green(label: &str) -> (r: String)
    ensures
        styled_of(label@, r@),
{
    console::style(label).attr(console::Attribute::Italic).green().to_string()
}

impl Task {
    /// The line that shows a task with the given label for its status.
    pub open spec fn line_spec(text: Seq<char>, label: Seq<char>) -> Seq<char> {
        "Task ("@ + text + ", "@ + label + ")"@
    }

    pub fn new(text: String, status: State) -> (r: Task)
        ensures
            r@ == (TaskView { text: text@, status }),
    {
        Task { text, status }
    }

    pub fn text(&self) -> (r: &str)
        ensures
            r@ == self@.text,
    {
        self.text.as_str()
    }

    pub fn status(&self) -> (r: &State)
        ensures
            *r == self@.status,
    {
        &self.status
    }

    pub fn set_text(&mut self, value: String)
        ensures
            final(self)@ == (TaskView { text: value@, status: old(self)@.status }),
    {
        self.text = value
    }

    pub fn set_status(&mut self, value: State)
        ensures
            final(self)@ == (TaskView { text: old(self)@.text, status: value }),
    {
        self.status = value
    }

    /// The task's line with `label` standing for its status.
    pub fn render_with(&self, label: &str) -> (r: String)
        ensures
            r@ == Task::line_spec(self@.text, label@),
    {
        let mut out = String::from_str("Task (");
        out.append(self.text.as_str());
        out.append(", ");
        out.append(label);
        out.append(")");
        out
    }

    /// The task's line with the plain label of its status.
    pub fn plain(&self) -> (r: String)
        ensures
            r@ == Task::line_spec(self@.text, self@.status.label_spec()),
    {
        self.render_with(self.status.label())
    }

    /// The task's line for the terminal: the label is the plain one in
    /// italics, struck through and red for a finished task, green for one
    /// still to do, as far as the terminal shows styles.
    pub fn to_string(&self) -> (r: String)
        ensures
            line_of(self@, r@),
    {
        let label = match self.status {
            State::Done => italic_struck_red(self.status.label()),
            State::OnGoing => italic_green(self.status.label()),
        };
        self.render_with(label.as_str())
    }
}

impl Clone for Task {
    fn clone(&self) -> (r: Task)
        ensures
            r@ == self@,
    {
        Task::new(self.text.clone(), self.status)
    }
}

/// The texts that a sequence of strings holds.
pub open spec fn texts(s: Seq<String>) -> Seq<Seq<char>> {
    s.map_values(|p: String| p@)
}

/// The tasks that a sequence holds.
pub open spec fn task_views(s: Seq<Task>) -> Seq<TaskView> {
    s.map_values(|t: Task| t@)
}

/// Whether no task of `tasks` has the given text.
pub open spec fn absent(tasks: Seq<TaskView>, text: Seq<char>) -> bool {
    forall|j: int| 0 <= j < tasks.len() ==> (#[trigger] tasks[j]).text != text
}

/// Whether `i` is the place of the first task of `tasks` with the given text.
pub open spec fn first_at(tasks: Seq<TaskView>, text: Seq<char>, i: int) -> bool {
    &&& 0 <= i < tasks.len()
    &&& tasks[i].text == text
    &&& absent(tasks.take(i), text)
}

/// The place of the first task of `tasks` with the given text, if there is
/// one.
pub open spec fn position_spec(tasks: Seq<TaskView>, text: Seq<char>) -> Option<int> {
    if absent(tasks, text) {
        None
    } else {
        Some(choose|i: int| first_at(tasks, text, i))
    }
}

/// The first place is the only one: a place that `first_at` accepts is the
/// one that `position_spec` gives.
pub proof fn lemma_first_at_is_position(tasks: Seq<TaskView>, text: Seq<char>, i: int)
    requires
        first_at(tasks, text, i),
    ensures
        position_spec(tasks, text) == Some(i),
{
    let k = choose|k: int| first_at(tasks, text, k);
    if k < i {
        assert(tasks.take(i)[k].text == text);
    }
    if i < k {
        assert(tasks.take(k)[i].text == text);
    }
}

/// Below a place that holds the text there is a first place that holds it.
proof fn lemma_first_exists(tasks: Seq<TaskView>, text: Seq<char>, k: int)
    requires
        0 <= k < tasks.len(),
        tasks[k].text == text,
    ensures
        exists|i: int| first_at(tasks, text, i),
    decreases k,
{
    if absent(tasks.take(k), text) {
        assert(first_at(tasks, text, k));
    } else {
        let j = choose|j: int|
            0 <= j < tasks.take(k).len() && (#[trigger] tasks.take(k)[j]).text == text;
        lemma_first_exists(tasks, text, j);
    }
}

/// What `position_spec` gives is the first place that holds the text; it
/// gives none exactly where no task holds it.
pub proof fn lemma_position(tasks: Seq<TaskView>, text: Seq<char>)
    ensures
        match position_spec(tasks, text) {
            Some(i) => first_at(tasks, text, i),
            None => absent(tasks, text),
        },
{
    if !absent(tasks, text) {
        let k = choose|k: int| 0 <= k < tasks.len() && (#[trigger] tasks[k]).text == text;
        lemma_first_exists(tasks, text, k);
    }
}

/// The lines in order, each in round brackets and followed by a space.
pub open spec fn listing_spec(lines: Seq<Seq<char>>) -> Seq<char>
    decreases lines.len(),
{
    if lines.len() == 0 {
        Seq::empty()
    } else {
        listing_spec(lines.drop_last()) + "("@ + lines.last() + ") "@
    }
}

/// The lines of `tasks`, each with the plain label of its status.
pub open spec fn plain_lines(tasks: Seq<TaskView>) -> Seq<Seq<char>> {
    tasks.map_values(|t: TaskView| Task::line_spec(t.text, t.status.label_spec()))
}

/// Whether `line` is the line of `task` with the label of its status in
/// some styling.
pub open spec fn line_of(task: TaskView, line: Seq<char>) -> bool {
    exists|label: Seq<char>|
        styled_of(task.status.label_spec(), label) && line == #[trigger] Task::line_spec(
            task.text,
            label,
        )
}

/// Whether `lines` holds one line for each task of `tasks`, in order, each
/// with the label of its status in some styling.
pub open spec fn lines_of(tasks: Seq<TaskView>, lines: Seq<Seq<char>>) -> bool {
    &&& lines.len() == tasks.len()
    &&& forall|i: int| 0 <= i < lines.len() ==> line_of(tasks[i], #[trigger] lines[i])
}

/// Writes the lines out one after another, each in round brackets and
/// followed by a space.
pub fn listing(lines: &Vec<String>) -> (r: String)
    ensures
        r@ == listing_spec(texts(lines@)),
{
    let mut out = String::new();
    let n: usize = lines.len();
    let mut i: usize = 0;
    while i < n
        invariant
            i <= n,
            n == lines@.len(),
            out@ == listing_spec(texts(lines@.take(i as int))),
        decreases n - i,
    {
        out.append("(");
        out.append(lines[i].as_str());
        out.append(") ");
        assert(texts(lines@.take(i + 1)).drop_last() =~= texts(lines@.take(i as int)));
        i += 1;
    }
    assert(lines@.take(n as int) =~= lines@);
    out
}

/// The list of tasks, in the order in which they came, with the adapter for
/// its store.
pub struct Todos {
    todos: Vec<Task>,
    database: DB,
}

impl View for Todos {
    type V = Seq<TaskView>;

    closed spec fn view(&self) -> Seq<TaskView> {
        task_views(self.todos@)
    }
}

impl Todos {
    /// The path of the store's file; empty until `init_db` has set it.
    pub closed spec fn path_spec(&self) -> Seq<char> {
        self.database.path_spec()
    }

    pub fn new() -> (r: Todos)
        ensures
            r@ == Seq::<TaskView>::empty(),
            r.path_spec() == Seq::<char>::empty(),
    {
        let r = Todos { todos: Vec::<Task>::new(), database: DB::new() };
        r
    }

    /// The number of tasks.
    pub fn len(&self) -> (r: usize)
        ensures
            r == self@.len(),
    {
        self.todos.len()
    }

    /// The path of the store's file.
    pub fn path(&self) -> (r: &str)
        ensures
            r@ == self.path_spec(),
    {
        self.database.path()
    }

    /// Settles where the store lives and gives the statement that prepares
    /// it; the tasks stay as they are.
    pub fn init_db(&mut self, dir: Option<&str>) -> (r: Statement)
        ensures
            final(self).path_spec() == match dir {
                Some(d) => d@ + file_name_spec(),
                None => old(self).path_spec(),
            },
            final(self)@ == old(self)@,
            r@ == create_table_spec(),
    {
        self.database.create_db(dir)
    }

    /// Puts `task` at the end of the list, whether or not the list already
    /// has one with its text, and gives the statement that stores it.
    pub fn add(&mut self, task: Task) -> (r: Statement)
        ensures
            final(self)@ == old(self)@.push(task@),
            final(self).path_spec() == old(self).path_spec(),
            r@ == insert_spec(task@),
    {
        let task_clone = task.clone();
        self.todos.push(task);
        self.database.add_task(task_clone)
    }

    /// The place of the first task with the text of `task`.
    pub fn position(&self, task: &Task) -> (r: Option<usize>)
        ensures
            match r {
                Some(i) => position_spec(self@, task@.text) == Some(i as int) && first_at(
                    self@,
                    task@.text,
                    i as int,
                ),
                None => position_spec(self@, task@.text) is None,
            },
    {
        let n: usize = self.todos.len();
        let mut i: usize = 0;
        while i < n
            invariant
                i <= n,
                n == self.todos@.len(),
                absent(self@.take(i as int), task@.text),
            decreases n - i,
        {
            if self.todos[i].text == task.text {
                proof {
                    lemma_first_at_is_position(self@, task@.text, i as int);
                }
                return Some(i);
            }
            assert(forall|j: int|
                0 <= j < i ==> self@.take(i + 1)[j] == #[trigger] self@.take(i as int)[j]);
            i += 1;
        }
        assert(self@.take(n as int) =~= self@);
        None
    }

    /// Gives the first task with the text of `task` the status `value`, and
    /// says whether there was one. The statement that sets the stored status
    /// is given either way.
    pub fn set_done(&mut self, task: Task, value: State) -> (r: (bool, Statement))
        ensures
            r.0 == (position_spec(old(self)@, task@.text) is Some),
            final(self)@ == match position_spec(old(self)@, task@.text) {
                Some(i) => old(self)@.update(i, TaskView { text: task@.text, status: value }),
                None => old(self)@,
            },
            final(self).path_spec() == old(self).path_spec(),
            r.1@ == update_spec(task@.text, value),
    {
        let found = match self.position(&task) {
            Some(i) => {
                self.todos[i].set_status(value);
                true
            },
            None => false,
        };
        let statement = self.database.set_done(task, value);
        (found, statement)
    }

    /// Takes out the first task with the text of `task`, if there is one: the
    /// last task moves into its place.
    pub fn remove(&mut self, task: Task)
        ensures
            final(self)@ == match position_spec(old(self)@, task@.text) {
                Some(i) => old(self)@.update(i, old(self)@.last()).drop_last(),
                None => old(self)@,
            },
            final(self).path_spec() == old(self).path_spec(),
    {
        if let Some(index) = self.position(&task) {
            self.todos.swap_remove(index);
        }
    }

    /// The task at `index`, if the list is that long.
    pub fn at(&self, index: usize) -> (r: Option<&Task>)
        ensures
            match r {
                Some(t) => index < self@.len() && t@ == self@[index as int],
                None => index >= self@.len(),
            },
    {
        if index < self.todos.len() {
            return Some(&self.todos[index]);
        }
        None
    }

    /// The first task with the text of `task`, to be changed in place.
    pub fn find_task(&mut self, task: Task) -> (r: Option<&mut Task>)
        ensures
            match r {
                Some(t) => match position_spec(old(self)@, task@.text) {
                    Some(i) => t@ == old(self)@[i] && final(self)@ == old(self)@.update(
                        i,
                        final(t)@,
                    ),
                    None => false,
                },
                None => position_spec(old(self)@, task@.text) is None && final(self)@ == old(
                    self,
                )@,
            },
            final(self).path_spec() == old(self).path_spec(),
    {
        match self.position(&task) {
            Some(i) => {
                assert(forall|x: Task| #[trigger]
                    task_views(self.todos@.update(i as int, x)) == self@.update(i as int, x@));
                Some(&mut self.todos[i])
            },
            None => None,
        }
    }

    /// Empties the list and gives the statement that empties the store.
    pub fn clear(&mut self) -> (r: Statement)
        ensures
            final(self)@ == Seq::<TaskView>::empty(),
            final(self).path_spec() == old(self).path_spec(),
            r@ == delete_all_spec(),
    {
        self.todos.clear();
        self.database.clear()
    }

    /// The statement that reads every stored task; its rows are for `load`.
    pub fn select_all(&self) -> (r: Statement)
        ensures
            r@ == select_all_spec(),
    {
        self.database.select_all()
    }

    /// Appends the task of each row, in the rows' order, to what the list
    /// already holds.
    pub fn load(&mut self, rows: Vec<(String, String)>)
        ensures
            final(self)@ == old(self)@ + row_tasks(rows@),
            final(self).path_spec() == old(self).path_spec(),
    {
        self.database.load(rows, &mut self.todos);
    }

    /// The list with the plain label of each task's status.
    pub fn plain(&self) -> (r: String)
        ensures
            r@ == listing_spec(plain_lines(self@)),
    {
        let mut lines: Vec<String> = Vec::new();
        let n: usize = self.todos.len();
        let mut i: usize = 0;
        while i < n
            invariant
                i <= n,
                n == self.todos@.len(),
                texts(lines@) == plain_lines(self@.take(i as int)),
            decreases n - i,
        {
            let ghost before = lines@;
            let line = self.todos[i].plain();
            lines.push(line);
            assert(texts(lines@) =~= texts(before).push(line@));
            i += 1;
        }
        assert(self@.take(n as int) =~= self@);
        listing(&lines)
    }

    /// The list for the terminal, each task's label styled.
    pub fn to_string(&self) -> (r: String)
        ensures
            exists|lines: Seq<Seq<char>>| lines_of(self@, lines) && r@ == listing_spec(lines),
    {
        let mut lines: Vec<String> = Vec::new();
        let n: usize = self.todos.len();
        let mut i: usize = 0;
        while i < n
            invariant
                i <= n,
                n == self.todos@.len(),
                lines_of(self@.take(i as int), texts(lines@)),
            decreases n - i,
        {
            let ghost before = lines@;
            let line = self.todos[i].to_string();
            lines.push(line);
            assert forall|j: int| 0 <= j < i + 1 implies line_of(
                self@.take(i + 1)[j],
                #[trigger] texts(lines@)[j],
            ) by {
                if j < i {
                    assert(texts(lines@)[j] == texts(before)[j]);
                }
            }
            i += 1;
        }
        listing(&lines)
    }
}

} // verus!
