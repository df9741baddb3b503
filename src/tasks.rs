//! The task store: tasks, the three columns that hold them, and the
//! operations that append, remove and move tasks between columns.
use vstd::prelude::*;

verus! {

/// The column a task belongs to, in the fixed order Backlog, InProgress, Done.
#[derive(Clone, Copy, Debug, PartialEq, Eq, Structural)]
pub enum TaskStatus {
    Backlog,
    InProgress,
    Done,
}

/// A short text task, tagged with its column.
#[derive(Debug)]
pub struct Task {
    pub status: TaskStatus,
    pub text: String,
}

impl Task {
    /// A new task with the given text in the given column.
    pub fn create_new_task(text: String, status: TaskStatus) -> (t: Task)
        ensures
            t.status == status,
            t.text == text,
    {
        Task { status: status, text: text }
    }

    /// Moves the task to another column by changing its tag; the text stays.
    pub fn change_status(&mut self, status: TaskStatus)
        ensures
            final(self).status == status,
            final(self).text == old(self).text,
    {
        self.status = status;
    }
}

/// The failure of an operation that names a row past the end of its column.
#[derive(Clone, Copy, Debug, PartialEq, Eq, Structural)]
pub struct IndexError {
    pub index: usize,
    pub len: usize,
}

/// The texts of a sequence of tasks, in order.
pub open spec fn texts_of(tasks: Seq<Task>) -> Seq<Seq<char>> {
    tasks.map_values(|t: Task| t.text@)
}

/// Every task of the sequence carries the tag of the given column.
pub open spec fn all_tagged(tasks: Seq<Task>, c: TaskStatus) -> bool {
    forall|i: int| 0 <= i < tasks.len() ==> (#[trigger] tasks[i]).status == c
}

/// A board as the library reasons about it: the texts of each column, in order.
/// The column tag of a task is the column that holds it.
pub ghost struct BoardModel {
    pub backlog: Seq<Seq<char>>,
    pub in_progress: Seq<Seq<char>>,
    pub done: Seq<Seq<char>>,
}

impl BoardModel {
    pub open spec fn empty() -> BoardModel {
        BoardModel { backlog: Seq::empty(), in_progress: Seq::empty(), done: Seq::empty() }
    }

    pub open spec fn column(self, c: TaskStatus) -> Seq<Seq<char>> {
        match c {
            TaskStatus::Backlog => self.backlog,
            TaskStatus::InProgress => self.in_progress,
            TaskStatus::Done => self.done,
        }
    }

    pub open spec fn with_column(self, c: TaskStatus, s: Seq<Seq<char>>) -> BoardModel {
        match c {
            TaskStatus::Backlog => BoardModel { backlog: s, ..self },
            TaskStatus::InProgress => BoardModel { in_progress: s, ..self },
            TaskStatus::Done => BoardModel { done: s, ..self },
        }
    }

    /// The board with `text` added at the end of column `c`.
    pub open spec fn appended(self, c: TaskStatus, text: Seq<char>) -> BoardModel {
        self.with_column(c, self.column(c).push(text))
    }

    /// The board with row `i` of column `c` taken out, the other rows kept in order.
    pub open spec fn removed(self, c: TaskStatus, i: int) -> BoardModel {
        self.with_column(c, self.column(c).remove(i))
    }

    /// The board with row `i` of column `src` taken out and added at the end of `dst`.
    pub open spec fn moved(self, src: TaskStatus, i: int, dst: TaskStatus) -> BoardModel {
        self.removed(src, i).appended(dst, self.column(src)[i])
    }
}

/// `saved` holds the three columns of `b` in the order Backlog, InProgress, Done,
/// each task tagged with its column: the shape in which a board is saved.
pub open spec fn is_saved_form(saved: Seq<Vec<Task>>, b: BoardModel) -> bool {
    &&& saved.len() == 3
    &&& texts_of(saved[0]@) == b.backlog
    &&& texts_of(saved[1]@) == b.in_progress
    &&& texts_of(saved[2]@) == b.done
    &&& all_tagged(saved[0]@, TaskStatus::Backlog)
    &&& all_tagged(saved[1]@, TaskStatus::InProgress)
    &&& all_tagged(saved[2]@, TaskStatus::Done)
}

/// The board that a loaded document gives: its first three task lists, as
/// Backlog, InProgress and Done; an empty board where nothing could be read or
/// fewer than three lists were there.
pub open spec fn loaded(saved: Option<Vec<Vec<Task>>>) -> BoardModel {
    match saved {
        Some(cols) => if cols@.len() >= 3 {
            BoardModel {
                backlog: texts_of(cols@[0]@),
                in_progress: texts_of(cols@[1]@),
                done: texts_of(cols@[2]@),
            }
        } else {
            BoardModel::empty()
        },
        None => BoardModel::empty(),
    }
}

/// The same tasks in the same order, each tagged with column `c`.
fn retag(tasks: Vec<Task>, c: TaskStatus) -> (r: Vec<Task>)
    ensures
        texts_of(r@) == texts_of(tasks@),
        all_tagged(r@, c),
{
    let mut rest = tasks;
    let mut out: Vec<Task> = Vec::new();
    while rest.len() > 0
        invariant
            out@.len() + rest@.len() == tasks@.len(),
            forall|j: int| 0 <= j < out@.len() ==> (#[trigger] out@[j]).text == tasks@[j].text,
            forall|j: int| 0 <= j < rest@.len() ==> (#[trigger] rest@[j]) == tasks@[out@.len() + j],
            all_tagged(out@, c),
        decreases rest@.len(),
    {
        let mut t = rest.remove(0);
        t.change_status(c);
        out.push(t);
    }
    assert(texts_of(out@) =~= texts_of(tasks@));
    out
}

/// The three columns of tasks.
pub struct Board {
    backlog: Vec<Task>,
    in_progress: Vec<Task>,
    done: Vec<Task>,
}

impl View for Board {
    type V = BoardModel;

    closed spec fn view(&self) -> BoardModel {
        BoardModel {
            backlog: texts_of(self.backlog@),
            in_progress: texts_of(self.in_progress@),
            done: texts_of(self.done@),
        }
    }
}

impl Board {
    /// The tasks of column `c`.
    pub closed spec fn tasks(&self, c: TaskStatus) -> Seq<Task> {
        match c {
            TaskStatus::Backlog => self.backlog@,
            TaskStatus::InProgress => self.in_progress@,
            TaskStatus::Done => self.done@,
        }
    }

    /// Every task carries the tag of the column that holds it.
    pub open spec fn wf(&self) -> bool {
        &&& all_tagged(self.tasks(TaskStatus::Backlog), TaskStatus::Backlog)
        &&& all_tagged(self.tasks(TaskStatus::InProgress), TaskStatus::InProgress)
        &&& all_tagged(self.tasks(TaskStatus::Done), TaskStatus::Done)
    }

    /// An empty board.
    pub fn new() -> (b: Board)
        ensures
            b.wf(),
            b@ == BoardModel::empty(),
    {
        let b = Board { backlog: Vec::new(), in_progress: Vec::new(), done: Vec::new() };
        assert(texts_of(b.backlog@) =~= Seq::empty());
        assert(texts_of(b.in_progress@) =~= Seq::empty());
        assert(texts_of(b.done@) =~= Seq::empty());
        b
    }

    /// The number of tasks in column `c`.
    pub fn len(&self, c: TaskStatus) -> (n: usize)
        ensures
            n == self@.column(c).len(),
    {
        match c {
            TaskStatus::Backlog => self.backlog.len(),
            TaskStatus::InProgress => self.in_progress.len(),
            TaskStatus::Done => self.done.len(),
        }
    }

    /// The texts of column `c`, in order: what a renderer shows of that column.
    pub fn texts(&self, c: TaskStatus) -> (r: Vec<String>)
        ensures
            r@.map_values(|s: String| s@) == self@.column(c),
    {
        let tasks = match c {
            TaskStatus::Backlog => &self.backlog,
            TaskStatus::InProgress => &self.in_progress,
            TaskStatus::Done => &self.done,
        };
        let mut r: Vec<String> = Vec::new();
        let mut i: usize = 0;
        while i < tasks.len()
            invariant
                tasks@ == self.tasks(c),
                i <= tasks@.len(),
                r@.len() == i,
                forall|j: int| 0 <= j < i ==> (#[trigger] r@[j])@ == texts_of(tasks@)[j],
            decreases tasks@.len() - i,
        {
            let s = tasks[i].text.clone();
            assert(texts_of(tasks@)[i as int] == s@);
            r.push(s);
            i = i + 1;
        }
        assert(r@.map_values(|s: String| s@) =~= texts_of(tasks@));
        r
    }

    /// Adds a task with `text` at the end of column `c`.
    pub fn append(&mut self, c: TaskStatus, text: String)
        requires
            old(self).wf(),
        ensures
            final(self).wf(),
            final(self)@ == old(self)@.appended(c, text@),
    {
        let ghost t = text@;
        let mut v = self.take_column(c);
        v.push(Task::create_new_task(text, c));
        proof {
            assert(texts_of(v@) =~= texts_of(old(self).tasks(c)).push(t));
        }
        self.put_column(c, v);
    }

    /// Takes row `index` out of column `c` and hands it back; the other rows keep
    /// their order. Fails, changing nothing, when the column has no such row.
    pub fn remove(&mut self, c: TaskStatus, index: usize) -> (r: Result<Task, IndexError>)
        requires
            old(self).wf(),
        ensures
            final(self).wf(),
            index < old(self)@.column(c).len() <==> r is Ok,
            match r {
                Ok(t) => {
                    &&& t.status == c
                    &&& t.text@ == old(self)@.column(c)[index as int]
                    &&& final(self)@ == old(self)@.removed(c, index as int)
                },
                Err(e) => {
                    &&& e == (IndexError { index, len: old(self)@.column(c).len() as usize })
                    &&& final(self)@ == old(self)@
                },
            },
    {
        let mut v = self.take_column(c);
        if index >= v.len() {
            let len = v.len();
            self.put_column(c, v);
            return Err(IndexError { index, len });
        }
        let t = v.remove(index);
        proof {
            assert(texts_of(v@) =~= texts_of(old(self).tasks(c)).remove(index as int));
        }
        self.put_column(c, v);
        Ok(t)
    }

    /// Takes row `index` out of column `src`, tags it with `dst` and adds it at the
    /// end of `dst`. Fails, changing nothing, when `src` has no such row.
    pub fn move_task(&mut self, src: TaskStatus, index: usize, dst: TaskStatus) -> (r: Result<
        (),
        IndexError,
    >)
        requires
            old(self).wf(),
        ensures
            final(self).wf(),
            index < old(self)@.column(src).len() <==> r is Ok,
            r is Ok ==> final(self)@ == old(self)@.moved(src, index as int, dst),
            r is Err ==> r == Err::<(), IndexError>(
                IndexError { index, len: old(self)@.column(src).len() as usize },
            ) && final(self)@ == old(self)@,
    {
        match self.remove(src, index) {
            Ok(mut t) => {
                t.change_status(dst);
                self.append(dst, t.text);
                Ok(())
            },
            Err(e) => Err(e),
        }
    }

    /// The columns in the order Backlog, InProgress, Done: what is saved.
    pub fn into_columns(self) -> (r: Vec<Vec<Task>>)
        requires
            self.wf(),
        ensures
            is_saved_form(r@, self@),
    {
        let mut r: Vec<Vec<Task>> = Vec::new();
        r.push(self.backlog);
        r.push(self.in_progress);
        r.push(self.done);
        r
    }

    /// The board that loaded columns give (see `loaded`): `None` stands for a
    /// document that was missing or could not be read. Each task is tagged with
    /// the column that now holds it.
    pub fn from_columns(saved: Option<Vec<Vec<Task>>>) -> (b: Board)
        ensures
            b.wf(),
            b@ == loaded(saved),
    {
        match saved {
            Some(cols) => {
                if cols.len() < 3 {
                    return Board::new();
                }
                let mut cols = cols;
                cols.truncate(3);
                let done = cols.pop().unwrap();
                let in_progress = cols.pop().unwrap();
                let backlog = cols.pop().unwrap();
                Board {
                    backlog: retag(backlog, TaskStatus::Backlog),
                    in_progress: retag(in_progress, TaskStatus::InProgress),
                    done: retag(done, TaskStatus::Done),
                }
            },
            None => Board::new(),
        }
    }

    /// Takes the tasks of column `c` out of the board, leaving that column empty.
    fn take_column(&mut self, c: TaskStatus) -> (v: Vec<Task>)
        ensures
            v@ == old(self).tasks(c),
            final(self).tasks(c) == Seq::<Task>::empty(),
            forall|d: TaskStatus| d != c ==> final(self).tasks(d) == old(self).tasks(d),
    {
        let mut v: Vec<Task> = Vec::new();
        match c {
            TaskStatus::Backlog => core::mem::swap(&mut v, &mut self.backlog),
            TaskStatus::InProgress => core::mem::swap(&mut v, &mut self.in_progress),
            TaskStatus::Done => core::mem::swap(&mut v, &mut self.done),
        }
        v
    }

    /// Puts `v` in place of the tasks of column `c`.
    fn put_column(&mut self, c: TaskStatus, v: Vec<Task>)
        ensures
            final(self).tasks(c) == v@,
            forall|d: TaskStatus| d != c ==> final(self).tasks(d) == old(self).tasks(d),
    {
        match c {
            TaskStatus::Backlog => self.backlog = v,
            TaskStatus::InProgress => self.in_progress = v,
            TaskStatus::Done => self.done = v,
        }
    }
}

} // verus!
