//! A single task: its status, its priority and what can be asked of it.

use vstd::prelude::*;
use crate::error::TodoError;
use crate::time::{Date, Timestamp};

verus! {

/// How urgent an item is. The order is `Low < Medium < High < Critical`.
#[derive(Clone, Copy, Debug, PartialEq, Eq, Structural)]
pub enum Priority {
    Low,
    Medium,
    High,
    Critical,
}

/// How far an item has got. `Done` is the only finished state.
#[derive(Clone, Copy, Debug, PartialEq, Eq, Structural)]
pub enum Status {
    Todo,
    InProgress,
    Waiting,
    Done,
}

/// The status that a stored item has: the stored status where there is
/// one; else what the stored flag for a finished item says, `Done` for a
/// finished item and `Todo` for any other; and with neither of the two the
/// item is corrupt.
pub open spec fn stored_status(status: Option<Status>, completed: Option<bool>) -> Result<
    Status,
    TodoError,
> {
    match (status, completed) {
        (Some(status), _) => Ok(status),
        (None, Some(completed)) => Ok(
            if completed {
                Status::Done
            } else {
                Status::Todo
            },
        ),
        (None, None) => Err(TodoError::CorruptData),
    }
}

impl Status {
    /// The status of a stored item, of which a status, a flag for a finished
    /// item, both or neither may be stored.
    pub fn from_stored(status: Option<Status>, completed: Option<bool>) -> (made: Result<
        Status,
        TodoError,
    >)
        ensures
            made == stored_status(status, completed),
    {
        match (status, completed) {
            (Some(status), _) => Ok(status),
            (None, Some(completed)) => Ok(Status::from_completed(completed)),
            (None, None) => Err(TodoError::CorruptData),
        }
    }

    /// The status of an item of which only finished or unfinished is known:
    /// `Done` for a finished one, `Todo` for any other.
    pub fn from_completed(completed: bool) -> (status: Status)
        ensures
            status == if completed {
                Status::Done
            } else {
                Status::Todo
            },
    {
        if completed {
            Status::Done
        } else {
            Status::Todo
        }
    }
}

impl Priority {
    /// The place of a priority in the order: 0 for `Low` up to 3 for `Critical`.
    pub open spec fn rank_spec(self) -> int {
        match self {
            Priority::Low => 0,
            Priority::Medium => 1,
            Priority::High => 2,
            Priority::Critical => 3,
        }
    }

    /// The place of a priority in the order: 0 for `Low` up to 3 for `Critical`.
    pub fn rank(&self) -> (r: u8)
        ensures
            r == self.rank_spec(),
    {
        match self {
            Priority::Low => 0,
            Priority::Medium => 1,
            Priority::High => 2,
            Priority::Critical => 3,
        }
    }
}

/// The text of an optional string.
pub open spec fn text_of(text: Option<String>) -> Option<Seq<char>> {
    match text {
        Some(s) => Some(s@),
        None => None,
    }
}

/// A result with the item in it seen as plain values.
pub open spec fn item_result_view(made: Result<TodoItem, TodoError>) -> Result<ItemView, TodoError> {
    match made {
        Ok(item) => Ok(item@),
        Err(e) => Err(e),
    }
}

/// What an item is, as plain values.
pub struct ItemView {
    pub id: u32,
    pub title: Seq<char>,
    pub description: Option<Seq<char>>,
    pub status: Status,
    pub priority: Priority,
    pub due_date: Option<Date>,
    pub created_at: Timestamp,
    pub completed_at: Option<Timestamp>,
}

impl ItemView {
    /// An item is valid when its title is not empty and it has a completion
    /// time exactly when it is `Done`.
    pub open spec fn wf(self) -> bool {
        &&& self.title.len() > 0
        &&& (self.completed_at is Some <==> self.status == Status::Done)
    }

    /// The completion time that goes with a status taken on at `now`.
    pub open spec fn completion_for(status: Status, now: Timestamp) -> Option<Timestamp> {
        if status == Status::Done {
            Some(now)
        } else {
            None
        }
    }

    /// The item as it is made at `now`.
    pub open spec fn fresh(
        id: u32,
        title: Seq<char>,
        description: Option<Seq<char>>,
        priority: Priority,
        due_date: Option<Date>,
        status: Status,
        now: Timestamp,
    ) -> ItemView {
        ItemView {
            id,
            title,
            description,
            status,
            priority,
            due_date,
            created_at: now,
            completed_at: Self::completion_for(status, now),
        }
    }

    /// The item set back to `Todo`, with no completion time.
    pub open spec fn reopened(self) -> ItemView {
        ItemView { status: Status::Todo, completed_at: None, ..self }
    }

    /// The item after its status was set to `status` at `now`.
    pub open spec fn with_status(self, status: Status, now: Timestamp) -> ItemView {
        ItemView { status, completed_at: Self::completion_for(status, now), ..self }
    }

    /// The status that a toggle leads to: `Todo` from `Done`, `Done` from any other.
    pub open spec fn toggled_status(self) -> Status {
        if self.status == Status::Done {
            Status::Todo
        } else {
            Status::Done
        }
    }

    /// The item after a toggle at `now`.
    pub open spec fn toggled(self, now: Timestamp) -> ItemView {
        self.with_status(self.toggled_status(), now)
    }

    /// The item with another priority.
    pub open spec fn with_priority(self, priority: Priority) -> ItemView {
        ItemView { priority, ..self }
    }

    /// The item with another due date, or none.
    pub open spec fn with_due_date(self, due_date: Option<Date>) -> ItemView {
        ItemView { due_date, ..self }
    }

    /// An item is overdue on the day `today` when it has a due date before
    /// that day and is not `Done`.
    pub open spec fn is_overdue(self, today: Date) -> bool {
        match self.due_date {
            Some(due) => self.status != Status::Done && due.days < today.days,
            None => false,
        }
    }

    /// The whole days from `today` to the due date, where there is one.
    pub open spec fn days_until_due(self, today: Date) -> Option<int> {
        match self.due_date {
            Some(due) => Some(due.days_since_spec(today)),
            None => None,
        }
    }
}

/// What `TodoItem::restore` makes of stored values: the item that they
/// describe where that is a valid one, and `CorruptData` where it is not.
pub open spec fn restored_item(stored: ItemView) -> Result<ItemView, TodoError> {
    if stored.wf() {
        Ok(stored)
    } else {
        Err(TodoError::CorruptData)
    }
}

/// Setting a status keeps an item valid and fixes its completion time: `Done`
/// records the time of the call, any other status leaves none.
pub proof fn lemma_status_fixes_completion(item: ItemView, status: Status, now: Timestamp)
    requires
        item.wf(),
    ensures
        item.with_status(status, now).wf(),
        item.with_status(status, now).status == status,
        status == Status::Done ==> item.with_status(status, now).completed_at == Some(now),
        status != Status::Done ==> item.with_status(status, now).completed_at is None,
{
}

/// Two toggles in a row lead back to `Done` from `Done` and to `Todo` from
/// any other status, so an item that was `Todo` or `Done` has its status
/// again. The completion time is there exactly when the status is `Done`,
/// and nothing else of the item changes.
pub proof fn lemma_toggled_twice(item: ItemView, first: Timestamp, second: Timestamp)
    requires
        item.wf(),
    ensures
        ({
            let twice = item.toggled(first).toggled(second);
            &&& twice.wf()
            &&& item.status == Status::Done ==> twice.status == Status::Done && twice.completed_at
                == Some(second)
            &&& item.status != Status::Done ==> twice.status == Status::Todo && twice.completed_at
                is None
            &&& (item.status == Status::Todo || item.status == Status::Done) ==> twice.status
                == item.status
            &&& twice == (ItemView {
                status: twice.status,
                completed_at: twice.completed_at,
                ..item
            })
        }),
{
}

/// An item that is `Done` is not overdue on any day, whatever its due date.
pub proof fn lemma_done_never_overdue(item: ItemView, today: Date)
    requires
        item.status == Status::Done,
    ensures
        !item.is_overdue(today),
{
}

/// How far an item has got, with the time at which it was finished.
#[derive(Clone, Copy, Debug)]
enum Progress {
    Todo,
    InProgress,
    Waiting,
    Done { at: Timestamp },
}

impl Progress {
    spec fn status(self) -> Status {
        match self {
            Progress::Todo => Status::Todo,
            Progress::InProgress => Status::InProgress,
            Progress::Waiting => Status::Waiting,
            Progress::Done { .. } => Status::Done,
        }
    }

    spec fn completed_at(self) -> Option<Timestamp> {
        match self {
            Progress::Done { at } => Some(at),
            _ => None,
        }
    }

    /// The progress of an item that took on `status` at `now`.
    fn entered(status: Status, now: Timestamp) -> (progress: Progress)
        ensures
            progress.status() == status,
            progress.completed_at() == ItemView::completion_for(status, now),
    {
        match status {
            Status::Todo => Progress::Todo,
            Status::InProgress => Progress::InProgress,
            Status::Waiting => Progress::Waiting,
            Status::Done => Progress::Done { at: now },
        }
    }
}

/// A task of a list. Its title is never empty, and it has a completion time
/// exactly when it is `Done`.
#[derive(Debug)]
pub struct TodoItem {
    id: u32,
    title: String,
    description: Option<String>,
    progress: Progress,
    priority: Priority,
    due_date: Option<Date>,
    created_at: Timestamp,
}

impl View for TodoItem {
    type V = ItemView;

    closed spec fn view(&self) -> ItemView {
        ItemView {
            id: self.id,
            title: self.title@,
            description: text_of(self.description),
            status: self.progress.status(),
            priority: self.priority,
            due_date: self.due_date,
            created_at: self.created_at,
            completed_at: self.progress.completed_at(),
        }
    }
}

impl TodoItem {
    #[verifier::type_invariant]
    closed spec fn valid(&self) -> bool {
        self.title@.len() > 0
    }

    /// Makes an item at the time `now`. An empty title is refused.
    pub fn new(
        id: u32,
        title: String,
        description: Option<String>,
        priority: Priority,
        due_date: Option<Date>,
        status: Status,
        now: Timestamp,
    ) -> (made: Result<TodoItem, TodoError>)
        ensures
            title@.len() == 0 ==> made == Err::<TodoItem, TodoError>(TodoError::InvalidInput),
            title@.len() > 0 ==> made is Ok && made->Ok_0@ == ItemView::fresh(
                id,
                title@,
                text_of(description),
                priority,
                due_date,
                status,
                now,
            ),
    {
        if title.as_str().is_empty() {
            return Err(TodoError::InvalidInput);
        }
        Ok(
            TodoItem {
                id,
                title,
                description,
                progress: Progress::entered(status, now),
                priority,
                due_date,
                created_at: now,
            },
        )
    }

    /// Puts an item together from stored values. Values that make no valid
    /// item are refused as corrupt.
    pub fn restore(
        id: u32,
        title: String,
        description: Option<String>,
        status: Status,
        priority: Priority,
        due_date: Option<Date>,
        created_at: Timestamp,
        completed_at: Option<Timestamp>,
    ) -> (made: Result<TodoItem, TodoError>)
        ensures
            item_result_view(made) == restored_item(
                ItemView {
                    id,
                    title: title@,
                    description: text_of(description),
                    status,
                    priority,
                    due_date,
                    created_at,
                    completed_at,
                },
            ),
    {
        if title.as_str().is_empty() {
            return Err(TodoError::CorruptData);
        }
        let progress = match (status, completed_at) {
            (Status::Done, Some(at)) => Progress::Done { at },
            (Status::Todo, None) => Progress::Todo,
            (Status::InProgress, None) => Progress::InProgress,
            (Status::Waiting, None) => Progress::Waiting,
            _ => {
                return Err(TodoError::CorruptData);
            },
        };
        Ok(TodoItem { id, title, description, progress, priority, due_date, created_at })
    }

    /// The id of the item, which no other item of its list has.
    pub fn id(&self) -> (id: u32)
        ensures
            id == self@.id,
            self@.wf(),
    {
        proof {
            use_type_invariant(self);
        }
        self.id
    }

    /// The title, which is never empty.
    pub fn title(&self) -> (title: &String)
        ensures
            title@ == self@.title,
            title@.len() > 0,
    {
        proof {
            use_type_invariant(self);
        }
        &self.title
    }

    /// The description, where there is one.
    pub fn description(&self) -> (description: &Option<String>)
        ensures
            text_of(*description) == self@.description,
    {
        &self.description
    }

    /// How far the item has got.
    pub fn status(&self) -> (status: Status)
        ensures
            status == self@.status,
    {
        match self.progress {
            Progress::Todo => Status::Todo,
            Progress::InProgress => Status::InProgress,
            Progress::Waiting => Status::Waiting,
            Progress::Done { .. } => Status::Done,
        }
    }

    /// How urgent the item is.
    pub fn priority(&self) -> (priority: Priority)
        ensures
            priority == self@.priority,
    {
        self.priority
    }

    /// The day on which the item is due, where it has one.
    pub fn due_date(&self) -> (due_date: Option<Date>)
        ensures
            due_date == self@.due_date,
    {
        self.due_date
    }

    /// When the item was made.
    pub fn created_at(&self) -> (created_at: Timestamp)
        ensures
            created_at == self@.created_at,
    {
        self.created_at
    }

    /// When the item was finished: a time exactly when it is `Done`.
    pub fn completed_at(&self) -> (completed_at: Option<Timestamp>)
        ensures
            completed_at == self@.completed_at,
            completed_at is Some <==> self@.status == Status::Done,
    {
        match self.progress {
            Progress::Done { at } => Some(at),
            _ => None,
        }
    }

    /// Whether the item is `Done`.
    pub fn is_done(&self) -> (done: bool)
        ensures
            done == (self@.status == Status::Done),
    {
        match self.progress {
            Progress::Done { .. } => true,
            _ => false,
        }
    }

    /// Sets the status at the time `now`: `Done` records `now` as the
    /// completion time, any other status clears it.
    pub fn set_status(&mut self, status: Status, now: Timestamp)
        ensures
            final(self)@ == old(self)@.with_status(status, now),
    {
        proof {
            use_type_invariant(&*self);
        }
        self.progress = Progress::entered(status, now);
    }

    /// Marks the item `Done` at the time `now`.
    pub fn mark_completed(&mut self, now: Timestamp)
        ensures
            final(self)@ == old(self)@.with_status(Status::Done, now),
    {
        self.set_status(Status::Done, now);
    }

    /// Marks the item `Todo` and clears its completion time.
    pub fn mark_incomplete(&mut self)
        ensures
            final(self)@ == old(self)@.reopened(),
    {
        proof {
            use_type_invariant(&*self);
        }
        self.progress = Progress::Todo;
    }

    /// Flips the item between `Done` and not done at the time `now`.
    pub fn toggle(&mut self, now: Timestamp)
        ensures
            final(self)@ == old(self)@.toggled(now),
    {
        if self.is_done() {
            self.mark_incomplete();
        } else {
            self.mark_completed(now);
        }
    }

    /// Gives the item another priority.
    pub fn set_priority(&mut self, priority: Priority)
        ensures
            final(self)@ == old(self)@.with_priority(priority),
    {
        proof {
            use_type_invariant(&*self);
        }
        self.priority = priority;
    }

    /// Gives the item another due date, or none.
    pub fn set_due_date(&mut self, due_date: Option<Date>)
        ensures
            final(self)@ == old(self)@.with_due_date(due_date),
    {
        proof {
            use_type_invariant(&*self);
        }
        self.due_date = due_date;
    }

    /// Whether the item is overdue on the day `today`.
    pub fn is_overdue(&self, today: Date) -> (overdue: bool)
        ensures
            overdue == self@.is_overdue(today),
    {
        match self.due_date {
            Some(due) => !self.is_done() && due.is_before(today),
            None => false,
        }
    }

    /// The whole days from `today` to the due date, where there is one.
    pub fn days_until_due(&self, today: Date) -> (days: Option<i64>)
        ensures
            match days {
                Some(n) => self@.days_until_due(today) == Some(n as int),
                None => self@.days_until_due(today) is None,
            },
    {
        match self.due_date {
            Some(due) => Some(due.days_since(today)),
            None => None,
        }
    }
}

} // verus!
