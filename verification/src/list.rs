//! A named list of items and the operations that change it.

use vstd::prelude::*;
use crate::error::TodoError;
use crate::item::{restored_item, text_of, ItemView, Priority, Status, TodoItem};
use crate::time::{Date, Timestamp};

verus! {

/// The greatest id among `items`, or 0 where there is none.
pub open spec fn max_id_of(items: Seq<ItemView>) -> int
    decreases items.len(),
{
    if items.len() == 0 {
        0
    } else {
        let rest = max_id_of(items.drop_last());
        if items.last().id > rest {
            items.last().id as int
        } else {
            rest
        }
    }
}

/// What a list is, as plain values. The items stand in the order in which
/// they were added.
pub struct ListView {
    pub name: Seq<char>,
    pub items: Seq<ItemView>,
    pub created_at: Timestamp,
    pub last_modified: Timestamp,
}

impl ListView {
    /// A list is valid when its name is not empty, each item is valid and no
    /// two items share an id.
    pub open spec fn wf(self) -> bool {
        &&& self.name.len() > 0
        &&& forall|i: int| 0 <= i < self.items.len() ==> (#[trigger] self.items[i]).wf()
        &&& forall|i: int, j: int|
            0 <= i < j < self.items.len() ==> (#[trigger] self.items[i]).id != (
            #[trigger] self.items[j]).id
    }

    /// The empty list called `name`, made at `now`.
    pub open spec fn empty(name: Seq<char>, now: Timestamp) -> ListView {
        ListView { name, items: Seq::empty(), created_at: now, last_modified: now }
    }

    /// Whether some item has the id `id`.
    pub open spec fn contains_id(self, id: u32) -> bool {
        exists|i: int| 0 <= i < self.items.len() && (#[trigger] self.items[i]).id == id
    }

    /// The place of an item with the id `id`. In a valid list that holds the
    /// id there is one such place.
    pub open spec fn index_of(self, id: u32) -> int {
        choose|i: int| 0 <= i < self.items.len() && (#[trigger] self.items[i]).id == id
    }

    /// The greatest id in the list, or 0 where it is empty.
    pub open spec fn max_id(self) -> int {
        max_id_of(self.items)
    }

    /// The id that the next added item gets: one more than the greatest id,
    /// so 1 in an empty list.
    pub open spec fn next_id(self) -> int {
        self.max_id() + 1
    }

    /// The list after an item was added at `now`.
    pub open spec fn added(
        self,
        title: Seq<char>,
        description: Option<Seq<char>>,
        priority: Priority,
        due_date: Option<Date>,
        status: Status,
        now: Timestamp,
    ) -> ListView {
        ListView {
            items: self.items.push(
                ItemView::fresh(
                    self.next_id() as u32,
                    title,
                    description,
                    priority,
                    due_date,
                    status,
                    now,
                ),
            ),
            last_modified: now,
            ..self
        }
    }

    /// The list after the item with the id `id` was removed at `now`; the
    /// list itself where no item has that id.
    pub open spec fn removed(self, id: u32, now: Timestamp) -> ListView {
        if self.contains_id(id) {
            ListView { items: self.items.remove(self.index_of(id)), last_modified: now, ..self }
        } else {
            self
        }
    }

    /// The list after `item` took the place of the item with the id `id` at
    /// `now`; the list itself where no item has that id.
    pub open spec fn replaced(self, id: u32, item: ItemView, now: Timestamp) -> ListView {
        if self.contains_id(id) {
            ListView {
                items: self.items.update(self.index_of(id), item),
                last_modified: now,
                ..self
            }
        } else {
            self
        }
    }

    /// The list after the item with the id `id` was toggled at `now`.
    pub open spec fn toggled(self, id: u32, now: Timestamp) -> ListView {
        self.replaced(id, self.items[self.index_of(id)].toggled(now), now)
    }

    /// The list after the item with the id `id` took on `status` at `now`.
    pub open spec fn with_status(self, id: u32, status: Status, now: Timestamp) -> ListView {
        self.replaced(id, self.items[self.index_of(id)].with_status(status, now), now)
    }

    /// The list after the item with the id `id` got the priority `priority` at `now`.
    pub open spec fn with_priority(self, id: u32, priority: Priority, now: Timestamp) -> ListView {
        self.replaced(id, self.items[self.index_of(id)].with_priority(priority), now)
    }

    /// The list after the item with the id `id` got the due date `due_date` at `now`.
    pub open spec fn with_due_date(
        self,
        id: u32,
        due_date: Option<Date>,
        now: Timestamp,
    ) -> ListView {
        self.replaced(id, self.items[self.index_of(id)].with_due_date(due_date), now)
    }
}

/// No id in `items` is greater than `max_id_of(items)`, and where there are
/// items one of them has that id.
pub proof fn lemma_max_id_of(items: Seq<ItemView>)
    ensures
        0 <= max_id_of(items) <= u32::MAX,
        forall|i: int| 0 <= i < items.len() ==> (#[trigger] items[i]).id <= max_id_of(items),
        items.len() > 0 ==> exists|i: int|
            0 <= i < items.len() && (#[trigger] items[i]).id == max_id_of(items),
        items.len() == 0 ==> max_id_of(items) == 0,
    decreases items.len(),
{
    if items.len() > 0 {
        let front = items.drop_last();
        lemma_max_id_of(front);
        assert forall|i: int| 0 <= i < items.len() implies (#[trigger] items[i]).id <= max_id_of(
            items,
        ) by {
            if i < front.len() {
                assert(front[i] == items[i]);
            }
        }
        if items.last().id > max_id_of(front) {
            assert(items[items.len() - 1].id == max_id_of(items));
        } else {
            if front.len() > 0 {
                let k = choose|k: int| 0 <= k < front.len() && (#[trigger] front[k]).id == max_id_of(front);
                assert(items[k] == front[k]);
            } else {
                assert(items[items.len() - 1].id == max_id_of(items));
            }
        }
    }
}

/// In a valid list an id stands at one place only: the place that `index_of` gives.
pub proof fn lemma_index_of(list: ListView, id: u32, place: int)
    requires
        list.wf(),
        0 <= place < list.items.len(),
        list.items[place].id == id,
    ensures
        list.contains_id(id),
        list.index_of(id) == place,
{
    let found = list.index_of(id);
    assert(0 <= found < list.items.len() && list.items[found].id == id);
    if found != place {
        if found < place {
            assert(list.items[found].id != list.items[place].id);
        } else {
            assert(list.items[place].id != list.items[found].id);
        }
    }
}

/// Adding an item with a title keeps a list valid, leaves the earlier items
/// as they were, and gives the new item an id greater than every id that was
/// there.
pub proof fn lemma_added(
    list: ListView,
    title: Seq<char>,
    description: Option<Seq<char>>,
    priority: Priority,
    due_date: Option<Date>,
    status: Status,
    now: Timestamp,
)
    requires
        list.wf(),
        title.len() > 0,
        list.max_id() < u32::MAX,
    ensures
        ({
            let after = list.added(title, description, priority, due_date, status, now);
            &&& after.wf()
            &&& after.items.len() == list.items.len() + 1
            &&& after.items.last().id == list.max_id() + 1
            &&& after.max_id() == list.max_id() + 1
            &&& forall|i: int|
                0 <= i < list.items.len() ==> after.items[i] == list.items[i] && (
                #[trigger] list.items[i]).id < after.items.last().id
        }),
{
    let after = list.added(title, description, priority, due_date, status, now);
    lemma_max_id_of(list.items);
    assert(after.items.drop_last() =~= list.items);
    assert forall|i: int, j: int| 0 <= i < j < after.items.len() implies (
    #[trigger] after.items[i]).id != (#[trigger] after.items[j]).id by {
        assert(after.items[i] == list.items[i]);
        if j < list.items.len() {
            assert(after.items[j] == list.items[j]);
        }
    }
}

/// What is needed to make an item: everything but its id.
pub struct Entry {
    pub title: Seq<char>,
    pub description: Option<Seq<char>>,
    pub priority: Priority,
    pub due_date: Option<Date>,
    pub status: Status,
    pub now: Timestamp,
}

impl ListView {
    /// The list after the entries were added one after another.
    pub open spec fn added_all(self, entries: Seq<Entry>) -> ListView
        decreases entries.len(),
    {
        if entries.len() == 0 {
            self
        } else {
            let e = entries.last();
            self.added_all(entries.drop_last()).added(
                e.title,
                e.description,
                e.priority,
                e.due_date,
                e.status,
                e.now,
            )
        }
    }
}

/// Items added one after another to an empty list, each with a title and none
/// removed, get the ids 1, 2, 3 and so on in the order of adding: the ids are
/// distinct and the list is valid.
pub proof fn lemma_ids_count_up(name: Seq<char>, now: Timestamp, entries: Seq<Entry>)
    requires
        name.len() > 0,
        entries.len() < u32::MAX,
        forall|i: int| 0 <= i < entries.len() ==> (#[trigger] entries[i]).title.len() > 0,
    ensures
        ({
            let list = ListView::empty(name, now).added_all(entries);
            &&& list.wf()
            &&& list.name == name
            &&& list.items.len() == entries.len()
            &&& list.max_id() == entries.len()
            &&& forall|i: int| 0 <= i < entries.len() ==> (#[trigger] list.items[i]).id == i + 1
        }),
    decreases entries.len(),
{
    let start = ListView::empty(name, now);
    if entries.len() > 0 {
        let e = entries.last();
        let front = entries.drop_last();
        lemma_ids_count_up(name, now, front);
        let before = start.added_all(front);
        lemma_added(before, e.title, e.description, e.priority, e.due_date, e.status, e.now);
        let list = start.added_all(entries);
        assert forall|i: int| 0 <= i < entries.len() implies (#[trigger] list.items[i]).id == i
            + 1 by {
            if i < front.len() {
                assert(list.items[i] == before.items[i]);
            }
        }
    }
}

/// Removing an id from a valid list takes exactly one item away where the id
/// was there and none where it was not. Afterwards the id is gone, so a
/// second removal finds nothing and changes nothing.
pub proof fn lemma_removed_twice(list: ListView, id: u32, first: Timestamp, second: Timestamp)
    requires
        list.wf(),
    ensures
        ({
            let once = list.removed(id, first);
            &&& once.wf()
            &&& !once.contains_id(id)
            &&& list.contains_id(id) ==> once.items.len() == list.items.len() - 1
            &&& !list.contains_id(id) ==> once == list
            &&& once.removed(id, second) == once
        }),
{
    let once = list.removed(id, first);
    if list.contains_id(id) {
        let place = list.index_of(id);
        assert forall|i: int| 0 <= i < once.items.len() implies (#[trigger] once.items[i]).wf()
            && once.items[i].id != id by {
            if i < place {
                assert(once.items[i] == list.items[i]);
            } else {
                assert(once.items[i] == list.items[i + 1]);
                assert(list.items[place].id != list.items[i + 1].id);
            }
        }
        assert forall|i: int, j: int| 0 <= i < j < once.items.len() implies (
        #[trigger] once.items[i]).id != (#[trigger] once.items[j]).id by {
            let a = if i < place { i } else { i + 1 };
            let b = if j < place { j } else { j + 1 };
            assert(once.items[i] == list.items[a]);
            assert(once.items[j] == list.items[b]);
        }
    }
}

/// Replacing the item with the id `id` by a valid item of the same id keeps a
/// list valid and every other item where and as it was.
pub proof fn lemma_replaced(list: ListView, id: u32, item: ItemView, now: Timestamp)
    requires
        list.wf(),
        list.contains_id(id),
        item.wf(),
        item.id == id,
    ensures
        ({
            let after = list.replaced(id, item, now);
            &&& after.wf()
            &&& after.items.len() == list.items.len()
            &&& after.contains_id(id)
            &&& after.index_of(id) == list.index_of(id)
            &&& after.items[after.index_of(id)] == item
        }),
{
    let after = list.replaced(id, item, now);
    let place = list.index_of(id);
    assert forall|i: int, j: int| 0 <= i < j < after.items.len() implies (
    #[trigger] after.items[i]).id != (#[trigger] after.items[j]).id by {
        assert(after.items[i].id == list.items[i].id);
        assert(after.items[j].id == list.items[j].id);
    }
    assert forall|i: int| 0 <= i < after.items.len() implies (#[trigger] after.items[i]).wf() by {
        if i != place {
            assert(after.items[i] == list.items[i]);
        }
    }
    lemma_index_of(after, id, place);
}

/// Setting the status of an item of a valid list keeps the list valid and
/// every other item as it was. The item has the new status, and a completion
/// time exactly when that status is `Done`: then it is the time of the call.
pub proof fn lemma_status_set_in_list(list: ListView, id: u32, status: Status, now: Timestamp)
    requires
        list.wf(),
        list.contains_id(id),
    ensures
        ({
            let place = list.index_of(id);
            let after = list.with_status(id, status, now);
            &&& after.wf()
            &&& after.last_modified == now
            &&& after.items == list.items.update(place, list.items[place].with_status(status, now))
            &&& after.items[place].status == status
            &&& status == Status::Done ==> after.items[place].completed_at == Some(now)
            &&& status != Status::Done ==> after.items[place].completed_at is None
        }),
{
    let place = list.index_of(id);
    lemma_replaced(list, id, list.items[place].with_status(status, now), now);
}

/// Two toggles of one item in a row leave a valid list with the same items
/// but for that one, which is `Done` again where it was `Done` and `Todo`
/// where it was anything else: an item that was `Todo` or `Done` has its
/// status again. Its completion time is there exactly when it is `Done`.
pub proof fn lemma_toggled_twice_in_list(
    list: ListView,
    id: u32,
    first: Timestamp,
    second: Timestamp,
)
    requires
        list.wf(),
        list.contains_id(id),
    ensures
        ({
            let place = list.index_of(id);
            let item = list.items[place];
            let twice = list.toggled(id, first).toggled(id, second);
            &&& twice.wf()
            &&& twice.last_modified == second
            &&& twice.items == list.items.update(place, item.toggled(first).toggled(second))
            &&& (item.status == Status::Todo || item.status == Status::Done)
                ==> twice.items[place].status == item.status
            &&& twice.items[place].completed_at is Some <==> twice.items[place].status
                == Status::Done
        }),
{
    let place = list.index_of(id);
    let item = list.items[place];
    let once = list.toggled(id, first);
    lemma_replaced(list, id, item.toggled(first), first);
    lemma_replaced(once, id, item.toggled(first).toggled(second), second);
    let twice = once.toggled(id, second);
    assert(twice.items =~= list.items.update(place, item.toggled(first).toggled(second)));
}

/// What `TodoList::restore` makes of stored values: the list that they
/// describe where that is a valid one, and `CorruptData` where it is not.
pub open spec fn restored_list(stored: ListView) -> Result<ListView, TodoError> {
    if stored.wf() {
        Ok(stored)
    } else {
        Err(TodoError::CorruptData)
    }
}

/// A result with the list in it seen as plain values.
pub open spec fn list_result_view(made: Result<TodoList, TodoError>) -> Result<ListView, TodoError> {
    match made {
        Ok(list) => Ok(list@),
        Err(e) => Err(e),
    }
}

/// A valid list that is taken apart and restored from its parts, each item
/// from its own parts, is the same list again, field for field.
pub proof fn lemma_restore_gives_back(list: ListView)
    requires
        list.wf(),
    ensures
        restored_list(list) == Ok::<ListView, TodoError>(list),
        forall|i: int|
            0 <= i < list.items.len() ==> restored_item(#[trigger] list.items[i]) == Ok::<
                ItemView,
                TodoError,
            >(list.items[i]),
{
}

/// The items of a vector as plain values.
pub open spec fn items_view(items: Vec<TodoItem>) -> Seq<ItemView> {
    items@.map_values(|item: TodoItem| item@)
}

/// A named list of items, in the order in which they were added. Its name is
/// never empty and no two of its items share an id.
#[derive(Debug)]
pub struct TodoList {
    name: String,
    items: Vec<TodoItem>,
    created_at: Timestamp,
    last_modified: Timestamp,
}

impl View for TodoList {
    type V = ListView;

    closed spec fn view(&self) -> ListView {
        ListView {
            name: self.name@,
            items: items_view(self.items),
            created_at: self.created_at,
            last_modified: self.last_modified,
        }
    }
}

impl TodoList {
    #[verifier::type_invariant]
    closed spec fn valid(&self) -> bool {
        self@.wf()
    }

    /// Moves the items out and leaves the list empty. The items are changed
    /// outside the list and put back with `put_items`, so that the list is
    /// valid after every step.
    fn take_items(&mut self) -> (items: Vec<TodoItem>)
        ensures
            old(self)@.wf(),
            items_view(items) == old(self)@.items,
            final(self)@ == (ListView { items: Seq::empty(), ..old(self)@ }),
    {
        proof {
            use_type_invariant(&*self);
        }
        let mut items = Vec::new();
        core::mem::swap(&mut self.items, &mut items);
        assert(self@.items =~= Seq::empty());
        items
    }

    /// Makes `items` the items of the list, changed at `now`.
    fn put_items(&mut self, items: Vec<TodoItem>, now: Timestamp)
        requires
            (ListView { items: items_view(items), ..old(self)@ }).wf(),
        ensures
            final(self)@ == (ListView {
                items: items_view(items),
                last_modified: now,
                ..old(self)@
            }),
    {
        let mut items = items;
        core::mem::swap(&mut self.items, &mut items);
        self.last_modified = now;
    }

    /// Makes an empty list at the time `now`. An empty name is refused.
    pub fn new(name: String, now: Timestamp) -> (made: Result<TodoList, TodoError>)
        ensures
            name@.len() == 0 ==> made == Err::<TodoList, TodoError>(TodoError::InvalidInput),
            name@.len() > 0 ==> made is Ok && made->Ok_0@ == ListView::empty(name@, now),
    {
        if name.as_str().is_empty() {
            return Err(TodoError::InvalidInput);
        }
        let list = TodoList { name, items: Vec::new(), created_at: now, last_modified: now };
        assert(list@.items =~= Seq::empty());
        Ok(list)
    }

    /// The name of the list.
    pub fn name(&self) -> (name: &String)
        ensures
            name@ == self@.name,
            name@.len() > 0,
    {
        proof {
            use_type_invariant(self);
        }
        &self.name
    }

    /// When the list was made.
    pub fn created_at(&self) -> (created_at: Timestamp)
        ensures
            created_at == self@.created_at,
    {
        self.created_at
    }

    /// When the list was last changed.
    pub fn last_modified(&self) -> (last_modified: Timestamp)
        ensures
            last_modified == self@.last_modified,
    {
        self.last_modified
    }

    /// The items in the order in which they were added.
    pub fn items(&self) -> (items: &Vec<TodoItem>)
        ensures
            self@.wf(),
            items_view(*items) == self@.items,
    {
        proof {
            use_type_invariant(self);
        }
        &self.items
    }

    /// The number of items.
    pub fn len(&self) -> (n: usize)
        ensures
            n == self@.items.len(),
    {
        self.items.len()
    }

    /// The item at the place `index`, counted from 0 in the order of adding.
    pub fn get(&self, index: usize) -> (item: Option<&TodoItem>)
        ensures
            self@.wf(),
            index < self@.items.len() ==> item is Some && item->Some_0@ == self@.items[index as int],
            index >= self@.items.len() ==> item is None,
    {
        proof {
            use_type_invariant(self);
        }
        if index < self.items.len() {
            Some(&self.items[index])
        } else {
            None
        }
    }

    /// The greatest id in the list, or 0 where it is empty.
    pub fn max_id(&self) -> (max: u32)
        ensures
            max == self@.max_id(),
    {
        let mut max: u32 = 0;
        let mut i: usize = 0;
        while i < self.items.len()
            invariant
                i <= self.items.len(),
                max == max_id_of(self@.items.take(i as int)),
            decreases self.items.len() - i,
        {
            let id = self.items[i].id();
            proof {
                let next = self@.items.take(i + 1);
                assert(next.drop_last() =~= self@.items.take(i as int));
                assert(next.last() == self.items[i as int]@);
            }
            if id > max {
                max = id;
            }
            i += 1;
        }
        assert(self@.items.take(i as int) =~= self@.items);
        max
    }

    /// The place of the item with the id `id`, where there is one.
    pub fn position(&self, id: u32) -> (place: Option<usize>)
        ensures
            self@.wf(),
            place is Some <==> self@.contains_id(id),
            place is Some ==> place->Some_0 == self@.index_of(id),
    {
        proof {
            use_type_invariant(self);
        }
        let mut i: usize = 0;
        while i < self.items.len()
            invariant
                self@.wf(),
                i <= self.items.len(),
                forall|j: int| 0 <= j < i ==> (#[trigger] self@.items[j]).id != id,
            decreases self.items.len() - i,
        {
            if self.items[i].id() == id {
                assert(self@.items[i as int].id == id);
                return Some(i);
            }
            i += 1;
        }
        None
    }

    /// The item with the id `id`, where there is one.
    pub fn find(&self, id: u32) -> (item: Option<&TodoItem>)
        ensures
            item is Some <==> self@.contains_id(id),
            item is Some ==> item->Some_0@ == self@.items[self@.index_of(id)],
    {
        match self.position(id) {
            Some(i) => Some(&self.items[i]),
            None => None,
        }
    }

    /// Adds an item at the time `now` and returns its id: one more than the
    /// greatest id in the list, which therefore has to be less than the
    /// greatest number that an id can be. An empty title is refused and
    /// leaves the list as it was, whatever ids the list holds.
    pub fn add_at(
        &mut self,
        title: String,
        description: Option<String>,
        priority: Priority,
        due_date: Option<Date>,
        status: Status,
        now: Timestamp,
    ) -> (added: Result<u32, TodoError>)
        requires
            title@.len() > 0 ==> old(self)@.max_id() < u32::MAX,
        ensures
            final(self)@.wf(),
            title@.len() == 0 ==> {
                &&& added == Err::<u32, TodoError>(TodoError::InvalidInput)
                &&& final(self)@ == old(self)@
            },
            title@.len() > 0 ==> {
                &&& added == Ok::<u32, TodoError>(old(self)@.next_id() as u32)
                &&& final(self)@ == old(self)@.added(
                    title@,
                    text_of(description),
                    priority,
                    due_date,
                    status,
                    now,
                )
            },
    {
        proof {
            use_type_invariant(&*self);
        }
        if title.as_str().is_empty() {
            return Err(TodoError::InvalidInput);
        }
        let id = self.max_id() + 1;
        let item = match TodoItem::new(id, title, description, priority, due_date, status, now) {
            Ok(item) => item,
            Err(e) => {
                return Err(e);
            },
        };
        proof {
            lemma_max_id_of(self@.items);
        }
        let mut items = self.take_items();
        items.push(item);
        proof {
            let before = old(self)@.items;
            assert(items_view(items) =~= before.push(item@));
            assert forall|i: int| 0 <= i < before.len() implies (#[trigger] items_view(
                items,
            )[i]).id != id by {
                assert(before[i].id <= max_id_of(before));
            }
        }
        self.put_items(items, now);
        Ok(id)
    }

    /// Removes the item with the id `id` at the time `now` and says whether
    /// there was one. Where there was none the list stays as it was.
    pub fn remove_at(&mut self, id: u32, now: Timestamp) -> (found: bool)
        ensures
            final(self)@.wf(),
            found == old(self)@.contains_id(id),
            final(self)@ == old(self)@.removed(id, now),
    {
        let place = match self.position(id) {
            Some(place) => place,
            None => {
                return false;
            },
        };
        let mut items = self.take_items();
        items.remove(place);
        proof {
            let before = old(self)@.items;
            assert(items_view(items) =~= before.remove(place as int));
        }
        self.put_items(items, now);
        true
    }

    /// Flips the item with the id `id` between `Done` and not done at the time
    /// `now` and says whether there was one. Where there was none the list
    /// stays as it was.
    pub fn toggle_at(&mut self, id: u32, now: Timestamp) -> (found: bool)
        ensures
            final(self)@.wf(),
            found == old(self)@.contains_id(id),
            final(self)@ == old(self)@.toggled(id, now),
    {
        let place = match self.position(id) {
            Some(place) => place,
            None => {
                return false;
            },
        };
        let mut items = self.take_items();
        items[place].toggle(now);
        proof {
            let before = old(self)@.items;
            assert(items_view(items) =~= before.update(place as int, items[place as int]@));
        }
        self.put_items(items, now);
        true
    }

    /// Sets the status of the item with the id `id` at the time `now` and says
    /// whether there was one. Where there was none the list stays as it was.
    pub fn set_status(&mut self, id: u32, status: Status, now: Timestamp) -> (found: bool)
        ensures
            final(self)@.wf(),
            found == old(self)@.contains_id(id),
            final(self)@ == old(self)@.with_status(id, status, now),
    {
        let place = match self.position(id) {
            Some(place) => place,
            None => {
                return false;
            },
        };
        let mut items = self.take_items();
        items[place].set_status(status, now);
        proof {
            let before = old(self)@.items;
            assert(items_view(items) =~= before.update(place as int, items[place as int]@));
        }
        self.put_items(items, now);
        true
    }

    /// Sets the priority of the item with the id `id` at the time `now` and
    /// says whether there was one. Where there was none the list stays as it was.
    pub fn set_priority(&mut self, id: u32, priority: Priority, now: Timestamp) -> (found: bool)
        ensures
            final(self)@.wf(),
            found == old(self)@.contains_id(id),
            final(self)@ == old(self)@.with_priority(id, priority, now),
    {
        let place = match self.position(id) {
            Some(place) => place,
            None => {
                return false;
            },
        };
        let mut items = self.take_items();
        items[place].set_priority(priority);
        proof {
            let before = old(self)@.items;
            assert(items_view(items) =~= before.update(place as int, items[place as int]@));
        }
        self.put_items(items, now);
        true
    }

    /// Sets or clears the due date of the item with the id `id` at the time
    /// `now` and says whether there was one. Where there was none the list
    /// stays as it was.
    pub fn set_due_date(&mut self, id: u32, due_date: Option<Date>, now: Timestamp) -> (found: bool)
        ensures
            final(self)@.wf(),
            found == old(self)@.contains_id(id),
            final(self)@ == old(self)@.with_due_date(id, due_date, now),
    {
        let place = match self.position(id) {
            Some(place) => place,
            None => {
                return false;
            },
        };
        let mut items = self.take_items();
        items[place].set_due_date(due_date);
        proof {
            let before = old(self)@.items;
            assert(items_view(items) =~= before.update(place as int, items[place as int]@));
        }
        self.put_items(items, now);
        true
    }

    /// Puts a list together from stored values. Values that make no valid
    /// list (an empty name, an id that two items share) are refused as corrupt.
    pub fn restore(
        name: String,
        items: Vec<TodoItem>,
        created_at: Timestamp,
        last_modified: Timestamp,
    ) -> (made: Result<TodoList, TodoError>)
        ensures
            list_result_view(made) == restored_list(
                ListView { name: name@, items: items_view(items), created_at, last_modified },
            ),
    {
        let ghost stored = ListView {
            name: name@,
            items: items_view(items),
            created_at,
            last_modified,
        };
        if name.as_str().is_empty() {
            return Err(TodoError::CorruptData);
        }
        let n = items.len();
        let mut j: usize = 0;
        while j < n
            invariant
                n == items.len(),
                stored.items == items_view(items),
                j <= n,
                forall|b: int| 0 <= b < j ==> (#[trigger] stored.items[b]).wf(),
                forall|a: int, b: int|
                    0 <= a < b < j ==> (#[trigger] stored.items[a]).id != (
                    #[trigger] stored.items[b]).id,
            decreases n - j,
        {
            let id = items[j].id();
            let mut i: usize = 0;
            while i < j
                invariant
                    n == items.len(),
                    stored.items == items_view(items),
                    i <= j < n,
                    id == stored.items[j as int].id,
                    forall|a: int| 0 <= a < i ==> (#[trigger] stored.items[a]).id != id,
                decreases j - i,
            {
                if items[i].id() == id {
                    assert(stored.items[i as int].id == stored.items[j as int].id);
                    return Err(TodoError::CorruptData);
                }
                i += 1;
            }
            j += 1;
        }
        Ok(TodoList { name, items, created_at, last_modified })
    }

    /// Adds an item with the given title and description at the time that
    /// the clock shows, with the priority `Low`, no due date and the status
    /// `Todo`, and returns its id. An empty title is refused and leaves the
    /// list as it was.
    pub fn add_item(&mut self, title: String, description: Option<String>) -> (added: Result<
        u32,
        TodoError,
    >)
        requires
            title@.len() > 0 ==> old(self)@.max_id() < u32::MAX,
        ensures
            final(self)@.wf(),
            title@.len() == 0 ==> {
                &&& added == Err::<u32, TodoError>(TodoError::InvalidInput)
                &&& final(self)@ == old(self)@
            },
            title@.len() > 0 ==> {
                &&& added == Ok::<u32, TodoError>(old(self)@.next_id() as u32)
                &&& exists|now: Timestamp|
                    final(self)@ == #[trigger] old(self)@.added(
                        title@,
                        text_of(description),
                        Priority::Low,
                        None,
                        Status::Todo,
                        now,
                    )
            },
    {
        let now = Timestamp::now();
        self.add_at(title, description, Priority::Low, None, Status::Todo, now)
    }

    /// Removes the item with the id `id` at the time that the clock shows and
    /// says whether there was one.
    pub fn remove_item(&mut self, id: u32) -> (found: bool)
        ensures
            final(self)@.wf(),
            found == old(self)@.contains_id(id),
            exists|now: Timestamp| final(self)@ == #[trigger] old(self)@.removed(id, now),
    {
        let now = Timestamp::now();
        self.remove_at(id, now)
    }

    /// Flips the item with the id `id` between `Done` and not done at the
    /// time that the clock shows and says whether there was one.
    pub fn toggle_item(&mut self, id: u32) -> (found: bool)
        ensures
            final(self)@.wf(),
            found == old(self)@.contains_id(id),
            exists|now: Timestamp| final(self)@ == #[trigger] old(self)@.toggled(id, now),
    {
        let now = Timestamp::now();
        self.toggle_at(id, now)
    }
}

/// Makes an empty list called `name` at the time that the clock shows. An
/// empty name is refused.
pub fn create_list(name: String) -> (made: Result<TodoList, TodoError>)
    ensures
        name@.len() == 0 ==> made == Err::<TodoList, TodoError>(TodoError::InvalidInput),
        name@.len() > 0 ==> made is Ok && exists|now: Timestamp|
            made->Ok_0@ == #[trigger] ListView::empty(name@, now),
{
    let now = Timestamp::now();
    TodoList::new(name, now)
}

} // verus!
