use todo_lists::error::TodoError;
use todo_lists::item::{Priority, Status, TodoItem};
use todo_lists::list::{create_list, TodoList};
use todo_lists::time::{Date, Timestamp};

fn at(secs: i64) -> Timestamp {
    Timestamp { secs, nanos: 0 }
}

fn ids(list: &TodoList) -> Vec<u32> {
    list.items().iter().map(|item| item.id()).collect()
}

fn sample() -> TodoList {
    let mut list = TodoList::new(String::from("Groceries"), at(100)).unwrap();
    list.add_at(String::from("Milk"), None, Priority::Low, None, Status::Todo, at(101)).unwrap();
    list.add_at(
        String::from("Eggs"),
        Some(String::from("dozen")),
        Priority::High,
        Some(Date::from_days(739_000)),
        Status::InProgress,
        at(102),
    )
    .unwrap();
    list.add_at(String::from("Bread"), None, Priority::Medium, None, Status::Done, at(103))
        .unwrap();
    list
}

#[test]
fn new_list_is_empty() {
    let list = TodoList::new(String::from("Groceries"), at(7)).unwrap();
    assert_eq!(list.name(), "Groceries");
    assert_eq!(list.len(), 0);
    assert_eq!(list.created_at(), at(7));
    assert_eq!(list.last_modified(), at(7));
    assert_eq!(list.max_id(), 0);
    assert!(list.get(0).is_none());
}

#[test]
fn new_list_refuses_empty_name() {
    assert_eq!(TodoList::new(String::new(), at(7)).err(), Some(TodoError::InvalidInput));
    assert_eq!(create_list(String::new()).err(), Some(TodoError::InvalidInput));
}

#[test]
fn create_list_reads_the_clock_once() {
    let list = create_list(String::from("Work")).unwrap();
    assert_eq!(list.name(), "Work");
    assert_eq!(list.len(), 0);
    assert_eq!(list.created_at(), list.last_modified());
    assert!(list.created_at().secs > 1_600_000_000);
}

#[test]
fn groceries_scenario() {
    let mut list = TodoList::new(String::from("Groceries"), at(1)).unwrap();
    assert_eq!(list.add_item(String::from("Milk"), None), Ok(1));
    {
        let milk = list.find(1).unwrap();
        assert_eq!(milk.status(), Status::Todo);
        assert_eq!(milk.priority(), Priority::Low);
        assert_eq!(milk.title(), "Milk");
        assert_eq!(milk.description(), &None);
        assert_eq!(milk.due_date(), None);
        assert_eq!(milk.completed_at(), None);
    }
    assert_eq!(list.add_item(String::from("Eggs"), Some(String::from("dozen"))), Ok(2));
    assert_eq!(list.find(2).unwrap().description(), &Some(String::from("dozen")));
    assert!(list.remove_item(1));
    assert_eq!(list.add_item(String::from("Bread"), None), Ok(3));
    assert_eq!(ids(&list), vec![2, 3]);
}

#[test]
fn ids_count_up_from_one() {
    let mut list = TodoList::new(String::from("Chores"), at(1)).unwrap();
    for n in 1..=20u32 {
        let id = list
            .add_at(format!("task {}", n), None, Priority::Low, None, Status::Todo, at(n as i64))
            .unwrap();
        assert_eq!(id, n);
    }
    assert_eq!(ids(&list), (1..=20u32).collect::<Vec<u32>>());
    assert_eq!(list.max_id(), 20);
}

#[test]
fn id_follows_the_greatest_not_the_count() {
    let mut list = sample();
    assert!(list.remove_at(2, at(200)));
    assert_eq!(list.len(), 2);
    let id = list
        .add_at(String::from("Tea"), None, Priority::Low, None, Status::Todo, at(201))
        .unwrap();
    assert_eq!(id, 4);
    assert!(list.remove_at(4, at(202)));
    assert!(list.remove_at(3, at(203)));
    let id = list
        .add_at(String::from("Jam"), None, Priority::Low, None, Status::Todo, at(204))
        .unwrap();
    assert_eq!(id, 2);
    assert_eq!(ids(&list), vec![1, 2]);
}

#[test]
fn add_sets_every_field() {
    let list = sample();
    let eggs = list.get(1).unwrap();
    assert_eq!(eggs.id(), 2);
    assert_eq!(eggs.title(), "Eggs");
    assert_eq!(eggs.description(), &Some(String::from("dozen")));
    assert_eq!(eggs.priority(), Priority::High);
    assert_eq!(eggs.due_date(), Some(Date::from_days(739_000)));
    assert_eq!(eggs.status(), Status::InProgress);
    assert_eq!(eggs.created_at(), at(102));
    assert_eq!(eggs.completed_at(), None);
    let bread = list.get(2).unwrap();
    assert_eq!(bread.status(), Status::Done);
    assert_eq!(bread.completed_at(), Some(at(103)));
    assert_eq!(list.last_modified(), at(103));
    assert_eq!(list.created_at(), at(100));
}

#[test]
fn add_refuses_empty_title() {
    let mut list = sample();
    let got = list.add_at(String::new(), None, Priority::Low, None, Status::Todo, at(500));
    assert_eq!(got, Err(TodoError::InvalidInput));
    assert_eq!(list.len(), 3);
    assert_eq!(list.last_modified(), at(103));
    assert_eq!(list.add_item(String::new(), None), Err(TodoError::InvalidInput));
    assert_eq!(list.len(), 3);
}

#[test]
fn remove_twice_finds_nothing_the_second_time() {
    let mut list = sample();
    assert!(list.remove_at(2, at(200)));
    assert_eq!(list.len(), 2);
    assert_eq!(list.last_modified(), at(200));
    assert!(!list.remove_at(2, at(300)));
    assert_eq!(list.len(), 2);
    assert_eq!(list.last_modified(), at(200));
    assert_eq!(ids(&list), vec![1, 3]);
    assert!(list.find(2).is_none());
    assert_eq!(list.position(3), Some(1));
    assert_eq!(list.position(2), None);
}

#[test]
fn remove_of_an_unknown_id_changes_nothing() {
    let mut list = sample();
    assert!(!list.remove_at(9, at(200)));
    assert!(!list.remove_item(9));
    assert_eq!(ids(&list), vec![1, 2, 3]);
    assert_eq!(list.last_modified(), at(103));
}

#[test]
fn toggle_twice_restores_todo_and_done() {
    let mut list = sample();
    assert!(list.toggle_at(1, at(200)));
    assert_eq!(list.find(1).unwrap().status(), Status::Done);
    assert_eq!(list.find(1).unwrap().completed_at(), Some(at(200)));
    assert_eq!(list.last_modified(), at(200));
    assert!(list.toggle_at(1, at(201)));
    assert_eq!(list.find(1).unwrap().status(), Status::Todo);
    assert_eq!(list.find(1).unwrap().completed_at(), None);

    assert!(list.toggle_at(3, at(202)));
    assert_eq!(list.find(3).unwrap().status(), Status::Todo);
    assert_eq!(list.find(3).unwrap().completed_at(), None);
    assert!(list.toggle_at(3, at(203)));
    assert_eq!(list.find(3).unwrap().status(), Status::Done);
    assert_eq!(list.find(3).unwrap().completed_at(), Some(at(203)));
    assert_eq!(list.last_modified(), at(203));
}

#[test]
fn toggle_of_an_item_in_progress_ends_at_todo() {
    let mut list = sample();
    assert!(list.toggle_at(2, at(200)));
    assert_eq!(list.find(2).unwrap().status(), Status::Done);
    assert!(list.toggle_at(2, at(201)));
    assert_eq!(list.find(2).unwrap().status(), Status::Todo);
    assert_eq!(list.find(2).unwrap().completed_at(), None);
}

#[test]
fn toggle_of_an_unknown_id_changes_nothing() {
    let mut list = sample();
    assert!(!list.toggle_at(9, at(200)));
    assert!(!list.toggle_item(9));
    assert_eq!(list.last_modified(), at(103));
}

#[test]
fn toggle_item_reads_the_clock() {
    let mut list = sample();
    assert!(list.toggle_item(1));
    let done = list.find(1).unwrap();
    assert_eq!(done.status(), Status::Done);
    assert!(done.completed_at().unwrap().secs > 1_600_000_000);
    assert_eq!(done.completed_at(), Some(list.last_modified()));
}

#[test]
fn set_status_fixes_the_completion_time() {
    let mut list = sample();
    assert!(list.set_status(1, Status::Done, at(200)));
    assert_eq!(list.find(1).unwrap().completed_at(), Some(at(200)));
    assert!(list.set_status(1, Status::Done, at(201)));
    assert_eq!(list.find(1).unwrap().completed_at(), Some(at(201)));
    assert!(list.set_status(1, Status::Waiting, at(202)));
    assert_eq!(list.find(1).unwrap().status(), Status::Waiting);
    assert_eq!(list.find(1).unwrap().completed_at(), None);
    assert!(list.set_status(1, Status::InProgress, at(203)));
    assert_eq!(list.find(1).unwrap().completed_at(), None);
    assert!(list.set_status(1, Status::Todo, at(204)));
    assert_eq!(list.find(1).unwrap().completed_at(), None);
    assert_eq!(list.last_modified(), at(204));
    assert!(!list.set_status(9, Status::Done, at(205)));
    assert_eq!(list.last_modified(), at(204));
}

#[test]
fn set_priority_and_due_date() {
    let mut list = sample();
    assert!(list.set_priority(1, Priority::Critical, at(200)));
    assert_eq!(list.find(1).unwrap().priority(), Priority::Critical);
    assert_eq!(list.last_modified(), at(200));
    assert!(list.set_due_date(1, Some(Date::from_days(5)), at(201)));
    assert_eq!(list.find(1).unwrap().due_date(), Some(Date::from_days(5)));
    assert!(list.set_due_date(1, None, at(202)));
    assert_eq!(list.find(1).unwrap().due_date(), None);
    assert_eq!(list.last_modified(), at(202));
    assert!(!list.set_priority(9, Priority::Low, at(203)));
    assert!(!list.set_due_date(9, None, at(204)));
    assert_eq!(list.last_modified(), at(202));
    assert_eq!(list.find(1).unwrap().created_at(), at(101));
    assert_eq!(list.find(2).unwrap().priority(), Priority::High);
}

#[test]
fn restore_gives_the_list_back() {
    let list = sample();
    let mut items = Vec::new();
    for item in list.items() {
        items.push(
            TodoItem::restore(
                item.id(),
                item.title().clone(),
                item.description().clone(),
                item.status(),
                item.priority(),
                item.due_date(),
                item.created_at(),
                item.completed_at(),
            )
            .unwrap(),
        );
    }
    let back =
        TodoList::restore(list.name().clone(), items, list.created_at(), list.last_modified())
            .unwrap();
    assert_eq!(back.name(), list.name());
    assert_eq!(back.created_at(), list.created_at());
    assert_eq!(back.last_modified(), list.last_modified());
    assert_eq!(back.len(), list.len());
    for k in 0..list.len() {
        let a = list.get(k).unwrap();
        let b = back.get(k).unwrap();
        assert_eq!(a.id(), b.id());
        assert_eq!(a.title(), b.title());
        assert_eq!(a.description(), b.description());
        assert_eq!(a.status(), b.status());
        assert_eq!(a.priority(), b.priority());
        assert_eq!(a.due_date(), b.due_date());
        assert_eq!(a.created_at(), b.created_at());
        assert_eq!(a.completed_at(), b.completed_at());
    }
}

#[test]
fn restore_of_an_empty_list() {
    let back = TodoList::restore(String::from("Empty"), Vec::new(), at(1), at(2)).unwrap();
    assert_eq!(back.len(), 0);
    assert_eq!(back.created_at(), at(1));
    assert_eq!(back.last_modified(), at(2));
}

#[test]
fn restore_refuses_a_shared_id_and_an_empty_name() {
    let item = |id: u32| {
        TodoItem::new(id, String::from("x"), None, Priority::Low, None, Status::Todo, at(1))
            .unwrap()
    };
    let twice = vec![item(1), item(2), item(1)];
    assert_eq!(
        TodoList::restore(String::from("L"), twice, at(1), at(1)).err(),
        Some(TodoError::CorruptData)
    );
    assert_eq!(
        TodoList::restore(String::new(), vec![item(1)], at(1), at(1)).err(),
        Some(TodoError::CorruptData)
    );
    assert!(TodoList::restore(String::from("L"), vec![item(3), item(1)], at(1), at(1)).is_ok());
}

#[test]
fn empty_title_is_refused_on_a_list_with_the_greatest_id() {
    let last =
        TodoItem::new(u32::MAX, String::from("last"), None, Priority::Low, None, Status::Todo, at(1))
            .unwrap();
    let mut list = TodoList::restore(String::from("Full"), vec![last], at(1), at(2)).unwrap();
    assert_eq!(list.max_id(), u32::MAX);
    let got = list.add_at(String::new(), None, Priority::High, None, Status::Done, at(9));
    assert_eq!(got, Err(TodoError::InvalidInput));
    assert_eq!(list.add_item(String::new(), Some(String::from("d"))), Err(TodoError::InvalidInput));
    assert_eq!(list.len(), 1);
    assert_eq!(list.get(0).unwrap().id(), u32::MAX);
    assert_eq!(list.last_modified(), at(2));
    assert_eq!(list.created_at(), at(1));
}
