//! What the entries of the menus mean.

use vstd::prelude::*;
use crate::text::{lowercase_of, says};

verus! {

/// What can be done from the main menu.
#[derive(Clone, Copy, Debug, PartialEq, Eq, Structural)]
pub enum MainChoice {
    Create,
    Update,
    Delete,
    Quit,
}

/// What can be done with a list that is being edited.
#[derive(Clone, Copy, Debug, PartialEq, Eq, Structural)]
pub enum EditChoice {
    Add,
    Toggle,
    Remove,
    Show,
    Back,
}

/// The entry of the main menu with the number `number`: 1 to 4 in the order
/// of `MainChoice`.
pub open spec fn main_choice_of(number: u32) -> Option<MainChoice> {
    if number == 1 {
        Some(MainChoice::Create)
    } else if number == 2 {
        Some(MainChoice::Update)
    } else if number == 3 {
        Some(MainChoice::Delete)
    } else if number == 4 {
        Some(MainChoice::Quit)
    } else {
        None
    }
}

/// The entry of the main menu with the number `number`, where there is one.
pub fn main_choice(number: u32) -> (choice: Option<MainChoice>)
    ensures
        choice == main_choice_of(number),
{
    match number {
        1 => Some(MainChoice::Create),
        2 => Some(MainChoice::Update),
        3 => Some(MainChoice::Delete),
        4 => Some(MainChoice::Quit),
        _ => None,
    }
}

/// The entry of the editing menu with the number `number`: 1 to 5 in the
/// order of `EditChoice`.
pub open spec fn edit_choice_of(number: u32) -> Option<EditChoice> {
    if number == 1 {
        Some(EditChoice::Add)
    } else if number == 2 {
        Some(EditChoice::Toggle)
    } else if number == 3 {
        Some(EditChoice::Remove)
    } else if number == 4 {
        Some(EditChoice::Show)
    } else if number == 5 {
        Some(EditChoice::Back)
    } else {
        None
    }
}

/// The entry of the editing menu with the number `number`, where there is one.
pub fn edit_choice(number: u32) -> (choice: Option<EditChoice>)
    ensures
        choice == edit_choice_of(number),
{
    match number {
        1 => Some(EditChoice::Add),
        2 => Some(EditChoice::Toggle),
        3 => Some(EditChoice::Remove),
        4 => Some(EditChoice::Show),
        5 => Some(EditChoice::Back),
        _ => None,
    }
}

/// Whether an entry of the editing menu needs an item to work on.
pub fn needs_item(choice: EditChoice) -> (needed: bool)
    ensures
        needed == (choice == EditChoice::Toggle || choice == EditChoice::Remove),
{
    match choice {
        EditChoice::Toggle => true,
        EditChoice::Remove => true,
        _ => false,
    }
}

/// The place, counted from 0, that the number `number` picks in a menu of
/// `count` entries numbered from 1; none where the menu has no such entry.
pub fn pick(number: usize, count: usize) -> (place: Option<usize>)
    ensures
        1 <= number <= count ==> place == Some((number - 1) as usize),
        !(1 <= number <= count) ==> place is None,
{
    if number > 0 && number <= count {
        Some(number - 1)
    } else {
        None
    }
}

/// Whether `title`, typed where a title is asked for, ends the adding of
/// items: whether it is the word `fin` in any case of letters.
pub fn ends_entry(title: &str) -> (ends: bool)
    ensures
        ends == (lowercase_of(title@) == "fin"@),
{
    says(title, "fin")
}

/// Whether `answer` confirms a question: whether it is the word `oui` in
/// any case of letters.
pub fn confirms(answer: &str) -> (confirmed: bool)
    ensures
        confirmed == (lowercase_of(answer@) == "oui"@),
{
    says(answer, "oui")
}

/// A text that was typed for a field that may stay empty: nothing where it
/// is empty, the text itself where it is not.
pub fn optional_text(text: String) -> (given: Option<String>)
    ensures
        text@.len() == 0 ==> given is None,
        text@.len() > 0 ==> given == Some(text),
{
    if text.as_str().is_empty() {
        None
    } else {
        Some(text)
    }
}

} // verus!
