use todo_lists::error::TodoError;
use todo_lists::storage::{
    identifier_for, key_for, list_identifiers, spaced, storage_error, underscored, with_extension,
};

#[test]
fn key_is_lower_case_with_underscores() {
    assert_eq!(key_for("Groceries"), "groceries.json");
    assert_eq!(key_for("My List"), "my_list.json");
    assert_eq!(key_for("  A  b "), "__a__b_.json");
    assert_eq!(key_for("ÉCOLE d'Été"), "école_d'été.json");
    assert_eq!(key_for(""), ".json");
}

#[test]
fn names_that_differ_by_space_or_case_share_a_key() {
    assert_eq!(key_for("My List"), key_for("My_List"));
    assert_eq!(key_for("my list"), key_for("MY LIST"));
}

#[test]
fn underscores_and_spaces() {
    assert_eq!(underscored("a b  c"), "a_b__c");
    assert_eq!(underscored("abc"), "abc");
    assert_eq!(underscored("Ünï code"), "Ünï_code");
    assert_eq!(spaced("a_b__c"), "a b  c");
    assert_eq!(spaced(""), "");
    assert_eq!(with_extension(String::from("stem")), "stem.json");
    assert_eq!(with_extension(String::new()), ".json");
}

#[test]
fn identifier_of_a_file_name() {
    assert_eq!(identifier_for("my_list.json"), Some(String::from("my list")));
    assert_eq!(identifier_for("groceries.json"), Some(String::from("groceries")));
    assert_eq!(identifier_for(".json"), Some(String::new()));
    assert_eq!(identifier_for("a.json.json"), Some(String::from("a.json")));
    assert_eq!(identifier_for("été_2024.json"), Some(String::from("été 2024")));
    assert_eq!(identifier_for("notes.txt"), None);
    assert_eq!(identifier_for("json"), None);
    assert_eq!(identifier_for("list.jsonl"), None);
    assert_eq!(identifier_for("list.JSON"), None);
    assert_eq!(identifier_for(""), None);
}

#[test]
fn identifier_of_a_key_is_the_name_in_lower_case() {
    assert_eq!(identifier_for(&key_for("My List")), Some(String::from("my list")));
    assert_eq!(identifier_for(&key_for("My_List")), Some(String::from("my list")));
}

#[test]
fn identifiers_of_a_directory() {
    let names = vec![
        String::from("groceries.json"),
        String::from("Cargo.toml"),
        String::from("my_list.json"),
        String::from("src"),
        String::from("work_2024_q1.json"),
    ];
    assert_eq!(
        list_identifiers(&names),
        vec![String::from("groceries"), String::from("my list"), String::from("work 2024 q1")]
    );
    assert!(list_identifiers(&Vec::new()).is_empty());
}

#[test]
fn storage_errors() {
    assert_eq!(storage_error(true), TodoError::NotFound);
    assert_eq!(storage_error(false), TodoError::StorageFailure);
}
