use bundlrs::booklist::{check_booklist, fetch_booklist};
use bundlrs::config::get_named_argument;

fn args(v: &[&str]) -> Vec<String> {
    v.iter().map(|s| s.to_string()).collect()
}

#[test]
fn named_argument_is_the_value_after_its_flag() {
    let a = args(&["bundlrs", "--port", "8080", "--db", "x"]);
    assert_eq!(get_named_argument(&a, "port"), Some("8080".to_string()));
    assert_eq!(get_named_argument(&a, "db"), Some("x".to_string()));
    assert_eq!(get_named_argument(&a, "host"), None);
}

#[test]
fn named_argument_with_empty_value_is_none() {
    let a = args(&["bundlrs", "--port", "", "--port", "1"]);
    assert_eq!(get_named_argument(&a, "port"), None);
}

#[test]
fn booklist_separator_is_its_first_line() {
    let b = fetch_booklist(Some(";\nurl1;url2;url3".to_string()));
    assert_eq!(b.separator, ";");
    assert_eq!(b.full, ";\nurl1;url2;url3");
    let none = fetch_booklist(None);
    assert_eq!(none.separator, "");
    assert_eq!(none.full, "");
    let empty = fetch_booklist(Some(String::new()));
    assert_eq!(empty.separator, "\n");
}

#[test]
fn booklist_lists_its_urls() {
    let content = Some(";\nurl1;url2;url3".to_string());
    assert!(check_booklist(content.clone(), &"url1".to_string()));
    assert!(check_booklist(content.clone(), &"url2".to_string()));
    assert!(check_booklist(content.clone(), &"url3".to_string()));
    assert!(!check_booklist(content, &"url4".to_string()));
}

#[test]
fn booklist_pieces_are_trimmed() {
    let content = Some(",\nurl1, url2, url3".to_string());
    assert!(check_booklist(content.clone(), &"url1".to_string()));
    assert!(check_booklist(content.clone(), &"url2".to_string()));
    assert!(check_booklist(content.clone(), &"url3".to_string()));
    assert!(!check_booklist(content.clone(), &" url2".to_string()));
    assert!(!check_booklist(content, &"url4".to_string()));
}

#[test]
fn a_flag_given_last_has_no_value() {
    let a = vec!["bundlrs".to_string(), "--port".to_string()];
    assert_eq!(get_named_argument(&a, "port"), None);
}

#[test]
fn without_a_booklist_nothing_but_the_empty_url_is_listed() {
    assert!(!check_booklist(None, &"anything".to_string()));
    assert!(check_booklist(None, &String::new()));
}
