use file_access::listing::{collect_names, DirEntry};

fn named(name: &str) -> DirEntry {
    DirEntry::Named(name.to_string())
}

#[test]
fn collect_names_of_nothing_is_nothing() {
    let names = collect_names(&Vec::new());
    assert!(names.is_empty());
}

#[test]
fn collect_names_takes_each_text_name_in_order() {
    let entries = vec![named("b"), DirEntry::NonText, named("a"), DirEntry::Unreadable, named("c")];
    assert_eq!(collect_names(&entries), vec!["b".to_string(), "a".to_string(), "c".to_string()]);
}

#[test]
fn collect_names_leaves_the_entries_untouched() {
    let entries = vec![named("only"), DirEntry::NonText];
    let names = collect_names(&entries);
    assert_eq!(names, vec!["only".to_string()]);
    assert_eq!(entries, vec![named("only"), DirEntry::NonText]);
}

#[test]
fn collect_names_of_a_listing_in_two_parts_is_the_two_lists_joined() {
    let first = vec![named("1"), DirEntry::NonText, named("2")];
    let second = vec![DirEntry::Unreadable, named("3")];
    let mut whole = first.clone();
    whole.extend(second.clone());
    let mut joined = collect_names(&first);
    joined.extend(collect_names(&second));
    assert_eq!(collect_names(&whole), joined);
    assert_eq!(joined, vec!["1".to_string(), "2".to_string(), "3".to_string()]);
}

#[test]
fn collect_names_keeps_names_that_are_not_ascii() {
    let entries = vec![named("résumé.txt"), named("日本語"), named("")];
    assert_eq!(
        collect_names(&entries),
        vec!["résumé.txt".to_string(), "日本語".to_string(), String::new()]
    );
}
