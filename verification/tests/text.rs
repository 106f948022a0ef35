use peach::text::{check_command_prefix, check_name, split_two, trim_end_str, trim_str};

#[test]
fn accepts_simple_names() {
    assert!(check_name("bob"));
    assert!(check_name("Alice_01"));
    assert!(check_name("a-b-c"));
    assert!(check_name("X"));
}

#[test]
fn rejects_invalid_names() {
    assert!(!check_name(""));
    assert!(!check_name("bad name"));
    assert!(!check_name("na!me"));
    assert!(!check_name("tab\there"));
    assert!(!check_name("noël"));
    assert!(!check_name("slash/name"));
}

#[test]
fn trims_both_ends() {
    assert_eq!(trim_str("  bob \r\n"), "bob");
    assert_eq!(trim_str("bob"), "bob");
    assert_eq!(trim_str(" \t \n"), "");
    assert_eq!(trim_str(""), "");
}

#[test]
fn trims_only_the_end() {
    assert_eq!(trim_end_str("  bob \r\n"), "  bob");
    assert_eq!(trim_end_str("hello"), "hello");
    assert_eq!(trim_end_str("\n"), "");
}

#[test]
fn splits_first_two_tokens() {
    let (a, b) = split_two("/join lobby");
    assert_eq!(a, "/join");
    assert_eq!(b, "lobby");

    let (a, b) = split_two("  /join   lobby  extra");
    assert_eq!(a, "/join");
    assert_eq!(b, "lobby");

    let (a, b) = split_two("/join");
    assert_eq!(a, "/join");
    assert_eq!(b, "");

    let (a, b) = split_two("");
    assert_eq!(a, "");
    assert_eq!(b, "");
}

#[test]
fn recognizes_command_prefix() {
    assert!(check_command_prefix("/join lobby\n"));
    assert!(check_command_prefix("/"));
    assert!(!check_command_prefix("hello /join\n"));
    assert!(!check_command_prefix(""));
}
