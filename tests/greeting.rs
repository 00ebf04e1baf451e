use angular_momentum::greeting::greet;

#[test]
fn greets_by_name() {
    assert_eq!(greet("Ada"), "Hello, Ada! You've been greeted from Rust!");
}

#[test]
fn greets_empty_name() {
    assert_eq!(greet(""), "Hello, ! You've been greeted from Rust!");
}

#[test]
fn greets_name_with_format_characters() {
    assert_eq!(greet("{} {0} %s\n"), "Hello, {} {0} %s\n! You've been greeted from Rust!");
}

#[test]
fn greets_non_ascii_name() {
    assert_eq!(greet("Zoë 名前"), "Hello, Zoë 名前! You've been greeted from Rust!");
}
