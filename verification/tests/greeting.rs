use enron_classifier::greeting::greet;

#[test]
fn greet_formats_the_fixed_template() {
    assert_eq!(greet("Ada"), "Hello, Ada! You've been greeted from Rust!");
}

#[test]
fn greet_contains_the_name_once_inside_the_template() {
    let out = greet("Marie Curie");
    assert!(out.contains("Marie Curie"));
    assert!(out.starts_with("Hello, "));
    assert!(out.ends_with("! You've been greeted from Rust!"));
    assert_eq!(out.matches("Marie Curie").count(), 1);
}

#[test]
fn greet_keeps_the_template_around_an_empty_name() {
    assert_eq!(greet(""), "Hello, ! You've been greeted from Rust!");
}

#[test]
fn greet_is_callable_repeatedly_with_independent_results() {
    assert_eq!(greet("first"), "Hello, first! You've been greeted from Rust!");
    assert_eq!(greet("second"), "Hello, second! You've been greeted from Rust!");
    assert_eq!(greet("first"), "Hello, first! You've been greeted from Rust!");
}
