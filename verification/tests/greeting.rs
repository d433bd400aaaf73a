use vector_demo::{greet, greeting};

#[test]
fn greet_gives_the_salutation_and_the_sample_vector() {
    let lines = greet();
    assert_eq!(lines, vec![String::from("Hello from Rust!"), String::from("[1, 2, 3, 4]")]);
}

#[test]
fn greet_is_the_same_every_time() {
    assert_eq!(greet(), greet());
}

#[test]
fn greeting_puts_the_salutation_first() {
    let lines = greeting(String::from("[5, 6]"));
    assert_eq!(lines.len(), 2);
    assert_eq!(lines[0], "Hello from Rust!");
    assert_eq!(lines[1], "[5, 6]");
}

#[test]
fn greeting_keeps_an_empty_line() {
    let lines = greeting(String::new());
    assert_eq!(lines, vec![String::from("Hello from Rust!"), String::new()]);
}
