use rscripter::{echo, trace};
use std::cell::RefCell;

#[test]
fn trace_prints_the_line_before_the_action_runs() {
    let seen: RefCell<Vec<String>> = RefCell::new(Vec::new());
    trace(
        &["\"ping\"", ",", "\"-c\"", ",", "\"3\"", ",", "\"1.1.1.1\""],
        |line: String| seen.borrow_mut().push(line),
        |()| seen.borrow_mut().push(String::from("pinged")),
    );
    assert_eq!(
        seen.into_inner(),
        vec![String::from("\x1b[33mping -c 3 1.1.1.1 \x1b[0m\n"), String::from("pinged")]
    );
}

#[test]
fn trace_prints_once_and_runs_once() {
    let printed = RefCell::new(0);
    let ran = RefCell::new(0);
    trace(&["a"], |_line: String| *printed.borrow_mut() += 1, |()| *ran.borrow_mut() += 1);
    assert_eq!(printed.into_inner(), 1);
    assert_eq!(ran.into_inner(), 1);
}

#[test]
fn trace_returns_the_value_of_the_action() {
    let out = trace(&["6", "*", "7"], |_line: String| (), |()| 6 * 7);
    assert_eq!(out, 42);
    let text = trace(&["name"], |_line: String| (), |()| String::from("Bob"));
    assert_eq!(text, "Bob");
}

#[test]
fn trace_returns_nothing_for_an_action_that_returns_nothing() {
    let out: () = trace(&["noop"], |_line: String| (), |()| ());
    assert_eq!(out, ());
}

#[test]
fn trace_hands_a_failure_through_after_printing() {
    let printed: RefCell<Vec<String>> = RefCell::new(Vec::new());
    let out: Result<u8, String> = trace(
        &["fail", "()"],
        |line: String| printed.borrow_mut().push(line),
        |()| Err(String::from("no such program")),
    );
    assert_eq!(out, Err(String::from("no such program")));
    assert_eq!(printed.into_inner(), vec![String::from("\x1b[33mfail () \x1b[0m\n")]);
}

#[test]
fn trace_hands_a_success_through() {
    let out: Result<u8, String> = trace(&["ok"], |_line: String| (), |()| Ok(3));
    assert_eq!(out, Ok(3));
}

#[test]
fn trace_leaves_the_output_of_the_action_alone() {
    let seen: RefCell<Vec<String>> = RefCell::new(Vec::new());
    let out = trace(
        &["echo", "(\"hi\")"],
        |line: String| seen.borrow_mut().push(line),
        |()| {
            seen.borrow_mut().push(String::from("hi"));
            seen.borrow_mut().push(String::from("there"));
            2
        },
    );
    assert_eq!(out, 2);
    assert_eq!(
        seen.into_inner(),
        vec![
            String::from("\x1b[33mecho (\"hi\") \x1b[0m\n"),
            String::from("hi"),
            String::from("there")
        ]
    );
}

#[test]
fn echo_prints_one_highlighted_line() {
    let seen: RefCell<Vec<String>> = RefCell::new(Vec::new());
    echo("Hello, World", |line: String| seen.borrow_mut().push(line));
    assert_eq!(seen.into_inner(), vec![String::from("\x1b[33mHello, World\x1b[0m\n")]);
}

#[test]
fn echo_leaves_the_text_as_it_is() {
    let seen: RefCell<Vec<String>> = RefCell::new(Vec::new());
    echo("  \"r\", kept  ", |line: String| seen.borrow_mut().push(line));
    assert_eq!(seen.into_inner(), vec![String::from("\x1b[33m  \"r\", kept  \x1b[0m\n")]);
}

#[test]
fn trace_hands_the_action_what_the_printer_gave_back() {
    let out = trace(&["a", "b"], |line: String| line.len(), |written: usize| written + 1);
    assert_eq!(out, "\x1b[33ma b \x1b[0m\n".len() + 1);
}
