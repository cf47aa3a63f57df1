//! Messages out of what `catch_unwind` returns: a box around the value that
//! was thrown.

use panic_message::{get_panic_message, panic_message, Payload, PLACEHOLDER};
use std::any::Any;

/// What `catch_unwind` returns after `panic!` with a literal.
fn caught_literal(text: &'static str) -> Box<dyn Any + Send> {
    Box::new(text)
}

/// What `catch_unwind` returns after a panic with a formatted message.
fn caught_string(text: &str) -> Box<dyn Any + Send> {
    Box::new(text.to_string())
}

#[test]
fn basic() {
    let payload = caught_literal("gus");

    let msg = panic_message(Payload(&payload));

    assert_eq!("gus", msg);
}

#[test]
fn string() {
    let payload = caught_string("gus");

    let msg = panic_message(Payload(&payload));

    assert_eq!("gus", msg);
}

#[test]
fn expect() {
    // `expect` is given a borrowed text and panics with a `String`
    let payload: Box<dyn Any + Send> = Box::new(format!("{}", "gus"));

    let msg = panic_message(Payload(&payload));

    assert_eq!("gus", msg);
}

#[test]
fn something_else() {
    let payload: Box<dyn Any + Send> = Box::new(1);

    let msg = panic_message(Payload(&payload));

    assert_eq!("Box<dyn Any>", msg);
}

#[test]
fn basic_partial() {
    let payload = caught_literal("gus");
    assert_eq!(Some("gus"), get_panic_message(Payload(&payload)));
}

#[test]
fn string_partial() {
    let payload = caught_string("gus");
    assert_eq!(Some("gus"), get_panic_message(Payload(&payload)));
}

#[test]
fn something_else_partial() {
    let payload: Box<dyn Any + Send> = Box::new(1);
    assert_eq!(None, get_panic_message(Payload(&payload)));
}

#[test]
fn placeholder_is_what_rust_prints() {
    assert_eq!("Box<dyn Any>", PLACEHOLDER);
    assert_eq!(12, PLACEHOLDER.len());
}

#[test]
fn box_and_content_give_the_same_message() {
    let payload = caught_literal("gus");

    // the box itself, taken for an unknown value
    assert_eq!("gus", panic_message(Payload(&payload)));
    assert_eq!(Some("gus"), get_panic_message(Payload(&payload)));

    // the value in the box
    assert_eq!("gus", panic_message(Payload(&*payload)));
    assert_eq!(Some("gus"), get_panic_message(Payload(&*payload)));
    assert_eq!("gus", panic_message(Payload(payload.as_ref())));
}

#[test]
fn box_and_content_give_the_same_owned_message() {
    let payload = caught_string("gus");
    assert_eq!(Some("gus"), get_panic_message(Payload(&payload)));
    assert_eq!(Some("gus"), get_panic_message(Payload(&*payload)));
}

#[test]
fn box_and_content_agree_on_no_message() {
    let payload: Box<dyn Any + Send> = Box::new(7u64);
    assert_eq!(None, get_panic_message(Payload(&payload)));
    assert_eq!(None, get_panic_message(Payload(&*payload)));
    assert_eq!(PLACEHOLDER, panic_message(Payload(&payload)));
    assert_eq!(PLACEHOLDER, panic_message(Payload(&*payload)));
}

#[test]
fn bare_values_are_read_as_they_are() {
    let fixed: &'static str = "gus";
    let owned = String::from("gus");
    assert_eq!(Some("gus"), get_panic_message(Payload(&fixed)));
    assert_eq!(Some("gus"), get_panic_message(Payload(&owned)));
    assert_eq!("gus", panic_message(Payload(&fixed)));
    assert_eq!("gus", panic_message(Payload(&owned)));
}

#[test]
fn empty_messages_are_messages() {
    let fixed = caught_literal("");
    let owned = caught_string("");
    assert_eq!(Some(""), get_panic_message(Payload(&fixed)));
    assert_eq!(Some(""), get_panic_message(Payload(&owned)));
    assert_eq!("", panic_message(Payload(&fixed)));
    assert_eq!("", panic_message(Payload(&owned)));
}

#[test]
fn only_the_two_kinds_of_text_have_a_message() {
    let number: Box<dyn Any + Send> = Box::new(1i32);
    let letter: Box<dyn Any + Send> = Box::new('g');
    let bytes: Box<dyn Any + Send> = Box::new(vec![b'g', b'u', b's']);
    let unit: Box<dyn Any + Send> = Box::new(());
    let maybe: Box<dyn Any + Send> = Box::new(Some("gus"));
    let boxed_text: Box<dyn Any + Send> = Box::new(Box::new("gus"));
    for payload in [&number, &letter, &bytes, &unit, &maybe, &boxed_text] {
        assert_eq!(None, get_panic_message(Payload(payload)));
        assert_eq!("Box<dyn Any>", panic_message(Payload(payload)));
    }
}

#[test]
fn a_box_in_a_box_is_opened_once() {
    let inner = caught_literal("gus");
    let outer: Box<dyn Any + Send> = Box::new(inner);

    assert_eq!(None, get_panic_message(Payload(&outer)));
    assert_eq!("Box<dyn Any>", panic_message(Payload(&outer)));

    // what the outer box holds is a box around a text
    assert_eq!(Some("gus"), get_panic_message(Payload(&*outer)));
}

#[test]
fn a_box_that_cannot_be_sent_is_not_opened() {
    let payload: Box<dyn Any> = Box::new("gus");
    assert_eq!(None, get_panic_message(Payload(&payload)));
    assert_eq!(Some("gus"), get_panic_message(Payload(&*payload)));
}

#[test]
fn fixed_text_is_not_copied() {
    let literal: &'static str = "gus";
    let payload = caught_literal(literal);

    let msg = panic_message(Payload(&payload));
    assert!(std::ptr::eq(literal, msg));

    let msg = get_panic_message(Payload(&payload)).unwrap();
    assert!(std::ptr::eq(literal, msg));
}

#[test]
fn owned_text_is_not_copied() {
    let payload = caught_string("gus");
    let held: &String = payload.downcast_ref::<String>().unwrap();

    let msg = panic_message(Payload(&payload));
    assert!(std::ptr::eq(held.as_str(), msg));
}

#[test]
fn message_outlives_the_handle() {
    let payload = caught_string("gus");
    let msg = {
        let handle = Payload(&payload);
        get_panic_message(handle)
    };
    assert_eq!(Some("gus"), msg);
}
