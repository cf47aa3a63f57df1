//! Messages out of panic payloads.
//!
//! A panic carries a value of any type. When it comes from `panic!` with a
//! literal, that value is a `&'static str`; with formatting, or from
//! `expect`, it is a `String`. The functions here read the message out of
//! either, and out of nothing else: any other value has no message, or, for
//! the functions that always return one, the text that Rust's own panic
//! handler prints in that case.
//!
//! There are two families, by where the payload comes from:
//! - [`panic_message`] and [`get_panic_message`] take a [`Payload`] made from
//!   the error of `std::panic::catch_unwind`. That error is a box, and a
//!   reference to it is easily taken for a reference to what it holds. They
//!   accept both, and look into the box where they are given one.
//! - [`panic_info_message`] and [`get_panic_info_message`] take a [`Report`]
//!   made from what a panic hook is called with. Its payload is never that
//!   box, and is read as it stands.

pub mod extract;
pub mod laws;
pub mod payload;

pub use payload::{Payload, Report, Shape};

use extract::{extract_message, normalize, payload_text, shape_text, text_view};
use vstd::prelude::*;

verus! {

/// The text that stands in for a payload without a message. It is what
/// Rust's default panic handler prints for such a payload.
pub const PLACEHOLDER: &'static str = "Box<dyn Any>";

/// The characters of a message that may be missing: its own, or those of
/// the placeholder.
pub open spec fn or_placeholder_of(text: Option<Seq<char>>) -> Seq<char> {
    match text {
        Some(t) => t,
        None => PLACEHOLDER@,
    }
}

/// The message if there is one, else the placeholder.
pub fn or_placeholder<'a>(message: Option<&'a str>) -> (text: &'a str)
    ensures
        text@ == or_placeholder_of(text_view(message)),
        message matches Some(found) ==> text == found,
        message is None ==> text == PLACEHOLDER,
{
    match message {
        Some(found) => found,
        None => PLACEHOLDER,
    }
}

/// The message of a payload from `catch_unwind`, or the placeholder if it
/// has none. The payload may be the box that was caught or the value in it.
pub fn panic_message<'a>(payload: Payload<'a>) -> (message: &'a str)
    ensures
        message@ == or_placeholder_of(payload_text(payload)),
{
    or_placeholder(get_panic_message(payload))
}

/// The message of a payload from `catch_unwind`, or `None` if it has none.
/// The payload may be the box that was caught or the value in it.
pub fn get_panic_message<'a>(payload: Payload<'a>) -> (message: Option<&'a str>)
    ensures
        text_view(message) == payload_text(payload),
{
    let bare = normalize(payload);
    extract_message(&bare)
}

/// The message of the payload that a panic hook's report carries, or the
/// placeholder if it has none. The payload is read as it stands.
pub fn panic_info_message<'a>(report: &Report<'a>) -> (message: &'a str)
    ensures
        message@ == or_placeholder_of(shape_text(report.carried()@)),
{
    or_placeholder(get_panic_info_message(report))
}

/// The message of the payload that a panic hook's report carries, or `None`
/// if it has none. The payload is read as it stands.
pub fn get_panic_info_message<'a>(report: &Report<'a>) -> (message: Option<&'a str>)
    ensures
        text_view(message) == shape_text(report.carried()@),
{
    extract_message(report.payload())
}

} // verus!
