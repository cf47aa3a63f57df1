//! Reading a text out of a payload.
//!
//! Two steps. [`normalize`] goes from a box to the value in the box, once.
//! [`extract_message`] then reads a text from a payload as it stands, if the
//! payload is one of the two kinds of text that a panic produces.

use crate::payload::{downcast_boxed, downcast_fixed, downcast_owned, Payload, Shape};
use vstd::prelude::*;

verus! {

/// The characters of a text that may be missing.
pub open spec fn text_view(text: Option<&str>) -> Option<Seq<char>> {
    match text {
        Some(t) => Some(t@),
        None => None,
    }
}

/// The payload to read from in place of `payload`: the value in the box if
/// `payload` is a box, else `payload` itself.
pub open spec fn normalized<'a>(payload: Payload<'a>) -> Payload<'a> {
    match payload@ {
        Shape::Boxed(inner) => inner,
        _ => payload,
    }
}

/// The text that a shape stands for: the characters of either kind of text,
/// and nothing for a box or any other value.
pub open spec fn shape_text(shape: Shape) -> Option<Seq<char>> {
    match shape {
        Shape::FixedText(text) => Some(text),
        Shape::OwnedText(text) => Some(text),
        _ => None,
    }
}

/// The text that is read from a payload which may be the box around the
/// value that was thrown: the text of what the box holds, or of the payload
/// itself where it is no box.
pub open spec fn payload_text(payload: Payload) -> Option<Seq<char>> {
    shape_text(normalized(payload)@)
}

/// Of the two texts that a payload was asked for, the one to use: the
/// fixed text if there is one, else the owned text.
pub open spec fn first_text_of(
    fixed: Option<&&'static str>,
    owned: Option<&String>,
) -> Option<Seq<char>> {
    match fixed {
        Some(text) => Some(text@),
        None => match owned {
            Some(text) => Some(text@),
            None => None,
        },
    }
}

/// Unwraps one level: returns the value in the box if `payload` is a box,
/// and `payload` unchanged if it is not. A box inside the box stays a box.
pub fn normalize<'a>(payload: Payload<'a>) -> (bare: Payload<'a>)
    ensures
        bare == normalized(payload),
{
    match downcast_boxed(&payload) {
        Some(inner) => inner,
        None => payload,
    }
}

/// Picks the text to use from the outcome of asking a payload for a fixed
/// text and for an owned text: the fixed text comes first. The text returned
/// is the text found, borrowed and not copied.
pub fn first_text<'a>(fixed: Option<&'a &'static str>, owned: Option<&'a String>) -> (text: Option<
    &'a str,
>)
    ensures
        text_view(text) == first_text_of(fixed, owned),
        fixed matches Some(found) ==> text == Some(*found),
{
    match fixed {
        Some(found) => Some(*found),
        None => match owned {
            Some(found) => Some(found.as_str()),
            None => None,
        },
    }
}

/// Reads the text from a payload as it stands: the text itself if the
/// payload is a `&'static str` or a `String`, and `None` if it is anything
/// else, a box included.
pub fn extract_message<'a>(payload: &Payload<'a>) -> (text: Option<&'a str>)
    ensures
        text_view(text) == shape_text(payload@),
{
    let fixed = downcast_fixed(payload);
    let owned = downcast_owned(payload);
    first_text(fixed, owned)
}

} // verus!
