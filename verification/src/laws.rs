//! What holds of the messages, whatever the payload.

use crate::extract::{normalized, payload_text, shape_text};
use crate::payload::{Payload, Shape};
use crate::{or_placeholder_of, PLACEHOLDER};
use vstd::prelude::*;

verus! {

/// A payload that is a text, fixed or owned, has that text as its message,
/// with or without the placeholder as a fallback.
pub proof fn lemma_text_is_its_own_message(payload: Payload, text: Seq<char>)
    requires
        payload@ == Shape::FixedText(text) || payload@ == Shape::OwnedText(text),
    ensures
        normalized(payload) == payload,
        shape_text(payload@) == Some(text),
        payload_text(payload) == Some(text),
        or_placeholder_of(payload_text(payload)) == text,
{
}

/// A payload that is neither a text nor a box has no message, and the
/// placeholder stands in for it.
pub proof fn lemma_other_has_no_message(payload: Payload)
    requires
        payload@ is Other,
    ensures
        shape_text(payload@) is None,
        payload_text(payload) is None,
        or_placeholder_of(payload_text(payload)) == PLACEHOLDER@,
{
}

/// A box has the message of the value in it, read as that value stands. So
/// where the value in the box is no box itself, it makes no difference
/// whether the box or the value in it is handed over.
pub proof fn lemma_box_has_message_of_content(payload: Payload, inner: Payload)
    requires
        payload@ == Shape::Boxed(inner),
    ensures
        payload_text(payload) == shape_text(inner@),
        !(inner@ is Boxed) ==> payload_text(payload) == payload_text(inner),
{
}

/// Normalizing changes nothing but a box, and normalizing twice is the same
/// as normalizing once unless a box holds a box.
pub proof fn lemma_normalized_twice(payload: Payload)
    ensures
        !(payload@ is Boxed) ==> normalized(payload) == payload,
        !(normalized(payload)@ is Boxed) ==> normalized(normalized(payload)) == normalized(
            payload,
        ),
{
}

/// Read as it stands, a box has no message: only the functions that
/// normalize first find the text in it.
pub proof fn lemma_box_as_it_stands_has_no_message(payload: Payload)
    requires
        payload@ is Boxed,
    ensures
        shape_text(payload@) is None,
{
}

/// The placeholder is the twelve characters `Box<dyn Any>`.
pub proof fn lemma_placeholder_text()
    ensures
        PLACEHOLDER@ == seq!['B', 'o', 'x', '<', 'd', 'y', 'n', ' ', 'A', 'n', 'y', '>'],
{
    reveal_strlit("Box<dyn Any>");
    assert(PLACEHOLDER@ =~= seq!['B', 'o', 'x', '<', 'd', 'y', 'n', ' ', 'A', 'n', 'y', '>']);
}

} // verus!
