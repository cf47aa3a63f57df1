//! The values that messages are read from.
//!
//! A panic hands over a value of a type that is only known at run time. Verus
//! cannot look into such a value, so it is kept behind [`Payload`], and what it
//! is comes from three trusted look-ups, one for each type that matters here.
//! [`Shape`] is the mathematical model of a payload that those look-ups define.

use std::any::Any;
use vstd::prelude::*;

verus! {

/// A borrowed value of a type that is only known at run time: what
/// `std::panic::catch_unwind` returns as its error (the box, or what is in
/// the box), or what a panic hook's report gives as its payload.
///
/// Building one never fails and copies nothing: `Payload(&value)`.
/// A reference to a box of an unknown value coerces to a reference to an
/// unknown value, which then *is* the box and not what the box holds;
/// [`crate::extract::normalize`] undoes that.
///
/// The struct is opaque to Verus, which has no notion of `dyn Any`. Proofs
/// know a payload only by its [`Shape`].
#[verifier::external_body]
pub struct Payload<'a>(pub &'a dyn Any);

/// What a payload is, as far as a message can be read from it.
pub enum Shape<'a> {
    /// A `&'static str`, with its characters.
    FixedText(Seq<char>),
    /// A `String`, with its characters.
    OwnedText(Seq<char>),
    /// A `Box<dyn Any + Send>`, with the value in the box.
    Boxed(Payload<'a>),
    /// A value of any other type.
    Other,
}

/// The shape of a payload. It is fixed by the type and the content of the
/// value that the payload refers to, and by nothing else.
pub uninterp spec fn shape_of(payload: Payload) -> Shape;

impl<'a> View for Payload<'a> {
    type V = Shape<'a>;

    open spec fn view(&self) -> Shape<'a> {
        shape_of(*self)
    }
}

/// Trusted: `<dyn Any>::downcast_ref::<&'static str>`, which returns the
/// value if its type is `&'static str` and `None` if it is not. The contract
/// reads this as: the payload has the shape `FixedText`, with the characters
/// of the text found, exactly when a text is found.
#[verifier::external_body]
pub(crate) fn downcast_fixed<'a>(payload: &Payload<'a>) -> (found: Option<&'a &'static str>)
    ensures
        match found {
            Some(text) => shape_of(*payload) == Shape::FixedText(text@),
            None => !(shape_of(*payload) is FixedText),
        },
{
    payload.0.downcast_ref::<&'static str>()
}

/// Trusted: `<dyn Any>::downcast_ref::<String>`, which returns the value if
/// its type is `String` and `None` if it is not. The contract reads this
/// as: the payload has the shape `OwnedText`, with the characters of the
/// string found, exactly when a string is found.
#[verifier::external_body]
pub(crate) fn downcast_owned<'a>(payload: &Payload<'a>) -> (found: Option<&'a String>)
    ensures
        match found {
            Some(text) => shape_of(*payload) == Shape::OwnedText(text@),
            None => !(shape_of(*payload) is OwnedText),
        },
{
    payload.0.downcast_ref::<String>()
}

/// Trusted: `<dyn Any>::downcast_ref::<Box<dyn Any + Send>>`, which returns
/// the value if its type is `Box<dyn Any + Send>` and `None` if it is not.
/// What is found is handed on as a payload that refers to the value in the
/// box. The contract reads this as: the payload has the shape `Boxed`, with
/// that inner payload, exactly when a box is found.
#[verifier::external_body]
pub(crate) fn downcast_boxed<'a>(payload: &Payload<'a>) -> (found: Option<Payload<'a>>)
    ensures
        match found {
            Some(inner) => shape_of(*payload) == Shape::Boxed(inner),
            None => !(shape_of(*payload) is Boxed),
        },
{
    match payload.0.downcast_ref::<Box<dyn Any + Send>>() {
        Some(boxed) => Some(Payload(&**boxed)),
        None => None,
    }
}

/// What a panic hook is called with, reduced to the one thing that is read
/// from it here: the payload it carries.
///
/// A report never carries the box that `catch_unwind` returns, only what
/// would be in it. So a message is read from a report's payload as it
/// stands, see [`crate::get_panic_info_message`].
pub struct Report<'a> {
    payload: Payload<'a>,
}

impl<'a> Report<'a> {
    /// The payload that the report carries.
    pub closed spec fn carried(&self) -> Payload<'a> {
        self.payload
    }

    /// A report that carries `payload`.
    pub fn new(payload: Payload<'a>) -> (report: Self)
        ensures
            report.carried() == payload,
    {
        Report { payload }
    }

    /// The payload that the report carries.
    pub fn payload(&self) -> (payload: &Payload<'a>)
        ensures
            *payload == self.carried(),
    {
        &self.payload
    }
}

} // verus!
