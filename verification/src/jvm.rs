//! The Java side of a request: the four text handles, and the calls that
//! read them.
//!
//! Whether a handle is null is a property of the handle, named
//! [`null_handle`]. What the Java runtime answers when asked for a text is not
//! known to the verifier. The functions here make the calls and turn the
//! answers into what a [`Dispatch`](crate::dispatch::Dispatch) takes in; their
//! contracts say what holds of every answer.

use vstd::prelude::*;
use jni::errors::Error;
use jni::objects::JString;
use jni::JNIEnv;
use crate::dispatch::{open, Dispatch, Event, EventView, Field, Step};

verus! {

/// `jni::JNIEnv`, the handle to the Java runtime for the current native call.
/// Nothing is known of what it holds.
#[verifier::external_type_specification]
#[verifier::external_body]
pub struct ExJNIEnv<'local>(JNIEnv<'local>);

/// `jni::objects::JString`, a reference to a Java string or the null
/// reference. Of what it holds only [`null_handle`] is known.
#[verifier::external_type_specification]
#[verifier::external_body]
pub struct ExJString<'local>(JString<'local>);

/// `jni::errors::Error`, the error of a call into the Java runtime. Nothing
/// is known of what it holds.
#[verifier::external_type_specification]
#[verifier::external_body]
pub struct ExError(Error);

/// Whether a handle is the null reference. This is a property of the handle
/// alone: the Java runtime is not asked.
pub uninterp spec fn null_handle(handle: JString) -> bool;

/// Tests a `JString` for the null reference: the handle derefs to the raw
/// `jobject` pointer, and this is that pointer's `is_null`. The answer is
/// [`null_handle`] of the handle.
#[verifier::external_body]
fn is_null(handle: &JString) -> (null: bool)
    ensures
        null == null_handle(*handle),
{
    handle.is_null()
}

/// Calls `JNIEnv::get_string` and converts the Java string that comes back
/// into a `String`. The call fails for the null reference and for an object
/// that is not a `java.lang.String`, and when the runtime hands out no
/// characters. Claimed is only that the null reference gives an error; what
/// comes back for any other handle is the runtime's to decide.
#[verifier::external_body]
fn get_string(env: &mut JNIEnv, handle: &JString) -> (decoded: Result<String, Error>)
    ensures
        null_handle(*handle) ==> decoded is Err,
{
    match env.get_string(handle) {
        Ok(text) => Ok(text.into()),
        Err(error) => Err(error),
    }
}

/// Formats a `jni::errors::Error` by its `Display` impl. Nothing is claimed
/// of the text.
#[verifier::external_body]
fn describe(error: &Error) -> (detail: String) {
    format!("{error}")
}

/// The text arguments of a request, as the Java runtime passes them.
pub struct Arguments<'a, 'local> {
    pub application: &'a JString<'local>,
    pub title: &'a JString<'local>,
    pub message: &'a JString<'local>,
    pub icon: &'a JString<'local>,
}

impl<'a, 'local> Arguments<'a, 'local> {
    /// Starts the request on these arguments: tests each for the null
    /// reference and opens the dispatch on the four answers. A required
    /// argument that is null ends the request at once.
    pub fn begin(&self) -> (step: Step)
        ensures
            step@ == open(
                null_handle(*self.application),
                null_handle(*self.title),
                null_handle(*self.message),
                null_handle(*self.icon),
            ),
    {
        Dispatch::start(
            is_null(self.application),
            is_null(self.title),
            is_null(self.message),
            is_null(self.icon),
        )
    }

    /// The handle of that argument.
    fn handle(&self, field: Field) -> (handle: &'a JString<'local>)
        ensures
            *handle == self.argument(field),
    {
        match field {
            Field::Application => self.application,
            Field::Title => self.title,
            Field::Message => self.message,
            Field::Icon => self.icon,
        }
    }

    /// Carries out `Decode(field)`: asks the Java runtime for the text of
    /// that argument. The event is the text, or the failure with the
    /// runtime's own words for it. A null argument cannot be decoded.
    pub fn decode(&self, env: &mut JNIEnv, field: Field) -> (event: Event)
        ensures
            event@ is Decoded || event@ is DecodeFailed,
            null_handle(self.argument(field)) ==> event@ is DecodeFailed,
    {
        match get_string(env, self.handle(field)) {
            Ok(text) => decoding_event(Ok(text)),
            Err(error) => decoding_event(Err(describe(&error))),
        }
    }

    /// The argument of that name: the handle that is read when the dispatch
    /// asks for `Decode(field)`.
    pub open spec fn argument(&self, field: Field) -> JString<'local> {
        match field {
            Field::Application => *self.application,
            Field::Title => *self.title,
            Field::Message => *self.message,
            Field::Icon => *self.icon,
        }
    }
}

/// What an attempt to decode a text argument comes to as an event: the text,
/// or the failure with the words that say why.
pub open spec fn decoding(outcome: Result<String, String>) -> EventView {
    match outcome {
        Ok(text) => EventView::Decoded(text@),
        Err(detail) => EventView::DecodeFailed(detail@),
    }
}

/// Turns what came of decoding a text argument into the event that a dispatch
/// takes in.
pub fn decoding_event(outcome: Result<String, String>) -> (event: Event)
    ensures
        event@ == decoding(outcome),
{
    match outcome {
        Ok(text) => Event::Decoded(text),
        Err(detail) => Event::DecodeFailed(detail),
    }
}

} // verus!
