//! Media types of stored objects.
//!
//! The media type sent with a download is guessed from the extension of the
//! object's file name by the `mime_guess` crate. When the crate has no guess,
//! the generic binary type is used.

use vstd::prelude::*;
use vstd::string::*;

verus! {

/// The media type used when none can be guessed from a file name.
pub const OCTET_STREAM: &'static str = "application/octet-stream";

/// The first media type that `mime_guess` associates with the extension of
/// `name`, if it knows one.
pub uninterp spec fn guessed_media_type(name: Seq<char>) -> Option<Seq<char>>;

/// The characters of an optional string.
pub open spec fn text_of(text: Option<String>) -> Option<Seq<char>> {
    match text {
        Some(t) => Some(t@),
        None => None,
    }
}

/// The `Content-Type` that goes with a guess: the guess itself, or the
/// generic binary type when there is none.
pub open spec fn content_type_of(guess: Option<Seq<char>>) -> Seq<char> {
    match guess {
        Some(media_type) => media_type,
        None => OCTET_STREAM@,
    }
}

/// Calls `mime_guess::from_path(name).first()` and hands the media type back
/// as text. Trusted: the outcome is the crate's guess for `name`, a function
/// of the name alone, and a name without any `.` has no extension and so no
/// guess.
#[verifier::external_body]
fn guess_media_type(name: &str) -> (guess: Option<String>)
    ensures
        text_of(guess) == guessed_media_type(name@),
        !name@.contains('.') ==> guess is None,
{
    match mime_guess::from_path(name).first() {
        Some(media_type) => Some(media_type.as_ref().to_string()),
        None => None,
    }
}

/// Chooses the `Content-Type` for a guess, falling back to the generic binary
/// type when there is none.
pub fn content_type_or_default(guess: Option<String>) -> (content_type: String)
    ensures
        content_type@ == content_type_of(text_of(guess)),
{
    match guess {
        Some(media_type) => media_type,
        None => String::from_str(OCTET_STREAM),
    }
}

/// The `Content-Type` under which an object named `name` is served.
pub fn content_type_for(name: &str) -> (content_type: String)
    ensures
        content_type@ == content_type_of(guessed_media_type(name@)),
        !name@.contains('.') ==> content_type@ == OCTET_STREAM@,
{
    content_type_or_default(guess_media_type(name))
}

} // verus!
