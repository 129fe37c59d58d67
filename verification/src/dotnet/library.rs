//! Loading the hosting library: what the outcome of the load means.
//!
//! The load itself touches the file system and is made by the embedding
//! program. Its outcome comes here, where a failure becomes one of the
//! bridge, with the message of the operating system.

use crate::error::{HostError, HostFailure};
use libloading::{Error, Library};
use vstd::prelude::*;
use vstd::string::StringExecFns;

verus! {

/// A loaded library of the `libloading` crate. Nothing is known of what is
/// inside; the library is carried to where its symbols are looked up.
#[verifier::external_type_specification]
#[verifier::external_body]
pub struct ExLibrary(Library);

/// An error of the `libloading` crate.
#[verifier::external_type_specification]
#[verifier::external_body]
pub struct ExLibraryError(Error);

/// The text that the `Display` impl of `libloading::Error` writes for an
/// error: which call failed. It depends on the kind of the error alone.
pub uninterp spec fn load_error_text_of(error: Error) -> Seq<char>;

/// Renders an error of `libloading` with its `Display` impl: which call
/// failed.
///
/// Trusted: the text is claimed to be the one that the impl writes for the
/// error, and not to be empty. The impl writes one fixed text for each kind
/// of error, and none of them is empty.
#[verifier::external_body]
fn load_error_text(error: &Error) -> (text: String)
    ensures
        text@ == load_error_text_of(*error),
        text@.len() > 0,
{
    format!("{}", error)
}

/// Renders the source of an error of `libloading`, which
/// `std::error::Error::source` gives where the operating system reported
/// one: its message.
///
/// Trusted: nothing is claimed of the text, nor of when there is one.
#[verifier::external_body]
fn load_error_cause(error: &Error) -> (cause: Option<String>) {
    match std::error::Error::source(error) {
        Some(source) => Some(format!("{}", source)),
        None => None,
    }
}

/// The message of a failed load: the text of which call failed, and behind a
/// colon and a blank what the operating system reported, where it did.
pub open spec fn load_failure_text(text: Seq<char>, cause: Option<Seq<char>>) -> Seq<char> {
    match cause {
        Some(reported) => text + ": "@ + reported,
        None => text,
    }
}

/// An optional text as a plain value.
pub open spec fn optional_text(text: Option<String>) -> Option<Seq<char>> {
    match text {
        Some(t) => Some(t@),
        None => None,
    }
}

/// Joins the text of a failed load and what the operating system reported to
/// one message.
fn load_error_message(text: String, cause: Option<String>) -> (message: String)
    ensures
        message@ == load_failure_text(text@, optional_text(cause)),
{
    let mut message = text;
    match cause {
        Some(reported) => {
            message.append(": ");
            message.append(reported.as_str());
            message
        },
        None => message,
    }
}

/// The failure of a load, from the text of which call failed and what the
/// operating system reported: `LibraryLoadFailed` with the two joined to one
/// message.
pub fn load_failure(text: String, cause: Option<String>) -> (failure: HostError)
    ensures
        failure@ == HostFailure::LibraryLoadFailed(
            load_failure_text(text@, optional_text(cause)),
        ),
{
    HostError::LibraryLoadFailed(load_error_message(text, cause))
}

/// The message is never shorter than the text it begins with.
pub proof fn lemma_load_failure_text_holds_the_text(text: Seq<char>, cause: Option<Seq<char>>)
    ensures
        load_failure_text(text, cause).len() >= text.len(),
        load_failure_text(text, cause).subrange(0, text.len() as int) == text,
{
    match cause {
        Some(reported) => {
            assert((text + ": "@ + reported).subrange(0, text.len() as int) =~= text);
        },
        None => {
            assert(text.subrange(0, text.len() as int) =~= text);
        },
    }
}

/// Takes the outcome of loading the hosting library: the library where it
/// was loaded, and where it was not, `LibraryLoadFailed` with the message of
/// the failure. The message is the text of the error, which tells the call
/// that failed and is never empty, either alone or with a colon, a blank and
/// a report of the operating system behind it. Of that report nothing is
/// stated: it is the system's.
pub fn load_library(outcome: Result<Library, Error>) -> (loaded: Result<Library, HostError>)
    ensures
        loaded is Ok <==> outcome is Ok,
        loaded is Ok ==> loaded->Ok_0 == outcome->Ok_0,
        loaded is Err ==> loaded->Err_0@ is LibraryLoadFailed,
        loaded is Err ==> exists|cause: Option<Seq<char>>| #[trigger]
            load_failure_text(load_error_text_of(outcome->Err_0), cause)
                == loaded->Err_0@->LibraryLoadFailed_0,
        loaded is Err ==> {
            let text = load_error_text_of(outcome->Err_0);
            let message = loaded->Err_0@->LibraryLoadFailed_0;
            &&& 0 < text.len() <= message.len()
            &&& message.subrange(0, text.len() as int) == text
        },
{
    match outcome {
        Ok(library) => Ok(library),
        Err(error) => {
            let text = load_error_text(&error);
            let cause = load_error_cause(&error);
            proof {
                lemma_load_failure_text_holds_the_text(text@, optional_text(cause));
            }
            Err(load_failure(text, cause))
        },
    }
}

} // verus!
