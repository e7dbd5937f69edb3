//! Error type of the Candle integration.

use crate::error::Error as FlashMlaError;
use crate::error::ErrorModel as FlashMlaErrorModel;
use crate::text::labelled;
use candle_core::Error as CandleError;
use vstd::prelude::*;
use vstd::std_specs::convert::FromSpecImpl;

verus! {

/// The error type of `candle-core`. Nothing is assumed of what it holds.
#[verifier::external_type_specification]
#[verifier::external_body]
pub struct ExCandleError(CandleError);

/// Error returned by Candle FlashMLA integration APIs.
#[derive(Debug)]
pub enum Error {
    /// Error returned by the Candle-independent FlashMLA wrapper.
    FlashMla(FlashMlaError),
    /// Error returned by Candle.
    Candle(CandleError),
    /// Tensor validation or pointer extraction failed.
    Tensor(String),
}

/// The mathematical value of an [`Error`].
pub enum ErrorModel {
    FlashMla(FlashMlaErrorModel),
    Candle(CandleError),
    Tensor(Seq<char>),
}

impl View for Error {
    type V = ErrorModel;

    open spec fn view(&self) -> ErrorModel {
        match self {
            Error::FlashMla(error) => ErrorModel::FlashMla(error@),
            Error::Candle(error) => ErrorModel::Candle(*error),
            Error::Tensor(message) => ErrorModel::Tensor(message@),
        }
    }
}

/// The error that `r` reports, or `None` when it succeeded.
pub open spec fn failure<T>(r: Result<T, Error>) -> Option<ErrorModel> {
    match r {
        Ok(_) => None,
        Err(e) => Some(e@),
    }
}

/// A tensor validation error with the given message.
pub open spec fn refused(message: Seq<char>) -> Option<ErrorModel> {
    Some(ErrorModel::Tensor(message))
}

/// The error of the FlashMLA wrapper layer `error`, as an error of this layer.
pub open spec fn lifted(error: Option<FlashMlaErrorModel>) -> Option<ErrorModel> {
    match error {
        Some(e) => Some(ErrorModel::FlashMla(e)),
        None => None,
    }
}

impl From<FlashMlaError> for Error {
    fn from(error: FlashMlaError) -> (e: Error) {
        Error::FlashMla(error)
    }
}

impl FromSpecImpl<FlashMlaError> for Error {
    open spec fn obeys_from_spec() -> bool {
        true
    }

    open spec fn from_spec(error: FlashMlaError) -> Error {
        Error::FlashMla(error)
    }
}

impl From<CandleError> for Error {
    fn from(error: CandleError) -> (e: Error) {
        Error::Candle(error)
    }
}

impl FromSpecImpl<CandleError> for Error {
    open spec fn obeys_from_spec() -> bool {
        true
    }

    open spec fn from_spec(error: CandleError) -> Error {
        Error::Candle(error)
    }
}

/// Reports a tensor validation failure.
pub fn invalid_arg<T>(message: String) -> (r: Result<T, Error>)
    ensures
        failure(r) == refused(message@),
{
    Err(Error::Tensor(message))
}

/// Passes a result of the FlashMLA wrapper layer on.
pub fn from_flashmla<T>(result: Result<T, FlashMlaError>) -> (r: Result<T, Error>)
    ensures
        failure(r) == lifted(crate::error::failure(result)),
        r matches Ok(value) ==> result == Ok::<T, FlashMlaError>(value),
{
    match result {
        Ok(value) => Ok(value),
        Err(error) => Err(Error::from(error)),
    }
}

/// Passes a result of Candle on.
pub fn from_candle<T>(result: Result<T, CandleError>) -> (r: Result<T, Error>)
    ensures
        match result {
            Ok(value) => r == Ok::<T, Error>(value),
            Err(error) => r == Err::<T, Error>(Error::Candle(error)),
        },
{
    match result {
        Ok(value) => Ok(value),
        Err(error) => Err(Error::from(error)),
    }
}

/// The text that `candle_core::Error` displays, by `ToString::to_string`. It can hold messages of
/// the operating system and backtraces, so nothing is claimed of it.
#[verifier::external_body]
fn candle_error_text(error: &CandleError) -> (text: String)
{
    error.to_string()
}

/// Whether `text` is shown for the error `error`. Of an error of Candle nothing is said.
pub open spec fn shows(text: Seq<char>, error: ErrorModel) -> bool {
    match error {
        ErrorModel::FlashMla(error) => text == error.text(),
        ErrorModel::Candle(_) => true,
        ErrorModel::Tensor(message) => text == "tensor error: "@ + message,
    }
}

impl Error {
    /// The text shown for this error. Of an error of Candle it is the text that Candle displays,
    /// on which no clause bears.
    pub fn message(&self) -> (text: String)
        ensures
            shows(text@, self@),
    {
        match self {
            Error::FlashMla(error) => error.message(),
            Error::Candle(error) => candle_error_text(error),
            Error::Tensor(message) => labelled("tensor error: ", message.as_str()),
        }
    }
}

/// A refused tensor is an error of its own kind with the given message, and an error of the kernel
/// layer stays what it is.
pub proof fn errors_keep_their_layer(message: Seq<char>, error: Option<FlashMlaErrorModel>)
    ensures
        refused(message) == Some(ErrorModel::Tensor(message)),
        lifted(error) is Some <==> error is Some,
        error matches Some(e) ==> lifted(error) == Some(ErrorModel::FlashMla(e)),
{
}

/// The value of an error has the kind of the error and its message.
pub proof fn errors_are_what_they_say(e: Error)
    ensures
        e matches Error::FlashMla(error) ==> e@ == ErrorModel::FlashMla(error@),
        e matches Error::Candle(error) ==> e@ == ErrorModel::Candle(error),
        e matches Error::Tensor(message) ==> e@ == ErrorModel::Tensor(message@),
{
}

/// A refused tensor is shown as a tensor error with its message, and an error of the kernel layer as
/// that layer shows it.
pub proof fn shown_errors_tell_their_layer(text: Seq<char>, error: ErrorModel)
    requires
        shows(text, error),
    ensures
        error matches ErrorModel::FlashMla(e) ==> text == e.text(),
        error matches ErrorModel::Tensor(message) ==> text == "tensor error: "@ + message,
{
}

} // verus!
