//! Error type of the kernel wrapper layer.

use crate::sys::flashmla_status_t;
use crate::text::labelled;
use crate::text::signed_number;
use vstd::prelude::*;
use vstd::string::StringExecFns;

verus! {

/// Error returned by FlashMLA wrapper operations.
#[derive(Debug, Clone, PartialEq, Eq)]
pub enum Error {
    /// A caller-provided parameter was invalid.
    InvalidArgument(String),
    /// The current GPU architecture is not supported by the requested FlashMLA path.
    UnsupportedArch(String),
    /// CUDA returned an error.
    Cuda(String),
    /// FlashMLA or the wrapper hit an unexpected internal error.
    Internal(String),
    /// A raw status value could not be mapped.
    UnknownStatus(i32),
}

/// The mathematical value of an [`Error`]: its variant and its message.
pub enum ErrorModel {
    InvalidArgument(Seq<char>),
    UnsupportedArch(Seq<char>),
    Cuda(Seq<char>),
    Internal(Seq<char>),
    UnknownStatus(int),
}

impl View for Error {
    type V = ErrorModel;

    open spec fn view(&self) -> ErrorModel {
        match self {
            Error::InvalidArgument(message) => ErrorModel::InvalidArgument(message@),
            Error::UnsupportedArch(message) => ErrorModel::UnsupportedArch(message@),
            Error::Cuda(message) => ErrorModel::Cuda(message@),
            Error::Internal(message) => ErrorModel::Internal(message@),
            Error::UnknownStatus(status) => ErrorModel::UnknownStatus(*status as int),
        }
    }
}

impl ErrorModel {
    /// The text shown for this error.
    pub open spec fn text(self) -> Seq<char> {
        match self {
            ErrorModel::InvalidArgument(message) => "invalid argument: "@ + message,
            ErrorModel::UnsupportedArch(message) => "unsupported architecture: "@ + message,
            ErrorModel::Cuda(message) => "cuda error: "@ + message,
            ErrorModel::Internal(message) => "internal error: "@ + message,
            ErrorModel::UnknownStatus(status) => "unknown flashmla status: "@
                + crate::text::signed_decimal(status),
        }
    }
}

/// The error that `r` reports, or `None` when it succeeded.
pub open spec fn failure<T>(r: Result<T, Error>) -> Option<ErrorModel> {
    match r {
        Ok(_) => None,
        Err(e) => Some(e@),
    }
}

/// The first of two errors, in the order in which they are looked for.
pub open spec fn first<E>(a: Option<E>, b: Option<E>) -> Option<E> {
    if a is Some {
        a
    } else {
        b
    }
}

/// An invalid-argument error with the given message.
pub open spec fn invalid(message: Seq<char>) -> Option<ErrorModel> {
    Some(ErrorModel::InvalidArgument(message))
}

/// `context`, followed by the native error message when there is a non-empty one.
pub open spec fn with_last_error(context: Seq<char>, last_error: Option<Seq<char>>) -> Seq<char> {
    match last_error {
        Some(message) => if message.len() > 0 {
            context + ": "@ + message
        } else {
            context
        },
        None => context,
    }
}

/// The text of an optional message.
pub open spec fn message_of(message: Option<String>) -> Option<Seq<char>> {
    match message {
        Some(m) => Some(m@),
        None => None,
    }
}

/// The error that stands for the kernel library's status `status`, described by `context`.
pub open spec fn status_error(status: flashmla_status_t, context: Seq<char>) -> ErrorModel {
    match status {
        flashmla_status_t::FLASHMLA_STATUS_SUCCESS => ErrorModel::Internal(
            context + ": unexpected success status"@,
        ),
        flashmla_status_t::FLASHMLA_STATUS_INVALID_ARGUMENT => ErrorModel::InvalidArgument(context),
        flashmla_status_t::FLASHMLA_STATUS_UNSUPPORTED_ARCH => ErrorModel::UnsupportedArch(context),
        flashmla_status_t::FLASHMLA_STATUS_CUDA_ERROR => ErrorModel::Cuda(context),
        flashmla_status_t::FLASHMLA_STATUS_INTERNAL_ERROR => ErrorModel::Internal(context),
    }
}

/// Why a call that returned `status` failed, if it did. `context` describes the failure.
pub open spec fn call_error(
    status: flashmla_status_t,
    context: Seq<char>,
    last_error: Option<Seq<char>>,
) -> Option<ErrorModel> {
    if status == flashmla_status_t::FLASHMLA_STATUS_SUCCESS {
        None
    } else {
        Some(status_error(status, with_last_error(context, last_error)))
    }
}

/// Appends the message that the kernel library left for the failing call, if it left one.
pub fn append_last_error(context: String, last_error: Option<String>) -> (message: String)
    ensures
        message@ == with_last_error(context@, message_of(last_error)),
{
    match last_error {
        Some(last) => {
            if last.as_str().is_empty() {
                context
            } else {
                context.concat(": ").concat(last.as_str())
            }
        },
        None => context,
    }
}

impl Error {
    /// Converts a raw FlashMLA status into an error.
    ///
    /// `last_error` is the message that the kernel library keeps for the most recent failing call.
    pub fn from_status(
        status: flashmla_status_t,
        context: String,
        last_error: Option<String>,
    ) -> (e: Error)
        ensures
            e@ == status_error(status, with_last_error(context@, message_of(last_error))),
    {
        let context = append_last_error(context, last_error);
        match status {
            flashmla_status_t::FLASHMLA_STATUS_SUCCESS => Error::Internal(
                context.concat(": unexpected success status"),
            ),
            flashmla_status_t::FLASHMLA_STATUS_INVALID_ARGUMENT => Error::InvalidArgument(context),
            flashmla_status_t::FLASHMLA_STATUS_UNSUPPORTED_ARCH => Error::UnsupportedArch(context),
            flashmla_status_t::FLASHMLA_STATUS_CUDA_ERROR => Error::Cuda(context),
            flashmla_status_t::FLASHMLA_STATUS_INTERNAL_ERROR => Error::Internal(context),
        }
    }

    /// The text shown for this error.
    pub fn message(&self) -> (text: String)
        ensures
            text@ == self@.text(),
    {
        match self {
            Error::InvalidArgument(message) => labelled("invalid argument: ", message.as_str()),
            Error::UnsupportedArch(message) => labelled(
                "unsupported architecture: ",
                message.as_str(),
            ),
            Error::Cuda(message) => labelled("cuda error: ", message.as_str()),
            Error::Internal(message) => labelled("internal error: ", message.as_str()),
            Error::UnknownStatus(status) => labelled(
                "unknown flashmla status: ",
                signed_number(*status).as_str(),
            ),
        }
    }
}

/// A failing status becomes the error of its kind, with the context as its message, followed by the
/// message of the kernel library where that is not empty.
pub proof fn statuses_keep_their_kind(context: Seq<char>, last: Seq<char>)
    ensures
        status_error(flashmla_status_t::FLASHMLA_STATUS_INVALID_ARGUMENT, context)
            == ErrorModel::InvalidArgument(context),
        status_error(flashmla_status_t::FLASHMLA_STATUS_UNSUPPORTED_ARCH, context)
            == ErrorModel::UnsupportedArch(context),
        status_error(flashmla_status_t::FLASHMLA_STATUS_CUDA_ERROR, context) == ErrorModel::Cuda(
            context,
        ),
        status_error(flashmla_status_t::FLASHMLA_STATUS_INTERNAL_ERROR, context)
            == ErrorModel::Internal(context),
        status_error(flashmla_status_t::FLASHMLA_STATUS_SUCCESS, context) is Internal,
        with_last_error(context, None) == context,
        with_last_error(context, Some(Seq::empty())) == context,
        last.len() > 0 ==> with_last_error(context, Some(last)) == context + seq![':', ' '] + last,
{
    reveal_strlit(": ");
    assert(": "@ == seq![':', ' ']);
}

/// The shown text of an error ends with its message, and texts of errors of different kinds start
/// differently.
pub proof fn shown_errors_tell_their_kind(a: ErrorModel, b: ErrorModel)
    ensures
        a.text()[0] == b.text()[0] && a.text()[1] == b.text()[1] && a.text()[2] == b.text()[2] ==> {
            ||| a is InvalidArgument && b is InvalidArgument
            ||| a is UnsupportedArch && b is UnsupportedArch
            ||| a is Cuda && b is Cuda
            ||| a is Internal && b is Internal
            ||| a is UnknownStatus && b is UnknownStatus
        },
        a matches ErrorModel::InvalidArgument(message) ==> message.is_suffix_of(a.text()),
        a matches ErrorModel::UnsupportedArch(message) ==> message.is_suffix_of(a.text()),
        a matches ErrorModel::Cuda(message) ==> message.is_suffix_of(a.text()),
        a matches ErrorModel::Internal(message) ==> message.is_suffix_of(a.text()),
        a matches ErrorModel::UnknownStatus(status) ==> crate::text::signed_decimal(
            status,
        ).is_suffix_of(a.text()),
{
    reveal_strlit("invalid argument: ");
    reveal_strlit("unsupported architecture: ");
    reveal_strlit("cuda error: ");
    reveal_strlit("internal error: ");
    reveal_strlit("unknown flashmla status: ");
}

/// The first of two errors is the second only where there is no first.
pub proof fn first_errors_win<E>(a: Option<E>, b: Option<E>)
    ensures
        a is Some ==> first(a, b) == a,
        a is None ==> first(a, b) == b,
{
}

/// The error of the first of the first `n` checks that is violated. A check is a pair of whether it
/// is violated and the error that it then reports.
pub open spec fn violated_upto<E>(checks: Seq<(bool, Option<E>)>, n: int) -> Option<E>
    decreases n,
{
    if n <= 0 {
        None
    } else {
        first(
            violated_upto(checks, n - 1),
            if checks[n - 1].0 {
                checks[n - 1].1
            } else {
                None
            },
        )
    }
}

/// The error of the first check that is violated.
pub open spec fn first_violated<E>(checks: Seq<(bool, Option<E>)>) -> Option<E> {
    violated_upto(checks, checks.len() as int)
}

/// The check that reports the given error, and is violated where there is one.
pub open spec fn as_check<E>(error: Option<E>) -> (bool, Option<E>) {
    (error is Some, error)
}

/// What is reported is the error of a violated check before which no check is violated, and nothing
/// where no check is violated.
pub proof fn first_violations_are_reported<E>(checks: Seq<(bool, Option<E>)>, k: int)
    requires
        0 <= k <= checks.len(),
        forall|j: int| 0 <= j < k ==> !(#[trigger] checks[j]).0,
        k < checks.len() ==> checks[k].0 && checks[k].1 is Some,
    ensures
        k < checks.len() ==> first_violated(checks) == checks[k].1,
        k == checks.len() ==> first_violated(checks) is None,
{
    lemma_no_violation(checks, k);
    if k < checks.len() {
        lemma_violation_stays(checks, k + 1, checks.len() as int);
    }
}

/// Where no check is violated nothing is reported.
proof fn lemma_no_violation<E>(checks: Seq<(bool, Option<E>)>, k: int)
    requires
        0 <= k <= checks.len(),
        forall|j: int| 0 <= j < k ==> !(#[trigger] checks[j]).0,
    ensures
        violated_upto(checks, k) is None,
    decreases k,
{
    if k > 0 {
        lemma_no_violation(checks, k - 1);
    }
}

/// What is reported after some checks is reported after all.
proof fn lemma_violation_stays<E>(checks: Seq<(bool, Option<E>)>, i: int, n: int)
    requires
        0 <= i <= n,
        violated_upto(checks, i) is Some,
    ensures
        violated_upto(checks, n) == violated_upto(checks, i),
    decreases n - i,
{
    if i < n {
        lemma_violation_stays(checks, i, n - 1);
    }
}

/// A call succeeds if and only if its status is zero. Otherwise its error is of the kind of the
/// status, and its message is the context with the message of the kernel library.
pub proof fn calls_fail_by_their_status(
    status: flashmla_status_t,
    context: Seq<char>,
    last_error: Option<Seq<char>>,
)
    ensures
        call_error(status, context, last_error) is None <==> status.code() == 0,
        status.code() == 1 ==> call_error(status, context, last_error) == Some(
            ErrorModel::InvalidArgument(with_last_error(context, last_error)),
        ),
        status.code() == 2 ==> call_error(status, context, last_error) == Some(
            ErrorModel::UnsupportedArch(with_last_error(context, last_error)),
        ),
        status.code() == 3 ==> call_error(status, context, last_error) == Some(
            ErrorModel::Cuda(with_last_error(context, last_error)),
        ),
        status.code() == 4 ==> call_error(status, context, last_error) == Some(
            ErrorModel::Internal(with_last_error(context, last_error)),
        ),
{
}

/// The value of an error has the kind of the error and its message, and an invalid argument is an
/// error of that kind.
pub proof fn errors_are_what_they_say(e: Error, message: Seq<char>)
    ensures
        e matches Error::InvalidArgument(m) ==> e@ == ErrorModel::InvalidArgument(m@),
        e matches Error::UnsupportedArch(m) ==> e@ == ErrorModel::UnsupportedArch(m@),
        e matches Error::Cuda(m) ==> e@ == ErrorModel::Cuda(m@),
        e matches Error::Internal(m) ==> e@ == ErrorModel::Internal(m@),
        e matches Error::UnknownStatus(status) ==> e@ == ErrorModel::UnknownStatus(status as int),
        invalid(message) == Some(ErrorModel::InvalidArgument(message)),
{
}

/// A message of the kernel library is passed on as it is.
pub proof fn messages_are_passed_on(message: Option<String>)
    ensures
        message is None <==> message_of(message) is None,
        message matches Some(m) ==> message_of(message) == Some(m@),
{
}

} // verus!
