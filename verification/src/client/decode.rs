//! Reading response bodies: the empty-body rule and the mapping of decoder
//! failures to the engine's errors.

use vstd::prelude::*;
use crate::client::encoding::{
    json_error_at_end, json_error_message, json_error_text, json_from_str,
};
use crate::client::error::{PayPalError, ValidationError};

verus! {

/// Why a body could not be read as the expected shape.
#[derive(Clone, Debug, PartialEq, Eq)]
pub enum DecodeFailure {
    /// The input ended before a value was complete.
    EndOfInput(String),
    /// The input is no JSON, or JSON of another shape.
    Malformed(String),
}

impl DecodeFailure {
    /// The decoder's description of the failure.
    pub open spec fn message(self) -> String {
        match self {
            DecodeFailure::EndOfInput(message) => message,
            DecodeFailure::Malformed(message) => message,
        }
    }

    /// The failure of a cause and a message: `EndOfInput` where the input
    /// ended before a value was complete, `Malformed` for every other cause.
    pub fn of(end_of_input: bool, message: String) -> (r: DecodeFailure)
        ensures
            r == if end_of_input {
                DecodeFailure::EndOfInput(message)
            } else {
                DecodeFailure::Malformed(message)
            },
    {
        if end_of_input {
            DecodeFailure::EndOfInput(message)
        } else {
            DecodeFailure::Malformed(message)
        }
    }

    /// The decoding error that reports this failure.
    pub fn into_error(self) -> (r: PayPalError)
        ensures
            r == PayPalError::Decoding(self.message()),
    {
        match self {
            DecodeFailure::EndOfInput(message) => PayPalError::Decoding(message),
            DecodeFailure::Malformed(message) => PayPalError::Decoding(message),
        }
    }
}

/// What follows the first attempt to read a success body.
#[derive(Debug)]
pub enum DecodeStep<T> {
    /// The outcome is final.
    Done(Result<T, PayPalError>),
    /// The body was empty: this text is to be read in its place.
    Retry(&'static str),
}

/// The text that is read in place of an empty success body.
pub const EMPTY_OBJECT: &'static str = "{}";

/// The rule for a success body after the first attempt to read it. A value
/// that was read is the result. A failure at the end of the input of an empty
/// body asks for the empty object to be read instead, and hands over its
/// text. Every other failure is a decoding error with the decoder's message.
pub open spec fn first_attempt<T>(body: Seq<char>, first: Result<T, DecodeFailure>) -> DecodeStep<
    T,
> {
    match first {
        Ok(value) => DecodeStep::Done(Ok(value)),
        Err(DecodeFailure::EndOfInput(message)) => if body.len() == 0 {
            DecodeStep::Retry(EMPTY_OBJECT)
        } else {
            DecodeStep::Done(Err(PayPalError::Decoding(message)))
        },
        Err(DecodeFailure::Malformed(message)) => DecodeStep::Done(
            Err(PayPalError::Decoding(message)),
        ),
    }
}

/// The rule after the empty object was read in place of an empty body: the
/// outcome is final, a failure a decoding error.
pub open spec fn second_attempt<T>(second: Result<T, DecodeFailure>) -> Result<T, PayPalError> {
    match second {
        Ok(value) => Ok(value),
        Err(failure) => Err(PayPalError::Decoding(failure.message())),
    }
}

/// Decides what follows the first attempt to read a success body.
pub fn after_first_attempt<T>(body: &str, first: Result<T, DecodeFailure>) -> (r: DecodeStep<T>)
    ensures
        r == first_attempt(body@, first),
{
    match first {
        Ok(value) => DecodeStep::Done(Ok(value)),
        Err(DecodeFailure::EndOfInput(message)) => {
            if body.is_empty() {
                DecodeStep::Retry(EMPTY_OBJECT)
            } else {
                DecodeStep::Done(Err(PayPalError::Decoding(message)))
            }
        },
        Err(DecodeFailure::Malformed(message)) => DecodeStep::Done(
            Err(PayPalError::Decoding(message)),
        ),
    }
}

/// Decides the outcome after the empty object was read in place of an empty
/// body.
pub fn after_second_attempt<T>(second: Result<T, DecodeFailure>) -> (r: Result<T, PayPalError>)
    ensures
        r == second_attempt(second),
{
    match second {
        Ok(value) => Ok(value),
        Err(failure) => Err(failure.into_error()),
    }
}

/// The error of a response with a non-success status, from the attempt to
/// read its body as the provider's envelope: an API error that carries the
/// envelope as it was read, or the decoding error where it could not be
/// read.
pub fn api_error(envelope: Result<ValidationError, PayPalError>) -> (r: PayPalError)
    ensures
        r == match envelope {
            Ok(error) => PayPalError::Api(error),
            Err(failure) => failure,
        },
{
    match envelope {
        Ok(error) => PayPalError::Api(error),
        Err(failure) => failure,
    }
}

/// True where a failure is a decoder's error sorted by its cause:
/// `EndOfInput` exactly where the decoder says that the input ended too
/// early, with the decoder's description of the failure as its message.
pub open spec fn sorted_as(failure: DecodeFailure, error: serde_json::Error) -> bool {
    &&& failure is EndOfInput <==> json_error_at_end(error)
    &&& failure.message()@ == json_error_text(error)
}

/// True where a failure is what some error of the decoder sorts as.
pub open spec fn decoder_failure(failure: DecodeFailure) -> bool {
    exists|error: serde_json::Error| #[trigger] sorted_as(failure, error)
}

/// True where an error is the decoding error of a failure of the decoder,
/// with that failure's message.
pub open spec fn decoder_error(failure: PayPalError) -> bool {
    exists|cause: DecodeFailure| #[trigger]
        decoder_failure(cause) && failure == PayPalError::Decoding(cause.message())
}

/// Sorts a decoder's error by its cause: `EndOfInput` where the decoder
/// says that the input ended too early, `Malformed` for every other cause,
/// each with the decoder's description of the failure as its message.
pub fn classify(error: &serde_json::Error) -> (r: DecodeFailure)
    ensures
        r is EndOfInput <==> json_error_at_end(*error),
        r is Malformed <==> !json_error_at_end(*error),
        r.message()@ == json_error_text(*error),
        sorted_as(r, *error),
{
    let message = json_error_message(error);
    DecodeFailure::of(error.is_eof(), message)
}

/// Reads a text as JSON of the expected shape, once. Whether it can be read
/// is the decoder's to say; a failure is an error of the decoder, sorted by
/// its cause.
pub fn decode_once<T: serde::de::DeserializeOwned>(text: &str) -> (r: Result<T, DecodeFailure>)
    ensures
        r is Err ==> decoder_failure(r->Err_0),
{
    match json_from_str::<T>(text) {
        Ok(value) => Ok(value),
        Err(error) => {
            let failure = classify(&error);
            assert(sorted_as(failure, error));
            Err(failure)
        },
    }
}

/// Reads a body as JSON of the expected shape, without the empty-body rule:
/// a failure is the decoding error of the decoder's failure, with its
/// message.
pub fn decode_strict<T: serde::de::DeserializeOwned>(body: &str) -> (r: Result<T, PayPalError>)
    ensures
        r is Err ==> r->Err_0 is Decoding,
        r is Err ==> decoder_error(r->Err_0),
{
    match decode_once::<T>(body) {
        Ok(value) => Ok(value),
        Err(failure) => {
            let ghost cause = failure;
            let error = failure.into_error();
            assert(decoder_failure(cause) && error == PayPalError::Decoding(cause.message()));
            Err(error)
        },
    }
}

/// Reads a success body as JSON of the expected shape. The body is read as
/// it came; where `after_first_attempt` asks for another text to be read in
/// its place, which it does for an empty body, that text is read, and
/// `after_second_attempt` decides. Whatever the decoder makes of the texts,
/// a failure is the decoding error of a failure of the decoder, with its
/// message.
pub fn decode_response<T: serde::de::DeserializeOwned>(body: &str) -> (r: Result<T, PayPalError>)
    ensures
        r is Err ==> r->Err_0 is Decoding,
        r is Err ==> decoder_error(r->Err_0),
{
    let first = decode_once::<T>(body);
    let ghost first_cause = first;
    match after_first_attempt(body, first) {
        DecodeStep::Done(outcome) => {
            proof {
                if outcome is Err {
                    let cause = first_cause->Err_0;
                    assert(decoder_failure(cause) && outcome->Err_0 == PayPalError::Decoding(
                        cause.message(),
                    ));
                }
            }
            outcome
        },
        DecodeStep::Retry(text) => {
            let second = decode_once::<T>(text);
            let ghost second_cause = second;
            let outcome = after_second_attempt(second);
            proof {
                if outcome is Err {
                    let cause = second_cause->Err_0;
                    assert(decoder_failure(cause) && outcome->Err_0 == PayPalError::Decoding(
                        cause.message(),
                    ));
                }
            }
            outcome
        },
    }
}

/// A body that is not empty and cannot be read is a decoding error, whatever
/// the cause that the decoder names.
pub proof fn lemma_unreadable_body_is_decoding_error<T>(body: Seq<char>, failure: DecodeFailure)
    requires
        body.len() > 0,
    ensures
        first_attempt::<T>(body, Err(failure)) == DecodeStep::<T>::Done(
            Err(PayPalError::Decoding(failure.message())),
        ),
{
}

/// An empty body that the decoder finds ended too early is read as the empty
/// object, and succeeds exactly where the empty object can be read, with the
/// value that was read from it.
pub proof fn lemma_empty_body_reads_as_empty_object<T>(message: String, second: Result<
    T,
    DecodeFailure,
>)
    ensures
        first_attempt::<T>(Seq::empty(), Err(DecodeFailure::EndOfInput(message)))
            == DecodeStep::<T>::Retry(EMPTY_OBJECT),
        second_attempt(second) is Ok <==> second is Ok,
        second is Ok ==> second_attempt(second) == Ok::<T, PayPalError>(second->Ok_0),
{
}

} // verus!
