use vstd::prelude::*;
use vstd::std_specs::convert::FromSpecImpl;
use vstd::string::StringExecFns;

verus! {

/// The native properties of a delivery do not decode into the metadata type
/// that the message declares.
#[derive(Debug, PartialEq, Eq)]
pub struct MetaDecodeError {
    /// Why the properties were rejected.
    pub reason: String,
}

/// Everything that can go wrong with one message. Each variant carries the
/// text of its cause.
#[derive(Debug, PartialEq, Eq)]
pub enum Error {
    /// The payload could not be encoded.
    SerializeError(String),
    /// A broker call failed.
    AmqpError(String),
    /// The payload could not be decoded.
    DeserializeError(String),
    /// The native properties could not be decoded.
    MetaDecodeError(MetaDecodeError),
    /// Error occurred in business logic. This kind of business error can be solved by retrying.
    BusinessError(String),
    /// Error occurred in business logic. This kind of business error can not be solved by retrying.
    BusinessPanicError(String),
    /// The task that ran the processor crashed.
    TokioPanicError(String),
}

/// What becomes of a delivery once its processing has ended.
#[derive(Debug, Clone, Copy, PartialEq, Eq, Structural)]
pub enum Disposition {
    /// The delivery is acknowledged and leaves the queue.
    Acknowledge,
    /// The delivery is not acknowledged and the broker delivers it again.
    Retain,
}

impl Error {
    /// Only a retryable business failure is worth a second delivery.
    pub open spec fn retryable(self) -> bool {
        self is BusinessError
    }

    /// The text of the cause that the error carries.
    pub open spec fn cause(self) -> Seq<char> {
        match self {
            Error::SerializeError(cause) => cause@,
            Error::AmqpError(cause) => cause@,
            Error::DeserializeError(cause) => cause@,
            Error::MetaDecodeError(e) => e.reason@,
            Error::BusinessError(cause) => cause@,
            Error::BusinessPanicError(cause) => cause@,
            Error::TokioPanicError(cause) => cause@,
        }
    }

    /// What precedes the cause in the error's message.
    pub open spec fn prefix(self) -> Seq<char> {
        match self {
            Error::BusinessError(_) => "Business Login Error: "@,
            Error::BusinessPanicError(_) => "Business Panic Error: "@,
            Error::TokioPanicError(_) => "Panic Error: "@,
            _ => Seq::empty(),
        }
    }

    /// Whether a second delivery of the same message could succeed.
    pub fn is_retryable(&self) -> (retryable: bool)
        ensures
            retryable == self.retryable(),
    {
        match self {
            Error::BusinessError(_) => true,
            _ => false,
        }
    }

    /// The error's message: the cause, behind the prefix of its kind.
    pub fn message(&self) -> (text: String)
        ensures
            text@ == self.prefix() + self.cause(),
    {
        match self {
            Error::SerializeError(cause) => cause.clone(),
            Error::AmqpError(cause) => cause.clone(),
            Error::DeserializeError(cause) => cause.clone(),
            Error::MetaDecodeError(e) => e.reason.clone(),
            Error::BusinessError(cause) => String::from_str("Business Login Error: ").concat(
                cause.as_str(),
            ),
            Error::BusinessPanicError(cause) => String::from_str("Business Panic Error: ").concat(
                cause.as_str(),
            ),
            Error::TokioPanicError(cause) => String::from_str("Panic Error: ").concat(
                cause.as_str(),
            ),
        }
    }
}

impl From<MetaDecodeError> for Error {
    fn from(e: MetaDecodeError) -> (error: Error) {
        Error::MetaDecodeError(e)
    }
}

impl FromSpecImpl<MetaDecodeError> for Error {
    open spec fn obeys_from_spec() -> bool {
        true
    }

    open spec fn from_spec(e: MetaDecodeError) -> Error {
        Error::MetaDecodeError(e)
    }
}

/// The policy of the consumer: a delivery stays in the queue only when its
/// processing failed in a way that a retry can mend. Success, and every other
/// failure, takes it out.
pub open spec fn disposition_of(outcome: Result<(), Error>) -> Disposition {
    match outcome {
        Ok(_) => Disposition::Acknowledge,
        Err(e) => if e.retryable() {
            Disposition::Retain
        } else {
            Disposition::Acknowledge
        },
    }
}

/// Decides what becomes of a delivery whose processing ended with `outcome`.
pub fn classify(outcome: &Result<(), Error>) -> (disposition: Disposition)
    ensures
        disposition == disposition_of(*outcome),
{
    match outcome {
        Ok(_) => Disposition::Acknowledge,
        Err(e) => if e.is_retryable() {
            Disposition::Retain
        } else {
            Disposition::Acknowledge
        },
    }
}

/// Of the seven kinds of failure exactly one keeps a delivery in the queue:
/// a delivery is retained if and only if its processing ended in a
/// `BusinessError`. In particular no failure to decode, to encode or to reach
/// the broker is ever retried.
pub proof fn lemma_only_business_errors_are_retained(outcome: Result<(), Error>)
    ensures
        disposition_of(outcome) == Disposition::Retain <==> (outcome matches Err(
            Error::BusinessError(_),
        )),
        disposition_of(outcome) == Disposition::Acknowledge <==> !(outcome matches Err(
            Error::BusinessError(_),
        )),
{
}

} // verus!
