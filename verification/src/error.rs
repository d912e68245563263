use vstd::prelude::*;
use vstd::string::StringExecFns;

verus! {

/// The closed failure taxonomy exposed to the rest of the system.
///
/// Every failure reaching this layer from a collaborating subsystem is
/// collapsed into exactly one of these four kinds. `UnexpectedEof` carries
/// no payload: stream end is a single fact, not a diagnosable message. The
/// other kinds carry a human-readable diagnostic taken from the originating
/// failure's own description.
#[derive(Debug, PartialEq, Eq)]
pub enum Error {
    /// Any I/O failure other than end-of-stream; the message is the rendered
    /// text of the failure's kind classifier.
    IO(String),
    /// The stream ended before the expected data was fully read.
    UnexpectedEof,
    /// Data was present but failed to encode or decode into the expected
    /// shape; the message comes from the encoder/decoder framework.
    BadMessage(String),
    /// A collaborating subsystem broke one of its own invariants (a dropped
    /// single-result hand-off, a vanished queue receiver, an elapsed
    /// deadline observed where none was expected).
    UnexpectedBehavior(String),
}

/// The coarse bucket a raw I/O failure's kind classifier falls into, as far
/// as classification cares.
#[derive(Clone, Copy, Debug, PartialEq, Eq, Structural)]
pub enum IoKindClass {
    /// The classifier literally says the stream ended unexpectedly.
    EndOfStream,
    /// The generic, uncategorized bucket; some transports signal stream end
    /// through it with a sentinel payload.
    Uncategorized,
    /// Any other, properly categorized kind.
    Other,
}

/// Everything classification reads of a raw I/O failure: the bucket of its
/// kind classifier, the rendered text of that classifier, and the rendered
/// text of the wrapped diagnostic payload, when one is present.
pub struct IoFailure {
    pub class: IoKindClass,
    pub kind_text: String,
    pub payload: Option<String>,
}

/// The sentinel payload through which some transports signal stream end
/// over the uncategorized bucket. Only an exact match counts.
pub open spec fn is_eof_sentinel(payload: Option<String>) -> bool {
    payload matches Some(p) && p@ == "EOF"@
}

/// What classification yields on a raw I/O failure.
pub open spec fn classified(f: IoFailure) -> Error {
    if f.class is EndOfStream {
        Error::UnexpectedEof
    } else if f.class is Uncategorized && is_eof_sentinel(f.payload) {
        Error::UnexpectedEof
    } else {
        Error::IO(f.kind_text)
    }
}

/// True exactly when the payload renders to the stream-end sentinel.
fn is_eof_payload(payload: &Option<String>) -> (r: bool)
    ensures
        r == is_eof_sentinel(*payload),
{
    match payload {
        Option::Some(p) => {
            let sentinel = String::from_str("EOF");
            *p == sentinel
        },
        Option::None => false,
    }
}

/// The human-readable rendering of a failure, kind label first.
pub open spec fn rendered(e: Error) -> Seq<char> {
    match e {
        Error::IO(m) => "I/O: "@ + m@,
        Error::UnexpectedEof => "Unexpected EOF on stream"@,
        Error::BadMessage(m) => "Bad message: "@ + m@,
        Error::UnexpectedBehavior(m) => "Unexpected behavior: "@ + m@,
    }
}

impl Error {
    /// Render the failure for display: the kind's label, followed by the
    /// diagnostic message on the kinds that carry one.
    pub fn render(&self) -> (r: String)
        ensures
            r@ == rendered(*self),
    {
        match self {
            Error::IO(m) => String::from_str("I/O: ").concat(m.as_str()),
            Error::UnexpectedEof => String::from_str("Unexpected EOF on stream"),
            Error::BadMessage(m) => String::from_str("Bad message: ").concat(m.as_str()),
            Error::UnexpectedBehavior(m) => String::from_str("Unexpected behavior: ").concat(
                m.as_str(),
            ),
        }
    }

    /// Classify a raw I/O failure.
    ///
    /// An end-of-stream classifier, or the uncategorized bucket carrying a
    /// payload that renders to exactly the stream-end sentinel, yields
    /// `UnexpectedEof`. Every other failure, including an uncategorized one
    /// whose payload merely contains the sentinel or is absent, yields `IO`
    /// with the rendered text of the kind classifier as its message.
    pub fn classify_io(f: IoFailure) -> (r: Error)
        ensures
            r == classified(f),
            f.class is EndOfStream ==> r is UnexpectedEof,
            f.class is Uncategorized && is_eof_sentinel(f.payload) ==> r is UnexpectedEof,
            f.class is Uncategorized && !is_eof_sentinel(f.payload) ==> r == Error::IO(
                f.kind_text,
            ),
            f.class is Other ==> r == Error::IO(f.kind_text),
    {
        match f.class {
            IoKindClass::EndOfStream => Error::UnexpectedEof,
            IoKindClass::Uncategorized => {
                if is_eof_payload(&f.payload) {
                    Error::UnexpectedEof
                } else {
                    Error::IO(f.kind_text)
                }
            },
            IoKindClass::Other => Error::IO(f.kind_text),
        }
    }

    /// Wrap a diagnostic supplied by the structured encoder/decoder
    /// framework: always a malformed-message failure carrying that text.
    pub fn custom(msg: String) -> (r: Error)
        ensures
            r == Error::BadMessage(msg),
    {
        Error::BadMessage(msg)
    }
}

} // verus!
