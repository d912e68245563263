use vstd::prelude::*;

use crate::error::classified;
use crate::error::Error;
use crate::error::IoFailure;
use crate::error::IoKindClass;

verus! {

#[verifier::external_type_specification]
#[verifier::external_body]
pub struct ExIoError(std::io::Error);

#[verifier::external_type_specification]
#[verifier::external_body]
pub struct ExIoErrorKind(std::io::ErrorKind);

/// The kind classifier of a raw I/O failure, a function of the failure
/// alone.
pub uninterp spec fn kind_of(e: std::io::Error) -> std::io::ErrorKind;

/// The bucket a kind classifier falls into, a function of the kind alone.
pub uninterp spec fn class_of(k: std::io::ErrorKind) -> IoKindClass;

/// The rendered text of a kind classifier, a function of the kind alone.
pub uninterp spec fn text_of(k: std::io::ErrorKind) -> Seq<char>;

/// Relies on std::io::Error::kind: returns the failure's kind classifier,
/// which depends on the failure alone.
pub assume_specification[ std::io::Error::kind ](e: &std::io::Error) -> (k: std::io::ErrorKind)
    ensures
        k == kind_of(*e),
;

/// Relies on the variants of std::io::ErrorKind: tells the end-of-stream
/// classifier and the uncategorized bucket apart from every other kind,
/// a function of the kind alone.
#[verifier::external_body]
fn class_of_kind(k: std::io::ErrorKind) -> (c: IoKindClass)
    ensures
        c == class_of(k),
{
    match k {
        std::io::ErrorKind::UnexpectedEof => IoKindClass::EndOfStream,
        std::io::ErrorKind::Other => IoKindClass::Uncategorized,
        _ => IoKindClass::Other,
    }
}

/// Relies on std::io::ErrorKind's Display impl: renders the kind
/// classifier's human-readable short description, a function of the kind
/// alone.
#[verifier::external_body]
fn text_of_kind(k: std::io::ErrorKind) -> (r: String)
    ensures
        r@ == text_of(k),
{
    format!("{}", k)
}

/// Relies on std::io::Error::into_inner: hands out the wrapped diagnostic
/// payload, if one is present, rendered through its Display impl. That this
/// call returns normally rests on std::fmt's documented contract that
/// Display impls are infallible, the payload's being an arbitrary one.
#[verifier::external_body]
fn payload_text(e: std::io::Error) -> (r: Option<String>) {
    match e.into_inner() {
        Option::Some(p) => Option::Some(format!("{}", p)),
        Option::None => Option::None,
    }
}

#[verifier::external_type_specification]
#[verifier::external_body]
pub struct ExRecvError(tokio::sync::oneshot::error::RecvError);

#[verifier::external_type_specification]
#[verifier::external_body]
#[verifier::reject_recursive_types(T)]
pub struct ExSendError<T>(tokio::sync::mpsc::error::SendError<T>);

#[verifier::external_type_specification]
#[verifier::external_body]
pub struct ExElapsed(tokio::time::error::Elapsed);

/// Relies on the Display impl of tokio::sync::oneshot::error::RecvError,
/// which always renders "channel closed".
#[verifier::external_body]
fn recv_error_text(e: &tokio::sync::oneshot::error::RecvError) -> (r: String)
    ensures
        r@ == "channel closed"@,
{
    format!("{}", e)
}

/// Relies on the Display impl of tokio::sync::mpsc::error::SendError, which
/// renders "channel closed" for every payload type.
#[verifier::external_body]
fn send_error_text<T>(e: &tokio::sync::mpsc::error::SendError<T>) -> (r: String)
    ensures
        r@ == "channel closed"@,
{
    format!("{}", e)
}

/// Relies on the Display impl of tokio::time::error::Elapsed, which always
/// renders "deadline has elapsed".
#[verifier::external_body]
fn elapsed_text(e: &tokio::time::error::Elapsed) -> (r: String)
    ensures
        r@ == "deadline has elapsed"@,
{
    format!("{}", e)
}

impl Error {
    /// Translate a raw I/O failure from the byte-stream transport.
    ///
    /// The failure's kind classifier and optional payload decide between
    /// `UnexpectedEof` and `IO`, as `Error::classify_io` states exactly; no
    /// other kind can come out of this boundary. An end-of-stream
    /// classifier always yields `UnexpectedEof`; a properly categorized one
    /// always yields `IO` carrying the classifier's rendered text; only the
    /// uncategorized bucket is decided by the payload, whose rendering goes
    /// through an arbitrary Display impl and so takes no name here.
    pub fn from_io(e: std::io::Error) -> (r: Error)
        ensures
            r is UnexpectedEof || r is IO,
            class_of(kind_of(e)) is EndOfStream ==> r == Error::UnexpectedEof,
            class_of(kind_of(e)) is Other ==> (r matches Error::IO(m) && m@ == text_of(
                kind_of(e),
            )),
            class_of(kind_of(e)) is Uncategorized ==> (r == Error::UnexpectedEof || (r matches
            Error::IO(m) && m@ == text_of(kind_of(e)))),
    {
        let kind = e.kind();
        let class = class_of_kind(kind);
        let kind_text = text_of_kind(kind);
        let payload = payload_text(e);
        Error::classify_io(IoFailure { class, kind_text, payload })
    }

    /// Translate a failed single-result hand-off: the producer side was
    /// dropped without delivering a value, an invariant violation upstream.
    pub fn from_oneshot_recv(e: tokio::sync::oneshot::error::RecvError) -> (r: Error)
        ensures
            r matches Error::UnexpectedBehavior(m) && m@ == "channel closed"@,
    {
        Error::UnexpectedBehavior(recv_error_text(&e))
    }

    /// Translate a failed delivery into a multi-producer/single-consumer
    /// queue: the receiver was dropped while a sender was still sending,
    /// whatever payload type the queue was carrying.
    pub fn from_mpsc_send<T>(e: tokio::sync::mpsc::error::SendError<T>) -> (r: Error)
        ensures
            r matches Error::UnexpectedBehavior(m) && m@ == "channel closed"@,
    {
        Error::UnexpectedBehavior(send_error_text(&e))
    }

    /// Translate an elapsed-deadline signal: a timeout reaching this layer
    /// signals a protocol-level stall, not an ordinary I/O condition.
    pub fn from_elapsed(e: tokio::time::error::Elapsed) -> (r: Error)
        ensures
            r matches Error::UnexpectedBehavior(m) && m@ == "deadline has elapsed"@,
    {
        Error::UnexpectedBehavior(elapsed_text(&e))
    }
}

} // verus!
