use vstd::prelude::*;

verus! {

/// The kinds of failure this library reports, named as `std::io::ErrorKind` names them.
#[derive(Debug, Clone, Copy, PartialEq, Eq, Structural)]
pub enum IoErrorKind {
    /// A parameter (here: a URI) was malformed.
    InvalidInput,
    /// The peer refused the connection.
    ConnectionRefused,
}

/// An error made of a kind and a message, the two things `std::io::Error::new` takes.
#[derive(Debug)]
pub struct IoError {
    pub kind: IoErrorKind,
    pub detail: String,
}

/// `e` is an input error that carries the message `detail`.
pub open spec fn is_input_error(e: IoError, detail: Seq<char>) -> bool {
    e.kind == IoErrorKind::InvalidInput && e.detail@ == detail
}

/// `res` is the outcome that `expected` describes: the same value, or an input error with the
/// same message.
pub open spec fn outcome_is<T: View>(res: Result<T, IoError>, expected: Result<T::V, Seq<char>>) -> bool {
    match res {
        Ok(v) => expected == Ok::<T::V, Seq<char>>(v@),
        Err(e) => match expected {
            Err(m) => is_input_error(e, m),
            Ok(_) => false,
        },
    }
}

impl IoError {
    /// An error of the given kind with the given message.
    pub fn new(kind: IoErrorKind, detail: &str) -> (e: IoError)
        ensures
            e.kind == kind,
            e.detail@ == detail@,
    {
        IoError { kind, detail: detail.to_owned() }
    }
}

/// An error of kind `InvalidInput` that carries the given message.
pub fn io_input_err(detail: &str) -> (e: IoError)
    ensures
        is_input_error(e, detail@),
{
    IoError::new(IoErrorKind::InvalidInput, detail)
}

} // verus!
