use vstd::prelude::*;

verus! {

/// The operating-system error of a failed thread spawn, carried unopened.
#[verifier::external_type_specification]
#[verifier::external_body]
pub struct ExIoError(std::io::Error);

/// An error that may be produced when creating a pool or joining a job.
#[derive(Debug)]
pub enum Error {
    /// Spawning a worker thread failed.
    Io(std::io::Error),
    /// The pool would have no threads.
    NoThreads,
    /// The job behind a handle ended without delivering its value.
    Timeout,
}

/// Relies on the `Display` impl of `std::io::Error` for the text of an
/// operating-system error; nothing is stated of that text.
#[verifier::external_body]
fn io_error_text(err: &std::io::Error) -> (r: String) {
    format!("{}", err)
}

impl Error {
    /// True for the `NoThreads` variant.
    pub open spec fn is_no_threads(&self) -> bool {
        self is NoThreads
    }

    /// True for the `Timeout` variant.
    pub open spec fn is_timeout(&self) -> bool {
        self is Timeout
    }

    /// A human-readable description of the error.
    pub fn describe(&self) -> (r: String)
        ensures
            self is NoThreads ==> r@ == "thread pool has no threads"@,
            self is Timeout ==> r@ == "a timeout occurred"@,
    {
        match self {
            Error::Io(err) => io_error_text(err),
            Error::NoThreads => "thread pool has no threads".to_string(),
            Error::Timeout => "a timeout occurred".to_string(),
        }
    }
}

} // verus!
