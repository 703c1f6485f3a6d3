use vstd::prelude::*;

use crate::error::Error;

verus! {

/// The sending end of a `oneshot` channel, carried to the job unopened.
#[verifier::external_type_specification]
#[verifier::external_body]
#[verifier::reject_recursive_types(T)]
pub struct ExOneshotSender<T>(oneshot::Sender<T>);

/// The receiving end of a `oneshot` channel, held by a `JobHandle`.
#[verifier::external_type_specification]
#[verifier::external_body]
#[verifier::reject_recursive_types(T)]
pub struct ExOneshotReceiver<T>(oneshot::Receiver<T>);

/// The error of `oneshot::Receiver::try_recv`; only its presence is used.
#[verifier::external_type_specification]
#[verifier::external_body]
pub struct ExTryRecvError(oneshot::TryRecvError);

/// The error of `oneshot::Receiver::recv`; only its presence is used.
#[verifier::external_type_specification]
#[verifier::external_body]
pub struct ExRecvError(oneshot::RecvError);

/// Relies on `oneshot::channel`: a fresh channel for one value. Nothing is
/// stated of the two ends.
pub assume_specification<T>[ oneshot::channel::<T> ]() -> (oneshot::Sender<T>, oneshot::Receiver<T>);

/// Relies on `oneshot::Receiver::try_recv`: it never blocks. Whether a value is
/// there depends on the sending thread, so nothing is stated of the result.
pub assume_specification<T>[ oneshot::Receiver::<T>::try_recv ](rx: &oneshot::Receiver<T>) -> Result<T, oneshot::TryRecvError>;

/// Relies on `oneshot::Receiver::recv`: it blocks until the value arrives or
/// the sender is gone. Which of the two happens depends on the sending thread.
/// The crate is built without its `async` feature, so a receiver is never
/// polled as a future and `recv` has no panicking branch.
pub assume_specification<T>[ oneshot::Receiver::<T>::recv ](rx: oneshot::Receiver<T>) -> Result<T, oneshot::RecvError>;

/// A handle to a job that delivers a value when it finishes.
///
/// A value seen by `is_completed` is kept in the handle, so that `join` or
/// `try_join` hand it out later without waiting again.
#[verifier::reject_recursive_types(T)]
pub struct JobHandle<T> {
    rx: oneshot::Receiver<T>,
    maybe_recv: Option<T>,
}

impl<T> JobHandle<T> {
    /// The value already taken from the channel and kept for joining.
    pub closed spec fn cached(&self) -> Option<T> {
        self.maybe_recv
    }

    /// The receiving end of the job's channel.
    pub closed spec fn receiver(&self) -> oneshot::Receiver<T> {
        self.rx
    }

    /// A handle on the receiving end of a job's channel, with nothing kept yet.
    pub fn new(rx: oneshot::Receiver<T>) -> (r: Self)
        ensures
            r.cached() is None,
            r.receiver() == rx,
    {
        JobHandle { rx, maybe_recv: None }
    }

    /// A fresh channel: the sender goes to the job, the handle to the caller.
    pub fn channel() -> (r: (oneshot::Sender<T>, Self))
        ensures
            r.1.cached() is None,
    {
        let (tx, rx) = oneshot::channel();
        (tx, JobHandle::new(rx))
    }

    /// Whether the job has delivered its value, so that joining will not block.
    /// A value that arrives is kept for a later `join` or `try_join`; once one
    /// is kept the channel is not asked again.
    pub fn is_completed(&mut self) -> (r: bool)
        ensures
            r == final(self).cached() is Some,
            old(self).cached() is Some ==> final(self).cached() == old(self).cached(),
            final(self).receiver() == old(self).receiver(),
    {
        if self.maybe_recv.is_some() {
            return true;
        }
        match self.rx.try_recv() {
            Ok(x) => {
                self.maybe_recv = Some(x);
                true
            },
            Err(_) => false,
        }
    }

    /// Takes the job's value without blocking, or hands the handle back if no
    /// value is there yet.
    pub fn try_join(self) -> (r: Result<T, Self>)
        ensures
            self.cached() is Some ==> r == Ok::<T, Self>(self.cached().unwrap()),
            r is Err ==> self.cached() is None,
            r is Err ==> r->Err_0.cached() is None,
            r is Err ==> r->Err_0.receiver() == self.receiver(),
    {
        let JobHandle { rx, maybe_recv } = self;
        match maybe_recv {
            Some(x) => Ok(x),
            None => match rx.try_recv() {
                Ok(x) => Ok(x),
                Err(_) => Err(JobHandle { rx, maybe_recv: None }),
            },
        }
    }

    /// Waits for the job's value. `Timeout` means that the job ended without
    /// delivering one.
    pub fn join(self) -> (r: Result<T, Error>)
        ensures
            self.cached() is Some ==> r == Ok::<T, Error>(self.cached().unwrap()),
            r is Err ==> r->Err_0.is_timeout(),
    {
        let JobHandle { rx, maybe_recv } = self;
        match maybe_recv {
            Some(x) => Ok(x),
            None => match rx.recv() {
                Ok(x) => Ok(x),
                Err(_) => Err(Error::Timeout),
            },
        }
    }
}

} // verus!
