use vstd::prelude::*;

use crate::error::Error;

verus! {

/// The number of threads used when neither the configuration nor the host
/// says how many there should be.
pub const DEFAULT_THREAD_COUNT: usize = 8;

/// The thread count that a pool is built with: the configured one, else the
/// detected concurrency of the host, else `DEFAULT_THREAD_COUNT`.
pub open spec fn resolved_count(configured: Option<usize>, detected: Option<usize>) -> usize {
    match configured {
        Some(n) => n,
        None => match detected {
            Some(n) => n,
            None => DEFAULT_THREAD_COUNT,
        },
    }
}

/// Relies on `num_cpus::get`: the number of CPUs available to the process,
/// which that crate documents to be at least one.
#[verifier::external_body]
fn cpu_count() -> (r: usize)
    ensures
        r >= 1,
{
    num_cpus::get()
}

/// The available concurrency of the host: the number of CPUs that the
/// process may run on.
pub fn available_concurrency() -> (r: Option<usize>)
    ensures
        r is Some,
        r.unwrap() >= 1,
{
    Some(cpu_count())
}

/// Resolves a thread count from the configured and the detected values.
pub fn resolve_thread_count(configured: Option<usize>, detected: Option<usize>) -> (r: usize)
    ensures
        r == resolved_count(configured, detected),
{
    match configured {
        Some(n) => n,
        None => match detected {
            Some(n) => n,
            None => DEFAULT_THREAD_COUNT,
        },
    }
}

/// The configuration of a pool before it is built. Every option is optional.
#[derive(Clone)]
pub struct ThreadPoolBuilder {
    /// The number of worker threads.
    pub thread_count: Option<usize>,
    /// The name given to every worker thread.
    pub thread_name: Option<String>,
    /// The stack size of every worker thread.
    pub thread_stack_size: Option<usize>,
}

/// A configuration whose thread count has been resolved, ready for spawning
/// that many worker threads.
pub struct PoolConfig {
    /// The number of worker threads; never zero.
    pub thread_count: usize,
    /// The name given to every worker thread.
    pub thread_name: Option<String>,
    /// The stack size of every worker thread.
    pub thread_stack_size: Option<usize>,
}

impl Default for ThreadPoolBuilder {
    fn default() -> (r: Self)
        ensures
            r.thread_count is None,
            r.thread_name is None,
            r.thread_stack_size is None,
    {
        ThreadPoolBuilder { thread_count: None, thread_name: None, thread_stack_size: None }
    }
}

impl ThreadPoolBuilder {
    /// Sets the number of worker threads.
    pub fn with_thread_count(self, thread_count: usize) -> (r: Self)
        ensures
            r.thread_count == Some(thread_count),
            r.thread_name == self.thread_name,
            r.thread_stack_size == self.thread_stack_size,
    {
        ThreadPoolBuilder { thread_count: Some(thread_count), ..self }
    }

    /// Sets the name given to every worker thread.
    pub fn with_thread_name(self, name: String) -> (r: Self)
        ensures
            r.thread_count == self.thread_count,
            r.thread_name == Some(name),
            r.thread_stack_size == self.thread_stack_size,
    {
        ThreadPoolBuilder { thread_name: Some(name), ..self }
    }

    /// Sets the stack size of every worker thread.
    pub fn with_thread_stack_size(self, size: usize) -> (r: Self)
        ensures
            r.thread_count == self.thread_count,
            r.thread_name == self.thread_name,
            r.thread_stack_size == Some(size),
    {
        ThreadPoolBuilder { thread_stack_size: Some(size), ..self }
    }

    /// Resolves this configuration against a detected concurrency. A resolved
    /// thread count of zero is refused with `NoThreads`; otherwise the options
    /// are passed on unchanged.
    pub fn resolve_with(self, detected: Option<usize>) -> (r: Result<PoolConfig, Error>)
        ensures
            resolved_count(self.thread_count, detected) == 0 <==> r is Err,
            r is Err ==> r->Err_0.is_no_threads(),
            r is Ok ==> ({
                let c = r->Ok_0;
                &&& c.wf()
                &&& c.thread_count == resolved_count(self.thread_count, detected)
                &&& c.thread_name == self.thread_name
                &&& c.thread_stack_size == self.thread_stack_size
            }),
    {
        let thread_count = resolve_thread_count(self.thread_count, detected);
        if thread_count == 0 {
            return Err(Error::NoThreads);
        }
        Ok(PoolConfig {
            thread_count,
            thread_name: self.thread_name,
            thread_stack_size: self.thread_stack_size,
        })
    }

    /// Resolves this configuration, asking the host for its concurrency only
    /// when no thread count was configured.
    pub fn resolve(self) -> (r: Result<PoolConfig, Error>)
        ensures
            self.thread_count == Some(0usize) <==> r is Err,
            r is Err ==> r->Err_0.is_no_threads(),
            r is Ok ==> ({
                let c = r->Ok_0;
                &&& c.wf()
                &&& self.thread_count is Some ==> c.thread_count == self.thread_count.unwrap()
                &&& c.thread_name == self.thread_name
                &&& c.thread_stack_size == self.thread_stack_size
            }),
    {
        let detected = match self.thread_count {
            Some(_) => None,
            None => available_concurrency(),
        };
        self.resolve_with(detected)
    }
}

impl PoolConfig {
    /// A resolved configuration always asks for at least one thread.
    pub open spec fn wf(&self) -> bool {
        self.thread_count > 0
    }

    /// The name for one worker thread.
    pub fn worker_name(&self) -> (r: Option<String>)
        ensures
            r is Some <==> self.thread_name is Some,
            r is Some ==> r.unwrap()@ == self.thread_name.unwrap()@,
    {
        match &self.thread_name {
            Some(name) => Some(name.clone()),
            None => None,
        }
    }
}

} // verus!
