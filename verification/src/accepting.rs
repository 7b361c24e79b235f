//! Whether a server is accepting connections, and what its accepting task
//! does with each thing it observes.

use vstd::prelude::*;

verus! {

/// The slot for the task that accepts incoming connections.
pub struct ReceiverTask<T> {
    task: Option<T>,
}

impl<T> View for ReceiverTask<T> {
    type V = Option<T>;

    closed spec fn view(&self) -> Option<T> {
        self.task
    }
}

impl<T> ReceiverTask<T> {
    /// A slot with no task: the server is not accepting connections.
    pub fn new() -> (s: Self)
        ensures
            s@ is None,
    {
        ReceiverTask { task: None }
    }

    /// Whether a task is accepting connections. A request to start
    /// accepting is ignored while this holds.
    pub fn is_accepting(&self) -> (r: bool)
        ensures
            r == self@ is Some,
    {
        self.task.is_some()
    }

    /// Records the task that now accepts connections.
    pub fn start(&mut self, task: T)
        requires
            old(self)@ is None,
        ensures
            final(self)@ == Some(task),
    {
        self.task = Some(task);
    }

    /// Takes the running task out of the slot, to be aborted; `None` where
    /// no task was accepting connections, in which case the request is
    /// ignored. Afterwards no task is recorded.
    pub fn stop(&mut self) -> (task: Option<T>)
        ensures
            task == old(self)@,
            final(self)@ is None,
    {
        self.task.take()
    }
}

/// What the accepting task observed: the server shutting down, or the
/// outcome of waiting for an incoming connection. When both are ready, the
/// task observes the shutdown.
pub enum AcceptEvent<C, E> {
    Cancelled,
    Incoming(Result<C, E>),
}

/// What the accepting task does next: end, pass over a connection that
/// could not be accepted, or admit one.
#[derive(Debug)]
pub enum AcceptStep<C, E> {
    Stop,
    Skip(E),
    Admit(C),
}

/// The accepting task's next step: a shutdown ends it, a failed accept is
/// passed over and waiting resumes, and an incoming connection is admitted.
pub fn accept_loop_step<C, E>(event: AcceptEvent<C, E>) -> (step: AcceptStep<C, E>)
    ensures
        match event {
            AcceptEvent::Cancelled => step is Stop,
            AcceptEvent::Incoming(Ok(c)) => step == AcceptStep::<C, E>::Admit(c),
            AcceptEvent::Incoming(Err(e)) => step == AcceptStep::<C, E>::Skip(e),
        },
{
    match event {
        AcceptEvent::Cancelled => AcceptStep::Stop,
        AcceptEvent::Incoming(Ok(connection)) => AcceptStep::Admit(connection),
        AcceptEvent::Incoming(Err(e)) => AcceptStep::Skip(e),
    }
}

} // verus!
