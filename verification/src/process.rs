//! What a process knows about its Node.js instance.
//!
//! V8 allows one instance per process. The first load starts it, loads that come while it starts
//! wait for that, and all handles share it. Each handle, on the main thread or on a worker, is a
//! context, and so is each load that goes on; the instance is stopped when the last context goes
//! away.

use vstd::prelude::*;
use crate::error::{Error, ErrorView};
use crate::host::Host;

verus! {

/// The Node.js instance of a process, and how many contexts use it.
pub struct Process<H: Host> {
    /// `None` until an attempt to start the instance has ended.
    instance: Option<Result<H::MainSender, Error>>,
    /// Whether an attempt to start the instance is under way.
    starting: bool,
    contexts: u32,
}

/// What a [`Process`] knows.
pub struct ProcessView<H: Host> {
    /// How the attempt to start the instance has ended.
    pub instance: Option<Result<H::MainSender, ErrorView>>,
    /// Whether an attempt to start the instance is under way.
    pub starting: bool,
    /// How many contexts there are, modulo the number of values of a `u32`.
    pub contexts: u32,
}

/// What a result says, its error being taken by its view.
pub open spec fn outcome_view<T>(outcome: Result<T, Error>) -> Result<T, ErrorView> {
    match outcome {
        Ok(value) => Ok(value),
        Err(error) => Err(error@),
    }
}

/// Whether `copy` is a clone of the value, or says the same as the error.
pub open spec fn is_copy<T: Clone>(original: Result<T, ErrorView>, copy: Result<T, Error>) -> bool {
    match (original, copy) {
        (Ok(value), Ok(clone)) => cloned(value, clone),
        (Err(error), Err(clone)) => clone@ == error,
        _ => false,
    }
}

impl<H: Host> View for Process<H> {
    type V = ProcessView<H>;

    closed spec fn view(&self) -> ProcessView<H> {
        ProcessView {
            instance: match self.instance {
                None => None,
                Some(outcome) => Some(outcome_view(outcome)),
            },
            starting: self.starting,
            contexts: self.contexts,
        }
    }
}

impl<H: Host> ProcessView<H> {
    /// A process that never had an instance.
    pub open spec fn initial() -> ProcessView<H> {
        ProcessView { instance: None, starting: false, contexts: 0 }
    }

    /// The process once there is one more context.
    pub open spec fn entered(self) -> ProcessView<H> {
        ProcessView {
            contexts: if self.contexts == u32::MAX {
                0
            } else {
                (self.contexts + 1) as u32
            },
            ..self
        }
    }

    /// The process once there is one context less.
    pub open spec fn left(self) -> ProcessView<H> {
        ProcessView {
            contexts: if self.contexts == 0 {
                u32::MAX
            } else {
                (self.contexts - 1) as u32
            },
            ..self
        }
    }

    /// Whether the next context to go away is the last.
    pub open spec fn is_last(self) -> bool {
        self.contexts == 1
    }

    /// Whether the next load is the one that starts the instance: no attempt has ended, and none is
    /// under way.
    pub open spec fn is_unstarted(self) -> bool {
        self.instance is None && !self.starting
    }

    /// The process once a load has had its turn: if nobody has started the instance, an attempt to
    /// do so is under way from now on.
    pub open spec fn claimed(self) -> ProcessView<H> {
        ProcessView { starting: self.starting || self.is_unstarted(), ..self }
    }

    /// The process once an attempt to start the instance has ended. Only the first outcome counts.
    pub open spec fn initialized(
        self,
        outcome: Result<H::MainSender, ErrorView>,
    ) -> ProcessView<H> {
        ProcessView {
            instance: match self.instance {
                None => Some(outcome),
                Some(earlier) => Some(earlier),
            },
            starting: false,
            ..self
        }
    }

    /// The process once an attempt to start the instance was given up.
    pub open spec fn abandoned(self) -> ProcessView<H> {
        ProcessView { starting: false, ..self }
    }
}

impl<H: Host> Process<H> {
    /// A process that never had an instance.
    pub fn new() -> (process: Self)
        ensures
            process@ == ProcessView::<H>::initial(),
    {
        Process { instance: None, starting: false, contexts: 0 }
    }

    /// Counts one more context.
    pub(crate) fn enter(&mut self)
        ensures
            final(self)@ == old(self)@.entered(),
    {
        self.contexts = self.contexts.wrapping_add(1);
    }

    /// Counts one context less, and tells whether it was the last.
    pub(crate) fn leave(&mut self) -> (last: bool)
        ensures
            final(self)@ == old(self)@.left(),
            last == old(self)@.is_last(),
    {
        let before: u32 = self.contexts;
        self.contexts = before.wrapping_sub(1);
        before == 1
    }

    /// Claims the attempt to start the instance, and tells whether it was there to be claimed.
    pub(crate) fn claim(&mut self) -> (claimed: bool)
        ensures
            final(self)@ == old(self)@.claimed(),
            claimed == old(self)@.is_unstarted(),
    {
        if self.instance.is_none() && !self.starting {
            self.starting = true;
            true
        } else {
            false
        }
    }

    /// Gives up an attempt to start the instance.
    pub(crate) fn abandon(&mut self)
        ensures
            final(self)@ == old(self)@.abandoned(),
    {
        self.starting = false;
    }

    /// Records how an attempt to start the instance has ended, unless an earlier one is recorded,
    /// and returns a copy of what is recorded.
    pub(crate) fn initialize(&mut self, outcome: Result<H::MainSender, Error>) -> (instance: Result<
        H::MainSender,
        Error,
    >)
        ensures
            final(self)@ == old(self)@.initialized(outcome_view(outcome)),
            is_copy(final(self)@.instance->0, instance),
    {
        self.starting = false;
        if let Some(earlier) = self.instance() {
            return earlier;
        }
        let instance = match &outcome {
            Ok(sender) => Ok(sender.clone()),
            Err(error) => Err(error.clone()),
        };
        self.instance = Some(outcome);
        instance
    }

    /// A copy of how the attempt to start the instance has ended; `None` if there was none yet.
    pub(crate) fn instance(&self) -> (instance: Option<Result<H::MainSender, Error>>)
        ensures
            instance is Some <==> self@.instance is Some,
            instance matches Some(copy) ==> is_copy(self@.instance->0, copy),
    {
        match &self.instance {
            None => None,
            Some(Ok(sender)) => Some(Ok(sender.clone())),
            Some(Err(error)) => Some(Err(error.clone())),
        }
    }
}

} // verus!
