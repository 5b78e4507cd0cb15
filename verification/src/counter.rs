//! The thread lifecycle coordinator: it counts live virtual threads,
//! records the requested shutdown kind and any captured error message, and
//! signals "settled" exactly when the live count returns to zero.

use vstd::prelude::*;

use crate::events::ShutdownType;

verus! {

/// Coordinator state for one generation. Reset at the start of each one.
pub struct ThreadCounter {
    /// Number of live virtual threads.
    pub counter: u32,
    /// The shutdown kind most recently requested this generation.
    pub shutdown_type: ShutdownType,
    /// The captured error message, if any thread recorded one.
    pub error_data: Option<String>,
}

impl ThreadCounter {
    /// A fresh coordinator: no live threads, no shutdown requested, no
    /// error captured.
    pub fn new() -> (r: ThreadCounter)
        ensures
            r.counter == 0,
            r.shutdown_type is Unset,
            r.error_data is None,
    {
        ThreadCounter { counter: 0, shutdown_type: ShutdownType::Unset, error_data: Option::None }
    }

    /// Register one more live thread. Called before the new thread begins,
    /// so the count can never pass through zero while a spawn is pending.
    pub fn create(&mut self)
        requires
            old(self).counter < u32::MAX,
        ensures
            final(self).counter == old(self).counter + 1,
            final(self).shutdown_type == old(self).shutdown_type,
            final(self).error_data == old(self).error_data,
    {
        self.counter = self.counter + 1;
    }

    /// Unregister a live thread. Returns true exactly when this was the
    /// last one: the count passed from one to zero and the generation has
    /// settled. The caller delivers that notification exactly once.
    pub fn delete(&mut self) -> (settled: bool)
        requires
            old(self).counter > 0,
        ensures
            final(self).counter == old(self).counter - 1,
            final(self).shutdown_type == old(self).shutdown_type,
            final(self).error_data == old(self).error_data,
            settled <==> old(self).counter == 1,
            settled <==> final(self).counter == 0,
    {
        self.counter = self.counter - 1;
        self.counter == 0
    }

    /// Record the requested shutdown kind.
    pub fn set_shutdown_type(&mut self, code: ShutdownType)
        ensures
            final(self).shutdown_type == code,
            final(self).counter == old(self).counter,
            final(self).error_data == old(self).error_data,
    {
        self.shutdown_type = code;
    }

    /// Capture an error message for the run loop to surface.
    pub fn set_error_data(&mut self, data: String)
        ensures
            final(self).error_data == Option::Some(data),
            final(self).counter == old(self).counter,
            final(self).shutdown_type == old(self).shutdown_type,
    {
        self.error_data = Option::Some(data);
    }

    /// The captured error message, if any.
    pub fn get_error_data(&self) -> (r: Option<String>)
        ensures
            r == self.error_data,
    {
        match &self.error_data {
            Option::Some(s) => Option::Some(s.clone()),
            Option::None => Option::None,
        }
    }

    /// Clear the error message and the shutdown kind for a new generation.
    /// The live count is untouched: a generation only restarts once it has
    /// settled at zero.
    pub fn reset(&mut self)
        ensures
            final(self).error_data is None,
            final(self).shutdown_type is Unset,
            final(self).counter == old(self).counter,
    {
        self.error_data = Option::None;
        self.shutdown_type = ShutdownType::Unset;
    }
}

} // verus!
