//! The record of the calls made into a guest.
//!
//! A record starts empty and grows by one entry with every call. The only way
//! to add an entry is to make the call: the function that calls the guest is
//! the one that writes the record, and nothing outside this file can.

use crate::guest::{call_function, function_exports, memory_exports};
use crate::reply::CallOutcome;
use crate::request::memory_name;
use crate::state::{CallRecord, CallRequest};
use vstd::prelude::*;

verus! {

/// The bytes of the memory through which an instance exchanges payloads, if it
/// exports one.
pub open spec fn exported_memory(store: wasmer::Store, instance: wasmer::Instance) -> Option<
    Seq<u8>,
> {
    if memory_exports(store, instance).contains_key(memory_name()) {
        Some(memory_exports(store, instance)[memory_name()])
    } else {
        None
    }
}

/// Every call that was made into a guest, in the order in which the calls were
/// made.
pub struct CallLog {
    calls: Ghost<Seq<CallRecord>>,
}

impl View for CallLog {
    type V = Seq<CallRecord>;

    closed spec fn view(&self) -> Seq<CallRecord> {
        self.calls@
    }
}

impl CallLog {
    /// The record of a guest that has not been called yet.
    pub(crate) fn new() -> (log: Self)
        ensures
            log@ == Seq::<CallRecord>::empty(),
    {
        CallLog { calls: Ghost(Seq::empty()) }
    }

    /// Calls the export `name` with `args`, notes what the guest was handed
    /// and how the call ended, and tells how it ended.
    pub(crate) fn invoke(
        &mut self,
        store: &mut wasmer::Store,
        instance: &wasmer::Instance,
        name: &str,
        args: &Vec<i32>,
    ) -> (outcome: CallOutcome)
        requires
            function_exports(*old(store), *instance).contains(name@),
        ensures
            function_exports(*final(store), *instance) == function_exports(*old(store), *instance),
            memory_exports(*final(store), *instance).dom() == memory_exports(
                *old(store),
                *instance,
            ).dom(),
            final(self)@ == old(self)@.push(
                CallRecord {
                    request: CallRequest {
                        export: name@,
                        arguments: args@,
                        memory: exported_memory(*old(store), *instance),
                    },
                    outcome: outcome@,
                },
            ),
    {
        let ghost request = CallRequest {
            export: name@,
            arguments: args@,
            memory: exported_memory(*store, *instance),
        };
        let outcome = match call_function(store, instance, name, args) {
            Err(_) => CallOutcome::Trapped,
            Ok(results) => CallOutcome::Returned(results),
        };
        self.calls = Ghost(self.calls@.push(CallRecord { request, outcome: outcome@ }));
        outcome
    }
}

} // verus!
