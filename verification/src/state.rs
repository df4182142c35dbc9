//! The interop state: the one context of a session, and the decisions it
//! takes before a call into the host runtime is made.

use crate::error::NotFoundError;
use crate::objects::ObjectTable;
use crate::registry::JavaFnId;
use crate::registry::Registry;
use crate::value::ObjectId;
use vstd::prelude::*;

verus! {

/// The state of one session of the bridge.
///
/// `S` and `M` are the host runtime's handles of a static function and of an
/// instance method, `R` is its durable reference to an object. The bridge
/// stores them and hands them back; it never looks inside.
///
/// The owner creates the state once and drops it once. Dropping it drops every
/// durable reference that is still registered.
pub struct LibState<S, M, R> {
    /// The static functions resolved so far.
    pub java_static_fns: Registry<S>,
    /// The instance methods resolved so far.
    pub java_methods: Registry<M>,
    /// The objects that the other side may address.
    pub java_objs: ObjectTable<R>,
    /// The durable reference to the host runtime's handle of this state.
    pub java_ref: Option<R>,
}

impl<S, M, R> LibState<S, M, R> {
    /// A new state: nothing resolved, nothing registered.
    pub fn create() -> (state: Box<LibState<S, M, R>>)
        ensures
            state.java_static_fns@.entries.len() == 0,
            state.java_methods@.entries.len() == 0,
            state.java_objs@.objects == Map::<u64, R>::empty(),
            state.java_objs@.next == 0,
            state.java_ref is None,
    {
        Box::new(
            LibState {
                java_static_fns: Registry::new(),
                java_methods: Registry::new(),
                java_objs: ObjectTable::new(),
                java_ref: None,
            },
        )
    }

    /// Decides a call of a static function: the handle to invoke, or the
    /// error where `fn_id` was never issued. The state does not change.
    pub fn call_static_java_fn(&self, fn_id: JavaFnId) -> (r: Result<&S, NotFoundError>)
        ensures
            match r {
                Ok(function) => self.java_static_fns@.handle(fn_id.0 as int) == Some(*function),
                Err(e) => self.java_static_fns@.handle(fn_id.0 as int) is None && e@
                    == "Unable to find static method with id"@,
            },
    {
        match self.java_static_fns.handle(fn_id) {
            Some(function) => Ok(function),
            None => Err(NotFoundError::new("Unable to find static method with id")),
        }
    }

    /// Decides a call of an instance method: the receiver and the handle to
    /// invoke. The receiver is looked up first, so a stale or unknown `obj`
    /// is reported whatever `fn_id` is. The state does not change.
    pub fn call_java_method_fn(&self, obj: ObjectId, fn_id: JavaFnId) -> (r: Result<
        (&R, &M),
        NotFoundError,
    >)
        ensures
            match r {
                Ok((receiver, method)) => {
                    &&& self.java_objs@.resolve(obj) == Some(*receiver)
                    &&& self.java_methods@.handle(fn_id.0 as int) == Some(*method)
                },
                Err(e) => if self.java_objs@.resolve(obj) is None {
                    e@ == "C# object not synced to Java"@
                } else {
                    &&& self.java_methods@.handle(fn_id.0 as int) is None
                    &&& e@ == "Unable to find static method with id"@
                },
            },
    {
        let receiver = match self.java_objs.resolve(obj) {
            Ok(receiver) => receiver,
            Err(e) => {
                return Err(e);
            },
        };
        match self.java_methods.handle(fn_id) {
            Some(method) => Ok((receiver, method)),
            None => Err(NotFoundError::new("Unable to find static method with id")),
        }
    }
}

} // verus!
