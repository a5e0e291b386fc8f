//! Exception frames: the handlers of one try region and where to rewind to.
use std::collections::BTreeMap;
use std::rc::Rc;
use vstd::prelude::*;

use crate::env::Env;
use crate::value::{ClassId, Function};

verus! {

broadcast use vstd::laws_cmp::group_laws_cmp;

/// The handler that `handlers` holds for `class`, if any.
pub open spec fn handler_for(handlers: Map<u64, Function>, class: ClassId) -> Option<Function> {
    if handlers.contains_key(class.id) {
        Some(handlers[class.id])
    } else {
        None
    }
}

/// Exception frame of one try region.
#[derive(Clone)]
pub struct ExFrame {
    /// Handlers keyed by the identity of the class they catch.
    handlers: BTreeMap<u64, Function>,
    /// The call stack frame to rewind to.
    unwind_env: Option<Rc<Env>>,
    /// The virtual machine stack index to rewind to.
    unwind_stack: usize,
    /// How many native calls must return before the handler can run.
    unwind_native_call_depth: usize,
}

impl ExFrame {
    /// The handlers, keyed by class identity.
    pub closed spec fn handlers(&self) -> Map<u64, Function> {
        self.handlers@
    }

    /// The call stack frame to rewind to.
    pub closed spec fn spec_unwind_env(&self) -> Option<Rc<Env>> {
        self.unwind_env
    }

    /// The virtual machine stack index to rewind to.
    pub closed spec fn spec_unwind_stack(&self) -> usize {
        self.unwind_stack
    }

    /// How many native calls must return before the handler can run.
    pub closed spec fn spec_unwind_native_call_depth(&self) -> usize {
        self.unwind_native_call_depth
    }

    /// Creates a frame with no handlers and the given rewind target.
    pub fn new(
        unwind_env: Option<Rc<Env>>,
        unwind_stack: usize,
        unwind_native_call_depth: usize,
    ) -> (r: ExFrame)
        ensures
            r.handlers() == Map::<u64, Function>::empty(),
            r.spec_unwind_env() == unwind_env,
            r.spec_unwind_stack() == unwind_stack,
            r.spec_unwind_native_call_depth() == unwind_native_call_depth,
    {
        ExFrame { handlers: BTreeMap::new(), unwind_env, unwind_stack, unwind_native_call_depth }
    }

    /// Registers `fun` as the handler for `class`, replacing an earlier one.
    pub fn set_handler(&mut self, class: ClassId, fun: Function)
        ensures
            final(self).handlers() == old(self).handlers().insert(class.id, fun),
            final(self).spec_unwind_env() == old(self).spec_unwind_env(),
            final(self).spec_unwind_stack() == old(self).spec_unwind_stack(),
            final(self).spec_unwind_native_call_depth() == old(
                self,
            ).spec_unwind_native_call_depth(),
    {
        self.handlers.insert(class.id, fun);
    }

    /// Returns the handler for a raised value whose class is `class`, or
    /// `None` where this frame has none for it.
    pub fn get_handler(&self, class: ClassId) -> (r: Option<&Function>)
        ensures
            match r {
                Some(f) => handler_for(self.handlers(), class) == Some(*f),
                None => handler_for(self.handlers(), class) is None,
            },
    {
        self.handlers.get(&class.id)
    }

    /// The call stack frame to rewind to.
    pub fn unwind_env(&self) -> (r: &Option<Rc<Env>>)
        ensures
            *r == self.spec_unwind_env(),
    {
        &self.unwind_env
    }

    /// The virtual machine stack index to rewind to.
    pub fn unwind_stack(&self) -> (r: usize)
        ensures
            r == self.spec_unwind_stack(),
    {
        self.unwind_stack
    }

    /// How many native calls must return before the handler can run.
    pub fn unwind_native_call_depth(&self) -> (r: usize)
        ensures
            r == self.spec_unwind_native_call_depth(),
    {
        self.unwind_native_call_depth
    }
}

/// With handlers registered for two classes `a` and `b`, each resolves to its
/// own handler, an unregistered class `c` resolves to none, and registering
/// again for `a` replaces its handler.
pub proof fn lemma_handler_resolution(
    a: ClassId,
    b: ClassId,
    c: ClassId,
    fa: Function,
    fb: Function,
    fa2: Function,
)
    requires
        a.id != b.id,
        c.id != a.id,
        c.id != b.id,
    ensures
        ({
            let m = Map::<u64, Function>::empty().insert(a.id, fa).insert(b.id, fb);
            &&& handler_for(m, a) == Some(fa)
            &&& handler_for(m, b) == Some(fb)
            &&& handler_for(m, c) is None
            &&& handler_for(m.insert(a.id, fa2), a) == Some(fa2)
            &&& handler_for(m.insert(a.id, fa2), b) == Some(fb)
        }),
{
}

} // verus!
