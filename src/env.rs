//! Stack frames of the virtual machine.
use std::rc::Rc;
use vstd::prelude::*;

use crate::value::NativeValue;

verus! {

/// Return address of a frame that does not return anywhere.
pub const NO_RETURN: u32 = 0xffff_ffff;

/// Why a checked frame access failed.
#[derive(Clone, Copy, Debug, PartialEq, Eq, Structural)]
pub enum FrameError {
    /// The slot index is not below the number of slots.
    OutOfBounds,
    /// The chain of lexical parents is shorter than the number of levels asked for.
    InsufficientDepth,
}

/// Stack frame of the virtual machine.
#[derive(Clone)]
pub struct Env {
    /// Number of arguments the function was called with.
    pub nargs: u16,
    /// Instruction pointer to return to on return.
    pub retip: u32,
    /// Local variable storage.
    pub slots: Vec<NativeValue>,
    /// The lexically enclosing frame, shared with every closure that captured it.
    pub lexical_parent: Option<Rc<Env>>,
}

/// The slots after growing (or cutting) `before` to exactly `n` slots,
/// new slots holding nil.
pub open spec fn reserved(before: Seq<NativeValue>, n: nat) -> Seq<NativeValue> {
    if n <= before.len() {
        before.take(n as int)
    } else {
        before + Seq::new((n - before.len()) as nat, |i: int| NativeValue::spec_nil())
    }
}

impl Env {
    /// The frame reached by following `levels` lexical parents, if the chain is that long.
    pub open spec fn ancestor(self, levels: nat) -> Option<Env>
        decreases levels,
    {
        if levels == 0 {
            Some(self)
        } else {
            match self.lexical_parent {
                Some(p) => (*p).ancestor((levels - 1) as nat),
                None => None,
            }
        }
    }

    /// Whether slot `idx` of the frame `levels` parents up exists.
    pub open spec fn has_slot_up(self, levels: nat, idx: int) -> bool {
        &&& levels >= 1
        &&& self.ancestor(levels) is Some
        &&& 0 <= idx < self.ancestor(levels).unwrap().slots@.len()
    }

    /// Slot `idx` of the frame `levels` parents up.
    pub open spec fn slot_up(self, levels: nat, idx: int) -> NativeValue {
        self.ancestor(levels).unwrap().slots@[idx]
    }

    /// Whether `self` is a copy of `other`: same slots and lexical parent,
    /// no arguments and no return address.
    pub open spec fn is_copy_of(self, other: Env) -> bool {
        &&& self.slots@ == other.slots@
        &&& self.lexical_parent == other.lexical_parent
        &&& self.nargs == 0
        &&& self.retip == NO_RETURN
    }

    /// Creates an empty frame.
    pub fn new(retip: u32, lexical_parent: Option<Rc<Env>>, nargs: u16) -> (r: Env)
        ensures
            r.slots@.len() == 0,
            r.nargs == nargs,
            r.retip == retip,
            r.lexical_parent == lexical_parent,
    {
        Env { slots: Vec::new(), nargs, lexical_parent, retip }
    }

    /// Creates an independent frame with the slots and lexical parent of `other`.
    pub fn copy(other: &Env) -> (r: Env)
        ensures
            r.is_copy_of(*other),
    {
        let lexical_parent = match &other.lexical_parent {
            Some(p) => Some(Rc::clone(p)),
            None => None,
        };
        Env { slots: other.slots.clone(), nargs: 0, lexical_parent, retip: NO_RETURN }
    }
    /// Returns slot `idx`; the caller guarantees that it exists.
    pub fn get(&self, idx: u16) -> (r: NativeValue)
        requires
            (idx as int) < self.slots@.len(),
        ensures
            r == self.slots@[idx as int],
    {
        self.slots[idx as usize]
    }

    /// Returns slot `idx`, or `OutOfBounds` where there is no such slot.
    pub fn get_checked(&self, idx: u16) -> (r: Result<NativeValue, FrameError>)
        ensures
            (idx as int) < self.slots@.len() ==> r == Ok::<NativeValue, FrameError>(
                self.slots@[idx as int],
            ),
            (idx as int) >= self.slots@.len() ==> r == Err::<NativeValue, FrameError>(
                FrameError::OutOfBounds,
            ),
    {
        if (idx as usize) < self.slots.len() {
            Ok(self.slots[idx as usize])
        } else {
            Err(FrameError::OutOfBounds)
        }
    }

    /// Returns slot `idx` of the frame `up` lexical parents above this one
    /// (1 for the parent, 2 for the grandparent, ...); the caller guarantees
    /// that the chain is long enough and that the slot exists.
    pub fn get_up(&self, up: u16, idx: u16) -> (r: NativeValue)
        requires
            self.has_slot_up(up as nat, idx as int),
        ensures
            r == self.slot_up(up as nat, idx as int),
        decreases up,
    {
        let parent = self.lexical_parent.as_ref().unwrap();
        proof {
            reveal_with_fuel(Env::ancestor, 2);
        }
        if up == 1 {
            parent.get(idx)
        } else {
            parent.get_up(up - 1, idx)
        }
    }

    /// Returns slot `idx` of the frame `up` lexical parents above this one,
    /// or the reason why there is no such slot.
    pub fn get_up_checked(&self, up: u16, idx: u16) -> (r: Result<NativeValue, FrameError>)
        ensures
            self.has_slot_up(up as nat, idx as int) ==> r == Ok::<NativeValue, FrameError>(
                self.slot_up(up as nat, idx as int),
            ),
            (up == 0 || self.ancestor(up as nat) is None) ==> r == Err::<NativeValue, FrameError>(
                FrameError::InsufficientDepth,
            ),
            up >= 1 && self.ancestor(up as nat) is Some && !self.has_slot_up(up as nat, idx as int)
                ==> r == Err::<NativeValue, FrameError>(FrameError::OutOfBounds),
        decreases up,
    {
        if up == 0 {
            return Err(FrameError::InsufficientDepth);
        }
        match &self.lexical_parent {
            None => Err(FrameError::InsufficientDepth),
            Some(parent) => {
                if up == 1 {
                    parent.get_checked(idx)
                } else {
                    parent.get_up_checked(up - 1, idx)
                }
            },
        }
    }

    /// Stores `val` in slot `idx`; the caller guarantees that the slot exists.
    pub fn set(&mut self, idx: u16, val: NativeValue)
        requires
            (idx as int) < old(self).slots@.len(),
        ensures
            final(self).slots@ == old(self).slots@.update(idx as int, val),
            final(self).nargs == old(self).nargs,
            final(self).retip == old(self).retip,
            final(self).lexical_parent == old(self).lexical_parent,
    {
        self.slots.set(idx as usize, val);
    }

    /// Stores `val` in slot `idx`, or leaves the frame as it is and returns
    /// `OutOfBounds` where there is no such slot.
    pub fn set_checked(&mut self, idx: u16, val: NativeValue) -> (r: Result<(), FrameError>)
        ensures
            (idx as int) < old(self).slots@.len() ==> r == Ok::<(), FrameError>(())
                && final(self).slots@ == old(self).slots@.update(idx as int, val),
            (idx as int) >= old(self).slots@.len() ==> r == Err::<(), FrameError>(
                FrameError::OutOfBounds,
            ) && final(self).slots@ == old(self).slots@,
            final(self).nargs == old(self).nargs,
            final(self).retip == old(self).retip,
            final(self).lexical_parent == old(self).lexical_parent,
    {
        if (idx as usize) < self.slots.len() {
            self.slots.set(idx as usize, val);
            Ok(())
        } else {
            Err(FrameError::OutOfBounds)
        }
    }

    /// Sizes the slots to exactly `nslots`, new slots holding nil.
    pub fn reserve(&mut self, nslots: u16)
        ensures
            final(self).slots@ == reserved(old(self).slots@, nslots as nat),
            final(self).nargs == old(self).nargs,
            final(self).retip == old(self).retip,
            final(self).lexical_parent == old(self).lexical_parent,
    {
        let n = nslots as usize;
        if n <= self.slots.len() {
            self.slots.truncate(n);
        } else {
            let ghost before = self.slots@;
            let nil = NativeValue::nil();
            while self.slots.len() < n
                invariant
                    before.len() <= self.slots@.len() <= n,
                    self.slots@.take(before.len() as int) == before,
                    forall|i: int| before.len() <= i < self.slots@.len() ==> self.slots@[i] == nil,
                    nil == NativeValue::spec_nil(),
                    self.nargs == old(self).nargs,
                    self.retip == old(self).retip,
                    self.lexical_parent == old(self).lexical_parent,
                decreases n - self.slots@.len(),
            {
                self.slots.push(nil);
            }
            assert(self.slots@ =~= reserved(before, nslots as nat));
        }
    }
}

/// Storing `v` in a valid slot `i` and reading slot `i` back yields `v`;
/// every other slot keeps its value.
pub proof fn lemma_slot_round_trip(slots: Seq<NativeValue>, i: int, v: NativeValue)
    requires
        0 <= i < slots.len(),
    ensures
        slots.update(i, v)[i] == v,
        forall|j: int| 0 <= j < slots.len() && j != i ==> slots.update(i, v)[j] == slots[j],
{
}

/// After reserving `n` slots, every slot that did not exist before holds nil;
/// a new frame has no slots, so all `n` of its slots hold nil.
pub proof fn lemma_reserve_default(before: Seq<NativeValue>, n: nat)
    ensures
        reserved(before, n).len() == n,
        forall|i: int| before.len() <= i < n ==> reserved(before, n)[i] == NativeValue::spec_nil(),
        before.len() == 0 ==> forall|i: int|
            0 <= i < n ==> reserved(before, n)[i] == NativeValue::spec_nil(),
{
}

/// In a chain `f0 <- f1 <- f2` of lexical parents, looking one level up from
/// `f2` reads `f1`'s slot, and two levels up reads `f0`'s slot.
pub proof fn lemma_lexical_depth(f0: Env, f1: Env, f2: Env, idx: int)
    requires
        f2.lexical_parent matches Some(p) && *p == f1,
        f1.lexical_parent matches Some(q) && *q == f0,
    ensures
        f2.ancestor(1) == Some(f1),
        f2.ancestor(2) == Some(f0),
        0 <= idx < f1.slots@.len() ==> f2.has_slot_up(1, idx) && f2.slot_up(1, idx)
            == f1.slots@[idx],
        0 <= idx < f0.slots@.len() ==> f2.has_slot_up(2, idx) && f2.slot_up(2, idx)
            == f0.slots@[idx],
{
    reveal_with_fuel(Env::ancestor, 3);
}

/// A copy has the slots and lexical parent of the original; storing into a
/// slot of the copy changes that slot alone, while the original, a separate
/// value, keeps all of its slots.
pub proof fn lemma_copy_independence(f: Env, c: Env, i: int, v: NativeValue)
    requires
        c.is_copy_of(f),
        0 <= i < c.slots@.len(),
    ensures
        c.lexical_parent == f.lexical_parent,
        c.slots@.update(i, v)[i] == v,
        forall|j: int| 0 <= j < f.slots@.len() && j != i ==> c.slots@.update(i, v)[j] == f.slots@[j],
{
}

} // verus!
