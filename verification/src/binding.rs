//! A binding: a shared buffer attached to a (group, slot) position.
//!
//! Bindings are what a shader's execute step works from: the group index
//! decides which bind group the buffer lands in, the slot index its
//! position inside that group, and the copy flag whether the buffer's
//! contents are staged for host readback after each dispatch.

use crate::buffer::{share_buffer, BufferPair};
use std::rc::Rc;
use vstd::prelude::*;

verus! {

/// A shared buffer pair placed at a bind-group index and binding slot.
///
/// `needs_copy` marks a binding whose buffer must be copied back to its
/// staging twin after every dispatch; leave it off for a non-terminal
/// binding whose result only feeds a later shader.
pub struct Binding {
    pub buffer: Rc<BufferPair>,
    pub group: u32,
    pub binding: u32,
    pub needs_copy: bool,
}

impl Binding {
    /// Well-formed: the underlying buffer pair is.
    pub open spec fn wf(self) -> bool {
        self.buffer.wf()
    }

    /// Attaches a buffer at `(group, binding)`, with copy-back on.
    pub fn new(buffer: Rc<BufferPair>, group: u32, binding: u32) -> (r: Binding)
        ensures
            r.buffer == buffer,
            r.group == group,
            r.binding == binding,
            r.needs_copy,
    {
        Binding { buffer, group, binding, needs_copy: true }
    }

    /// Attaches a buffer at `(group, binding)` without copy-back, for a
    /// buffer consumed by a later shader rather than read by the host.
    pub fn new_without_copy(buffer: Rc<BufferPair>, group: u32, binding: u32) -> (r: Binding)
        ensures
            r.buffer == buffer,
            r.group == group,
            r.binding == binding,
            !r.needs_copy,
    {
        Binding { buffer, group, binding, needs_copy: false }
    }
}

impl BufferPair {
    /// Wraps a shared handle to this buffer as a binding at
    /// `(group, binding)`, with copy-back on.
    pub fn to_binding(self: &Rc<BufferPair>, group: u32, binding: u32) -> (r: Binding)
        ensures
            r.buffer == *self,
            r.group == group,
            r.binding == binding,
            r.needs_copy,
    {
        Binding::new(share_buffer(self), group, binding)
    }
}

} // verus!
