//! The state of a compute pass: the shader it dispatches and the bind group
//! bound at each slot.
use std::collections::HashMap;
use vstd::prelude::*;
use crate::handle::{ComputeShaderHandle, UntypedBindGroupHandle};

verus! {

broadcast use vstd::std_specs::hash::group_hash_axioms;

/// The shader and bind groups a compute pass dispatches with.
#[derive(Clone, Debug)]
pub struct ComputePassData {
    pub(crate) shader: ComputeShaderHandle,
    pub(crate) bind_groups: HashMap<u32, UntypedBindGroupHandle>,
}

impl ComputePassData {
    /// The shader dispatched.
    pub closed spec fn shader_handle(self) -> ComputeShaderHandle {
        self.shader
    }

    /// The bind group bound at each slot.
    pub closed spec fn slots(self) -> Map<u32, UntypedBindGroupHandle> {
        self.bind_groups@
    }

    /// Binds `bind_group` at `slot`, replacing what was bound there.
    pub fn bind(&mut self, slot: u32, bind_group: UntypedBindGroupHandle)
        ensures
            final(self).slots() == old(self).slots().insert(slot, bind_group),
            final(self).shader_handle() == old(self).shader_handle(),
    {
        self.bind_groups.insert(slot, bind_group);
    }

    /// Unbinds whatever is bound at `slot`.
    pub fn unbind(&mut self, slot: u32)
        ensures
            final(self).slots() == old(self).slots().remove(slot),
            final(self).shader_handle() == old(self).shader_handle(),
    {
        self.bind_groups.remove(&slot);
    }

    /// Dispatches with `shader` from now on.
    pub fn set_shader(&mut self, shader: ComputeShaderHandle)
        ensures
            final(self).slots() == old(self).slots(),
            final(self).shader_handle() == shader,
    {
        self.shader = shader;
    }

    /// The bind group bound at `slot`, if any.
    pub fn bound(&self, slot: u32) -> (r: Option<UntypedBindGroupHandle>)
        ensures
            r == (if self.slots().contains_key(slot) {
                Some(self.slots()[slot])
            } else {
                None
            }),
    {
        match self.bind_groups.get(&slot) {
            Some(h) => Some(*h),
            None => None,
        }
    }

    /// The shader dispatched.
    pub fn shader(&self) -> (s: ComputeShaderHandle)
        ensures
            s == self.shader_handle(),
    {
        self.shader
    }
}

impl Default for ComputePassData {
    fn default() -> (d: ComputePassData)
        ensures
            d.shader_handle() == ComputeShaderHandle(0),
            d.slots() == Map::<u32, UntypedBindGroupHandle>::empty(),
    {
        ComputePassData { shader: ComputeShaderHandle(0), bind_groups: HashMap::new() }
    }
}

/// A compute pass being recorded. Implementors give access to their
/// `ComputePassData`; binding, unbinding and choosing the shader go through it.
pub trait ComputePassTrait: Sized {
    /// The data the pass holds.
    spec fn pass_data(&self) -> ComputePassData;

    /// The pass's data, lent out: what it holds now, and what the pass holds
    /// once the loan ends is what the borrower left in it. Implementors are
    /// held to this; it is not checked of them.
    fn get_data(&mut self) -> (data: &mut ComputePassData)
        ensures
            *data == old(self).pass_data(),
            final(self).pass_data() == *final(data),
    ;

    /// Dispatches `x` by `y` by `z` workgroups.
    fn dispatch(self, x: u32, y: u32, z: u32);

    /// Binds `bind_group` at `slot`, replacing what was bound there.
    fn bind(self, slot: u32, bind_group: UntypedBindGroupHandle) -> (r: Self)
        ensures
            r.pass_data().slots() == self.pass_data().slots().insert(slot, bind_group),
            r.pass_data().shader_handle() == self.pass_data().shader_handle(),
    {
        let mut this = self;
        this.get_data().bind(slot, bind_group);
        this
    }

    /// Unbinds the bind group at `slot`.
    fn unbind(self, slot: u32) -> (r: Self)
        ensures
            r.pass_data().slots() == self.pass_data().slots().remove(slot),
            r.pass_data().shader_handle() == self.pass_data().shader_handle(),
    {
        let mut this = self;
        this.get_data().unbind(slot);
        this
    }

    /// Dispatches with `shader` from now on.
    fn set_shader(self, shader: ComputeShaderHandle) -> (r: Self)
        ensures
            r.pass_data().slots() == self.pass_data().slots(),
            r.pass_data().shader_handle() == shader,
    {
        let mut this = self;
        this.get_data().set_shader(shader);
        this
    }
}

/// Binding then unbinding a slot leaves it empty, and binding twice keeps
/// the later bind group.
pub proof fn lemma_bind_unbind(slots: Map<u32, UntypedBindGroupHandle>, slot: u32, a: UntypedBindGroupHandle, b: UntypedBindGroupHandle)
    ensures
        !slots.insert(slot, a).remove(slot).contains_key(slot),
        slots.insert(slot, a).insert(slot, b) == slots.insert(slot, b),
        slots.insert(slot, a)[slot] == a,
{
    assert(slots.insert(slot, a).insert(slot, b) =~= slots.insert(slot, b));
}

} // verus!
