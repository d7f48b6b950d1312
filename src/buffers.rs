//! Buffer-level vocabulary shared by the frame resources.
use vstd::prelude::*;

verus! {

/// What a flush of a resource reported: when `reallocated` is set, every
/// binding that refers to the resource has to be rebuilt before it is used.
#[derive(Clone, Copy, Debug, Default, PartialEq, Eq, Structural)]
pub struct BufferFlushOutcome {
    pub reallocated: bool,
}

/// How a pass accesses a bound resource.
#[derive(Clone, Copy, Debug, PartialEq, Eq, Structural)]
pub enum BindingAccess {
    Sampled,
    Readable,
    Writable,
}

/// One resource handed to a pass: the resource's handle and the access the
/// pass has to it.
#[derive(Clone, Copy, Debug, PartialEq, Eq, Structural)]
pub struct ResourceBinding {
    pub handle: u64,
    pub access: BindingAccess,
}

/// One entry of a bind-group layout together with the resource bound there.
#[derive(Clone, Copy, Debug, PartialEq, Eq, Structural)]
pub struct BindEntry {
    pub binding: u32,
    pub access: BindingAccess,
    pub handle: u64,
}

/// Something that can be placed into a bind group, starting at slot
/// `binding`.
pub trait Bindable {
    spec fn entries(&self, binding: u32) -> Seq<BindEntry>;

    fn bind(&self, binding: u32) -> (r: Vec<BindEntry>)
        ensures
            r@ == self.entries(binding),
    ;
}

impl Bindable for ResourceBinding {
    open spec fn entries(&self, binding: u32) -> Seq<BindEntry> {
        seq![BindEntry { binding, access: self.access, handle: self.handle }]
    }

    fn bind(&self, binding: u32) -> (r: Vec<BindEntry>) {
        vec![BindEntry { binding, access: self.access, handle: self.handle }]
    }
}

} // verus!
