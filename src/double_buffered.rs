//! Resources kept in two physical copies, one written in the current frame
//! and one holding what the previous frame wrote.
use vstd::prelude::*;

use crate::buffers::{BindEntry, Bindable, BindingAccess, BufferFlushOutcome, ResourceBinding};

verus! {

/// A texture, known to the frame resources by its handle and extent.
#[derive(Clone, Copy, Debug, PartialEq, Eq, Structural)]
pub struct Texture {
    pub handle: u64,
    pub width: u32,
    pub height: u32,
}

impl Texture {
    pub fn bind_sampled(&self) -> (r: ResourceBinding)
        ensures
            r == (ResourceBinding { handle: self.handle, access: BindingAccess::Sampled }),
    {
        ResourceBinding { handle: self.handle, access: BindingAccess::Sampled }
    }

    pub fn bind_readable(&self) -> (r: ResourceBinding)
        ensures
            r == (ResourceBinding { handle: self.handle, access: BindingAccess::Readable }),
    {
        ResourceBinding { handle: self.handle, access: BindingAccess::Readable }
    }

    pub fn bind_writable(&self) -> (r: ResourceBinding)
        ensures
            r == (ResourceBinding { handle: self.handle, access: BindingAccess::Writable }),
    {
        ResourceBinding { handle: self.handle, access: BindingAccess::Writable }
    }
}

/// A storage buffer living on the device only, known by its handle and its
/// size in bytes.
#[derive(Clone, Copy, Debug, PartialEq, Eq, Structural)]
pub struct UnmappedStorageBuffer {
    pub handle: u64,
    pub size: usize,
}

impl UnmappedStorageBuffer {
    pub fn bind_readable(&self) -> (r: ResourceBinding)
        ensures
            r == (ResourceBinding { handle: self.handle, access: BindingAccess::Readable }),
    {
        ResourceBinding { handle: self.handle, access: BindingAccess::Readable }
    }

    pub fn bind_writable(&self) -> (r: ResourceBinding)
        ensures
            r == (ResourceBinding { handle: self.handle, access: BindingAccess::Writable }),
    {
        ResourceBinding { handle: self.handle, access: BindingAccess::Writable }
    }
}

/// Two physical copies of one resource. Which copy is "current" in a frame
/// is decided by the frame's alternation flag; nothing is ever copied
/// between the two.
#[derive(Debug)]
pub struct DoubleBuffered<T> {
    a: T,
    b: T,
}

impl<T> DoubleBuffered<T> {
    /// The copy selected by `alternate`.
    pub closed spec fn slot(&self, alternate: bool) -> T {
        if alternate {
            self.b
        } else {
            self.a
        }
    }

    /// The copy written in a frame whose alternation flag is `alternate`.
    pub open spec fn curr_slot(&self, alternate: bool) -> T {
        self.slot(alternate)
    }

    /// The copy read (as the previous frame's state) in a frame whose
    /// alternation flag is `alternate`.
    pub open spec fn past_slot(&self, alternate: bool) -> T {
        self.slot(!alternate)
    }

    /// Pairs two physical copies of one resource.
    pub fn new(a: T, b: T) -> (r: Self)
        ensures
            r.slot(false) == a,
            r.slot(true) == b,
    {
        DoubleBuffered { a, b }
    }

    pub fn get(&self, alternate: bool) -> (r: &T)
        ensures
            *r == self.slot(alternate),
    {
        if alternate {
            &self.b
        } else {
            &self.a
        }
    }

    /// The view whose slot for a flag is the copy written under that flag.
    pub fn curr(&self) -> (r: DoubleBuffered<&T>)
        ensures
            *r.slot(false) == self.curr_slot(false),
            *r.slot(true) == self.curr_slot(true),
    {
        DoubleBuffered { a: &self.a, b: &self.b }
    }

    /// The read-only view whose slot for a flag is the copy read under that
    /// flag.
    pub fn past(&self) -> (r: PastView<&T>)
        ensures
            *r.slot(false) == self.past_slot(false),
            *r.slot(true) == self.past_slot(true),
    {
        PastView { a: &self.b, b: &self.a }
    }

    /// The pair with the copy written under `alternate` replaced by `value`.
    pub closed spec fn replaced(self, alternate: bool, value: T) -> Self {
        if alternate {
            DoubleBuffered { a: self.a, b: value }
        } else {
            DoubleBuffered { a: value, b: self.b }
        }
    }

    /// Stores `value` as the copy written in a frame whose flag is
    /// `alternate`; the other copy stays as it was.
    pub fn write(&mut self, alternate: bool, value: T)
        ensures
            *final(self) == old(self).replaced(alternate, value),
            final(self).curr_slot(alternate) == value,
            final(self).past_slot(alternate) == old(self).past_slot(alternate),
    {
        if alternate {
            self.b = value;
        } else {
            self.a = value;
        }
    }
}

/// Replacing the current copy leaves the past one alone.
pub proof fn lemma_replaced_slots<T>(d: DoubleBuffered<T>, alternate: bool, value: T)
    ensures
        d.replaced(alternate, value).curr_slot(alternate) == value,
        d.replaced(alternate, value).past_slot(alternate) == d.past_slot(alternate),
{
}

/// The copies of a double-buffered resource as the previous frame left
/// them: they can be read and sampled, never written.
#[derive(Debug)]
pub struct PastView<T> {
    a: T,
    b: T,
}

impl<T> PastView<T> {
    /// The copy read under the flag `alternate`.
    pub closed spec fn slot(&self, alternate: bool) -> T {
        if alternate {
            self.b
        } else {
            self.a
        }
    }

    pub fn get(&self, alternate: bool) -> (r: &T)
        ensures
            *r == self.slot(alternate),
    {
        if alternate {
            &self.b
        } else {
            &self.a
        }
    }
}

impl<'t> PastView<&'t Texture> {
    pub fn bind_sampled(&self) -> (r: DoubleBufferedBinder<ResourceBinding>)
        ensures
            r.half(false) == binding_of(self.slot(false).handle, BindingAccess::Sampled),
            r.half(true) == binding_of(self.slot(true).handle, BindingAccess::Sampled),
    {
        DoubleBufferedBinder { a: self.a.bind_sampled(), b: self.b.bind_sampled() }
    }

    pub fn bind_readable(&self) -> (r: DoubleBufferedBinder<ResourceBinding>)
        ensures
            r.half(false) == binding_of(self.slot(false).handle, BindingAccess::Readable),
            r.half(true) == binding_of(self.slot(true).handle, BindingAccess::Readable),
    {
        DoubleBufferedBinder { a: self.a.bind_readable(), b: self.b.bind_readable() }
    }
}

impl<'t> PastView<&'t UnmappedStorageBuffer> {
    pub fn bind_readable(&self) -> (r: DoubleBufferedBinder<ResourceBinding>)
        ensures
            r.half(false) == binding_of(self.slot(false).handle, BindingAccess::Readable),
            r.half(true) == binding_of(self.slot(true).handle, BindingAccess::Readable),
    {
        DoubleBufferedBinder { a: self.a.bind_readable(), b: self.b.bind_readable() }
    }
}

/// Flipping the alternation flag once exchanges the two views: the copy
/// that was current becomes the past one and the past one becomes current,
/// whatever the two copies hold.
pub proof fn lemma_frame_swap_exchanges_views<T>(d: DoubleBuffered<T>, alternate: bool)
    ensures
        d.past_slot(!alternate) == d.curr_slot(alternate),
        d.curr_slot(!alternate) == d.past_slot(alternate),
{
}

impl DoubleBuffered<UnmappedStorageBuffer> {
    /// Gives both copies the size `size`. When the size changes both copies
    /// are reallocated, which the outcome reports: bindings that refer to
    /// them must then be rebuilt.
    pub fn resize(&mut self, size: usize) -> (r: BufferFlushOutcome)
        ensures
            r.reallocated == (old(self).slot(false).size != size || old(self).slot(true).size
                != size),
            final(self).slot(false) == (UnmappedStorageBuffer {
                size,
                ..old(self).slot(false)
            }),
            final(self).slot(true) == (UnmappedStorageBuffer { size, ..old(self).slot(true) }),
    {
        let reallocated = self.a.size != size || self.b.size != size;
        self.a.size = size;
        self.b.size = size;
        BufferFlushOutcome { reallocated }
    }
}

/// The binding of the resource `handle` with access `access`.
pub open spec fn binding_of(handle: u64, access: BindingAccess) -> ResourceBinding {
    ResourceBinding { handle, access }
}

impl<'t> DoubleBuffered<&'t Texture> {
    pub fn bind_sampled(&self) -> (r: DoubleBufferedBinder<ResourceBinding>)
        ensures
            r.half(false) == binding_of(self.slot(false).handle, BindingAccess::Sampled),
            r.half(true) == binding_of(self.slot(true).handle, BindingAccess::Sampled),
    {
        DoubleBufferedBinder { a: self.a.bind_sampled(), b: self.b.bind_sampled() }
    }

    pub fn bind_readable(&self) -> (r: DoubleBufferedBinder<ResourceBinding>)
        ensures
            r.half(false) == binding_of(self.slot(false).handle, BindingAccess::Readable),
            r.half(true) == binding_of(self.slot(true).handle, BindingAccess::Readable),
    {
        DoubleBufferedBinder { a: self.a.bind_readable(), b: self.b.bind_readable() }
    }

    pub fn bind_writable(&self) -> (r: DoubleBufferedBinder<ResourceBinding>)
        ensures
            r.half(false) == binding_of(self.slot(false).handle, BindingAccess::Writable),
            r.half(true) == binding_of(self.slot(true).handle, BindingAccess::Writable),
    {
        DoubleBufferedBinder { a: self.a.bind_writable(), b: self.b.bind_writable() }
    }
}

impl<'t> DoubleBuffered<&'t UnmappedStorageBuffer> {
    pub fn bind_readable(&self) -> (r: DoubleBufferedBinder<ResourceBinding>)
        ensures
            r.half(false) == binding_of(self.slot(false).handle, BindingAccess::Readable),
            r.half(true) == binding_of(self.slot(true).handle, BindingAccess::Readable),
    {
        DoubleBufferedBinder { a: self.a.bind_readable(), b: self.b.bind_readable() }
    }

    pub fn bind_writable(&self) -> (r: DoubleBufferedBinder<ResourceBinding>)
        ensures
            r.half(false) == binding_of(self.slot(false).handle, BindingAccess::Writable),
            r.half(true) == binding_of(self.slot(true).handle, BindingAccess::Writable),
    {
        DoubleBufferedBinder { a: self.a.bind_writable(), b: self.b.bind_writable() }
    }
}

/// One layout entry of a double-buffered binding, with the resource of each
/// copy: `resource_a` is used under a cleared alternation flag, `resource_b`
/// under a set one.
#[derive(Clone, Copy, Debug, PartialEq, Eq, Structural)]
pub struct DoubleBindEntry {
    pub binding: u32,
    pub access: BindingAccess,
    pub resource_a: u64,
    pub resource_b: u64,
}

/// The entry that pairs `a` (first copy) with `b` (second copy).
pub open spec fn paired(a: BindEntry, b: BindEntry) -> DoubleBindEntry {
    DoubleBindEntry {
        binding: a.binding,
        access: a.access,
        resource_a: a.handle,
        resource_b: b.handle,
    }
}

/// The bindings of both copies of a double-buffered resource.
pub struct DoubleBufferedBinder<T> {
    a: T,
    b: T,
}

impl<T: Bindable> DoubleBufferedBinder<T> {
    pub closed spec fn half(&self, alternate: bool) -> T {
        if alternate {
            self.b
        } else {
            self.a
        }
    }

    /// The two copies give the same layout at `binding`: as many entries,
    /// with equal slots and accesses.
    pub open spec fn layouts_match(&self, binding: u32) -> bool {
        let ea = self.half(false).entries(binding);
        let eb = self.half(true).entries(binding);
        &&& ea.len() == eb.len()
        &&& forall|i: int|
            0 <= i < ea.len() ==> #[trigger] ea[i].binding == eb[i].binding && ea[i].access
                == eb[i].access
    }

    /// Binds both copies at `binding`, entry by entry.
    pub fn bind(&self, binding: u32) -> (r: Vec<DoubleBindEntry>)
        requires
            self.layouts_match(binding),
        ensures
            r@.len() == self.half(false).entries(binding).len(),
            forall|i: int|
                0 <= i < r@.len() ==> r@[i] == paired(
                    #[trigger] self.half(false).entries(binding)[i],
                    self.half(true).entries(binding)[i],
                ),
    {
        let entries_a = self.a.bind(binding);
        let entries_b = self.b.bind(binding);
        let mut out: Vec<DoubleBindEntry> = Vec::new();
        let mut i: usize = 0;
        while i < entries_a.len()
            invariant
                i <= entries_a@.len(),
                entries_a@ == self.half(false).entries(binding),
                entries_b@ == self.half(true).entries(binding),
                self.layouts_match(binding),
                out@.len() == i,
                forall|j: int| 0 <= j < i ==> out@[j] == paired(#[trigger] entries_a@[j], entries_b@[j]),
            decreases entries_a@.len() - i,
        {
            let ea = &entries_a[i];
            let eb = &entries_b[i];
            out.push(
                DoubleBindEntry {
                    binding: ea.binding,
                    access: ea.access,
                    resource_a: ea.handle,
                    resource_b: eb.handle,
                },
            );
            i = i + 1;
        }
        out
    }
}

} // verus!
