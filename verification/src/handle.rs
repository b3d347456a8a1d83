//! The owning handle: one exclusive owner per schema-type instance, whatever
//! allocator produced the instance, with the release path fixed by a
//! provenance tag at construction.

use vstd::prelude::*;

use crate::registry::ASN1GenType;

verus! {

/// Which allocator produced an instance. The tag is fixed when the instance
/// is wrapped and determines the release path when its handle is dropped.
#[derive(Clone, Copy, Debug, PartialEq, Eq, Structural)]
pub enum Provenance {
    /// The consuming program built the instance itself.
    RustAllocated,
    /// The codec's decode path allocated the instance.
    Asn1CodecAllocated,
}

/// The instance storage of a handle: one variant per provenance, each owning
/// the instance outright, so dropping the storage releases the instance
/// exactly once through the path its variant stands for.
enum AllocatedData<T: ASN1GenType> {
    RustAllocated(Box<T>),
    Asn1CodecAllocated(Box<T>),
}

/// The unique owner of one instance of a registered schema type, together
/// with the instance's provenance.
///
/// A handle is move-only: it has no way to be duplicated, so however often it
/// changes hands the instance it owns is released exactly once, when the
/// handle is dropped, through the path its provenance dictates. The tag is
/// fixed at construction; every operation on a handle leaves it unchanged.
pub struct ASNBox<T: ASN1GenType>(AllocatedData<T>);

impl<T: ASN1GenType> ASNBox<T> {
    /// The instance this handle owns.
    pub closed spec fn spec_value(&self) -> T {
        match self.0 {
            AllocatedData::RustAllocated(b) => *b,
            AllocatedData::Asn1CodecAllocated(b) => *b,
        }
    }

    /// The allocator that produced the owned instance.
    pub closed spec fn spec_provenance(&self) -> Provenance {
        match self.0 {
            AllocatedData::RustAllocated(_) => Provenance::RustAllocated,
            AllocatedData::Asn1CodecAllocated(_) => Provenance::Asn1CodecAllocated,
        }
    }

    /// Take exclusive ownership of a caller-constructed instance. Never
    /// fails; the instance is tagged as consumer-allocated.
    pub fn new_from_box(b: Box<T>) -> (r: Self)
        ensures
            r.spec_value() == *b,
            r.spec_provenance() == Provenance::RustAllocated,
    {
        ASNBox(AllocatedData::RustAllocated(b))
    }

    /// Take ownership of the instance a successful codec decode produced.
    ///
    /// The codec signals a failed decode by handing back no instance; a
    /// caller must branch on that signal first, so reaching this constructor
    /// without an instance is a programming error and is ruled out here
    /// rather than checked at run time.
    pub fn new_from_asn1codec_allocated_struct(p: Option<Box<T>>) -> (r: Self)
        requires
            p is Some,
        ensures
            p matches Some(b) ==> r.spec_value() == *b,
            r.spec_provenance() == Provenance::Asn1CodecAllocated,
    {
        ASNBox(AllocatedData::Asn1CodecAllocated(p.unwrap()))
    }

    /// Borrow the owned instance: valid for as long as the handle lives,
    /// whatever the provenance.
    pub fn get(&self) -> (r: &T)
        ensures
            *r == self.spec_value(),
    {
        match &self.0 {
            AllocatedData::RustAllocated(b) => b,
            AllocatedData::Asn1CodecAllocated(b) => b,
        }
    }

    /// Borrow the owned instance mutably: valid for as long as the handle
    /// lives, whatever the provenance. The provenance tag itself never
    /// changes: however the caller mutates the instance through the borrow,
    /// the handle keeps the tag it was constructed with.
    pub fn get_raw_mut_ptr(&mut self) -> (r: &mut T)
        ensures
            *r == old(self).spec_value(),
            final(self).spec_value() == *final(r),
            final(self).spec_provenance() == old(self).spec_provenance(),
    {
        match &mut self.0 {
            AllocatedData::RustAllocated(b) => b,
            AllocatedData::Asn1CodecAllocated(b) => b,
        }
    }

    /// The allocator that produced the owned instance, as a value a caller
    /// can branch on.
    pub fn provenance(&self) -> (p: Provenance)
        ensures
            p == self.spec_provenance(),
    {
        match &self.0 {
            AllocatedData::RustAllocated(_) => Provenance::RustAllocated,
            AllocatedData::Asn1CodecAllocated(_) => Provenance::Asn1CodecAllocated,
        }
    }
}

} // verus!
