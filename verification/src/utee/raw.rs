//! The raw slot of a parameter, as the trusted application receives it.
//!
//! On the wire a slot is a union: the same bytes are a value pair or a
//! memory reference, and nothing in the slot says which.  Here a slot keeps
//! the two shapes side by side.  The tag that comes with the slot selects the
//! one that is meaningful; the other holds whatever it was left with, which
//! is zero for every slot that this library makes.

use vstd::prelude::*;

verus! {

/// The value shape: two 32-bit fields.
#[derive(Clone, Copy, Debug, PartialEq, Eq, Structural)]
pub struct Value {
    pub a: u32,
    pub b: u32,
}

/// The memory reference shape: the storage that the caller shares for the
/// call, and the size that is reported for it.
///
/// The storage is borrowed, never copied: what is written to it is written
/// to the owner's bytes.  A reference to nothing has empty storage.
pub struct Memref<'a> {
    pub buffer: &'a mut [u8],
    pub size: u32,
}

impl<'a> Memref<'a> {
    /// The bytes of the storage, all of them.
    pub open spec fn storage(self) -> Seq<u8> {
        self.buffer@
    }

    /// How many bytes can be reached through the reference: the reported
    /// size, but no more than the storage holds.
    pub open spec fn reach(self) -> int {
        if self.size <= self.storage().len() {
            self.size as int
        } else {
            self.storage().len() as int
        }
    }

    /// The bytes that can be reached through the reference.
    pub open spec fn bytes(self) -> Seq<u8> {
        self.storage().subrange(0, self.reach())
    }

    /// The bytes of the storage that lie beyond its reach.
    pub open spec fn beyond(self) -> Seq<u8> {
        self.storage().subrange(self.reach(), self.storage().len() as int)
    }

    /// A reference to nothing, of size 0.
    pub open spec fn is_zero(self) -> bool {
        self.size == 0 && self.storage().len() == 0
    }

    /// The reach is within the reported size and within the storage, and
    /// the storage is the bytes within reach followed by those beyond.
    pub proof fn lemma_reach(self)
        ensures
            0 <= self.reach() <= self.size,
            self.reach() <= self.storage().len(),
            self.bytes().len() == self.reach(),
            self.bytes() + self.beyond() == self.storage(),
    {
        assert(self.bytes() + self.beyond() =~= self.storage());
    }

    /// A reference whose size is the length of its storage reaches all of
    /// it: nothing lies beyond, and what is written within reach is the
    /// whole of the storage afterwards.
    pub proof fn lemma_reach_whole(self)
        requires
            self.size == self.storage().len(),
        ensures
            self.bytes() == self.storage(),
            self.beyond() == Seq::<u8>::empty(),
            forall|written: Seq<u8>| #[trigger] (written + self.beyond()) == written,
    {
        assert(self.bytes() =~= self.storage());
        assert(self.beyond() =~= Seq::<u8>::empty());
        assert forall|written: Seq<u8>| #[trigger] (written + self.beyond()) == written by {
            assert(written + self.beyond() =~= written);
        }
    }
}

/// One raw slot.
#[allow(non_camel_case_types)]
pub struct TEE_Param<'a> {
    pub memref: Memref<'a>,
    pub value: Value,
}

impl<'a> TEE_Param<'a> {
    /// Both shapes are zero.
    pub open spec fn is_zero(self) -> bool {
        self.memref.is_zero() && self.value == (Value { a: 0, b: 0 })
    }

    /// The slot whose shapes are both zero.
    pub fn zeroed() -> (slot: TEE_Param<'static>)
        ensures
            slot.is_zero(),
    {
        TEE_Param { memref: Memref { buffer: &mut [], size: 0 }, value: Value { a: 0, b: 0 } }
    }
}

} // verus!
