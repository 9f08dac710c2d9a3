//! The raw slot of a parameter and the operation that carries four of them,
//! as the client hands them to a call.
//!
//! On the wire a slot is a union: the same bytes are a value pair, a
//! temporary memory reference or a registered memory reference, and nothing
//! in the slot says which.  Here a slot keeps the three shapes side by side.
//! The tag that goes with the slot selects the one that is meaningful; the
//! others are zero in every slot that this library makes.

use vstd::prelude::*;

verus! {

/// The value shape: two 32-bit fields.
#[allow(non_camel_case_types)]
#[derive(Clone, Copy, Debug, PartialEq, Eq, Structural)]
pub struct TEEC_Value {
    pub a: u32,
    pub b: u32,
}

/// The temporary memory reference shape: storage of the client that is
/// shared for one call, and the size that is reported for it.
///
/// The storage is borrowed, never copied: what is written to it is written
/// to the owner's bytes.  A reference to nothing has empty storage.
#[allow(non_camel_case_types)]
pub struct TEEC_TempMemoryReference<'a> {
    pub buffer: &'a mut [u8],
    pub size: usize,
}

impl<'a> TEEC_TempMemoryReference<'a> {
    /// The bytes of the storage, all of them.
    pub open spec fn storage(self) -> Seq<u8> {
        self.buffer@
    }

    /// How many bytes can be reached through the reference: the reported
    /// size, but no more than the storage holds.
    pub open spec fn reach(self) -> int {
        if self.size <= self.storage().len() {
            self.size as int
        } else {
            self.storage().len() as int
        }
    }

    /// The bytes that can be reached through the reference.
    pub open spec fn bytes(self) -> Seq<u8> {
        self.storage().subrange(0, self.reach())
    }

    /// A reference to nothing, of size 0.
    pub open spec fn is_zero(self) -> bool {
        self.size == 0 && self.storage().len() == 0
    }

    /// The reach is within the reported size and within the storage.
    pub proof fn lemma_reach(self)
        ensures
            0 <= self.reach() <= self.size,
            self.reach() <= self.storage().len(),
            self.bytes().len() == self.reach(),
    {
    }

    /// A reference whose size is the length of its storage reaches all of
    /// it.
    pub proof fn lemma_reach_whole(self)
        requires
            self.size == self.storage().len(),
        ensures
            self.bytes() == self.storage(),
    {
        assert(self.bytes() =~= self.storage());
    }
}

/// The registered memory reference shape: a part of a block of shared
/// memory that was registered before the call.
///
/// `parent` is the handle under which the block is known to whoever
/// registered it, 0 where there is none.  Nothing here looks behind it.
#[allow(non_camel_case_types)]
#[derive(Clone, Copy, Debug, PartialEq, Eq, Structural)]
pub struct TEEC_RegisteredMemoryReference {
    pub parent: usize,
    pub size: usize,
    pub offset: usize,
}

impl TEEC_RegisteredMemoryReference {
    /// No block, size 0, offset 0.
    pub open spec fn is_zero(self) -> bool {
        self.parent == 0 && self.size == 0 && self.offset == 0
    }
}

/// One raw slot.
#[allow(non_camel_case_types)]
pub struct TEEC_Parameter<'a> {
    pub tmpref: TEEC_TempMemoryReference<'a>,
    pub memref: TEEC_RegisteredMemoryReference,
    pub value: TEEC_Value,
}

/// What a raw slot holds: its three shapes, the temporary memory reference
/// by the bytes of its storage.
pub struct Slot {
    pub tmpref_bytes: Seq<u8>,
    pub tmpref_size: usize,
    pub memref: TEEC_RegisteredMemoryReference,
    pub value: TEEC_Value,
}

impl Slot {
    /// The slot whose shapes are all zero.
    pub open spec fn zero() -> Slot {
        Slot {
            tmpref_bytes: Seq::empty(),
            tmpref_size: 0,
            memref: TEEC_RegisteredMemoryReference { parent: 0, size: 0, offset: 0 },
            value: TEEC_Value { a: 0, b: 0 },
        }
    }
}

impl<'a> View for TEEC_Parameter<'a> {
    type V = Slot;

    open spec fn view(&self) -> Slot {
        Slot {
            tmpref_bytes: self.tmpref.buffer@,
            tmpref_size: self.tmpref.size,
            memref: self.memref,
            value: self.value,
        }
    }
}

impl<'a> TEEC_Parameter<'a> {
    /// All three shapes are zero.
    pub open spec fn is_zero(self) -> bool {
        self.tmpref.is_zero() && self.memref.is_zero() && self.value == (TEEC_Value { a: 0, b: 0 })
    }

    /// The slot whose shapes are all zero.
    pub fn zeroed() -> (slot: TEEC_Parameter<'static>)
        ensures
            slot.is_zero(),
    {
        TEEC_Parameter {
            tmpref: TEEC_TempMemoryReference { buffer: &mut [], size: 0 },
            memref: TEEC_RegisteredMemoryReference { parent: 0, size: 0, offset: 0 },
            value: TEEC_Value { a: 0, b: 0 },
        }
    }
}

/// The operation of one call: the packed tags of its four slots, the slots,
/// and what the call carries besides.
///
/// `started` is the flag that a cancellation looks at, and `session` the
/// handle of the session that the call runs in, 0 where there is none.
/// Nothing here reads or sets either.
#[allow(non_camel_case_types)]
pub struct TEEC_Operation<'a> {
    pub started: u32,
    pub param_types: u32,
    pub params: [TEEC_Parameter<'a>; 4],
    pub session: usize,
}

} // verus!
