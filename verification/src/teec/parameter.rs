//! Tags and typed parameters of the calls that a client makes.

use crate::tag_field::{join, join_codes, pack, pack_tags, unpack, unpack_tags, Tag};
use crate::teec::raw::{
    Slot, TEEC_Parameter, TEEC_RegisteredMemoryReference, TEEC_TempMemoryReference, TEEC_Value,
};
use vstd::prelude::*;

verus! {

/// The tag of a slot: which shape of the slot is meaningful, and in which
/// direction it is passed.
#[derive(Clone, Copy, Debug, PartialEq, Eq, Structural)]
pub enum ParamType {
    /// The slot is not used.
    Unused,
    /// A value pair that is passed in.
    ValueInput,
    /// A value pair that the call fills.
    ValueOutput,
    /// A value pair that is passed in and written back.
    ValueInout,
    /// A temporary memory reference to bytes that are passed in.
    MemrefTempInput,
    /// A temporary memory reference to storage that the call fills.  The
    /// call may update the size to the size of what it has to give.
    MemrefTempOutput,
    /// A temporary memory reference that is read and written.
    MemrefTempInout,
    /// A registered memory reference to the whole of its block.
    MemrefWhole,
    /// A registered memory reference to a part of its block, passed in.
    MemrefPartialInput,
    /// A registered memory reference to a part of its block, to be filled.
    MemrefPartialOutput,
    /// A registered memory reference to a part of its block, read and
    /// written.
    MemrefPartialInout,
}

impl ParamType {
    /// The tag selects the value shape.
    pub open spec fn spec_is_value(self) -> bool {
        self == ParamType::ValueInput || self == ParamType::ValueOutput || self
            == ParamType::ValueInout
    }

    /// The tag selects the temporary memory reference shape.
    pub open spec fn spec_is_tmpref(self) -> bool {
        self == ParamType::MemrefTempInput || self == ParamType::MemrefTempOutput || self
            == ParamType::MemrefTempInout
    }

    /// The tag selects the registered memory reference shape.
    pub open spec fn spec_is_memref(self) -> bool {
        self == ParamType::MemrefWhole || self == ParamType::MemrefPartialInput || self
            == ParamType::MemrefPartialOutput || self == ParamType::MemrefPartialInout
    }

    /// Whether the tag selects the value shape.
    #[verifier::when_used_as_spec(spec_is_value)]
    pub fn is_value(self) -> (selected: bool)
        ensures
            selected == self.spec_is_value(),
    {
        match self {
            ParamType::ValueInput | ParamType::ValueOutput | ParamType::ValueInout => true,
            _ => false,
        }
    }

    /// Whether the tag selects the temporary memory reference shape.
    #[verifier::when_used_as_spec(spec_is_tmpref)]
    pub fn is_tmpref(self) -> (selected: bool)
        ensures
            selected == self.spec_is_tmpref(),
    {
        match self {
            ParamType::MemrefTempInput
            | ParamType::MemrefTempOutput
            | ParamType::MemrefTempInout => true,
            _ => false,
        }
    }

    /// Whether the tag selects the registered memory reference shape.
    #[verifier::when_used_as_spec(spec_is_memref)]
    pub fn is_memref(self) -> (selected: bool)
        ensures
            selected == self.spec_is_memref(),
    {
        match self {
            ParamType::MemrefWhole
            | ParamType::MemrefPartialInput
            | ParamType::MemrefPartialOutput
            | ParamType::MemrefPartialInout => true,
            _ => false,
        }
    }

    /// A tag selects one shape at most, and the unused tag selects none.
    pub proof fn lemma_one_shape(self)
        ensures
            !(self.is_value() && self.is_tmpref()),
            !(self.is_value() && self.is_memref()),
            !(self.is_tmpref() && self.is_memref()),
            self == ParamType::Unused <==> !self.is_value() && !self.is_tmpref()
                && !self.is_memref(),
    {
    }

    /// The tag that a code is read as: the tag with that code, and
    /// [`ParamType::Unused`] where there is none.
    pub open spec fn of_code(code: u32) -> ParamType {
        if code == 1 {
            ParamType::ValueInput
        } else if code == 2 {
            ParamType::ValueOutput
        } else if code == 3 {
            ParamType::ValueInout
        } else if code == 5 {
            ParamType::MemrefTempInput
        } else if code == 6 {
            ParamType::MemrefTempOutput
        } else if code == 7 {
            ParamType::MemrefTempInout
        } else if code == 0xc {
            ParamType::MemrefWhole
        } else if code == 0xd {
            ParamType::MemrefPartialInput
        } else if code == 0xe {
            ParamType::MemrefPartialOutput
        } else if code == 0xf {
            ParamType::MemrefPartialInout
        } else {
            ParamType::Unused
        }
    }

    /// Computes [`ParamType::of_code`].
    pub fn read(code: u32) -> (tag: ParamType)
        ensures
            tag == ParamType::of_code(code),
    {
        match code {
            0 => ParamType::Unused,
            1 => ParamType::ValueInput,
            2 => ParamType::ValueOutput,
            3 => ParamType::ValueInout,
            5 => ParamType::MemrefTempInput,
            6 => ParamType::MemrefTempOutput,
            7 => ParamType::MemrefTempInout,
            0xC => ParamType::MemrefWhole,
            0xD => ParamType::MemrefPartialInput,
            0xE => ParamType::MemrefPartialOutput,
            0xF => ParamType::MemrefPartialInout,
            _ => ParamType::Unused,
        }
    }
}

impl Tag for ParamType {
    open spec fn code(self) -> u32 {
        match self {
            ParamType::Unused => 0,
            ParamType::ValueInput => 1,
            ParamType::ValueOutput => 2,
            ParamType::ValueInout => 3,
            ParamType::MemrefTempInput => 5,
            ParamType::MemrefTempOutput => 6,
            ParamType::MemrefTempInout => 7,
            ParamType::MemrefWhole => 0xc,
            ParamType::MemrefPartialInput => 0xd,
            ParamType::MemrefPartialOutput => 0xe,
            ParamType::MemrefPartialInout => 0xf,
        }
    }

    open spec fn decode(code: u32) -> ParamType {
        ParamType::of_code(code)
    }

    open spec fn unused() -> ParamType {
        ParamType::Unused
    }

    proof fn lemma_code(self) {
    }

    proof fn lemma_unused(code: u32) {
    }

    fn to_code(self) -> (code: u32) {
        match self {
            ParamType::Unused => 0,
            ParamType::ValueInput => 1,
            ParamType::ValueOutput => 2,
            ParamType::ValueInout => 3,
            ParamType::MemrefTempInput => 5,
            ParamType::MemrefTempOutput => 6,
            ParamType::MemrefTempInout => 7,
            ParamType::MemrefWhole => 0xC,
            ParamType::MemrefPartialInput => 0xD,
            ParamType::MemrefPartialOutput => 0xE,
            ParamType::MemrefPartialInout => 0xF,
        }
    }

    fn from_code(code: u32) -> (tag: ParamType) {
        ParamType::read(code)
    }
}

impl From<u32> for ParamType {
    /// Reads a code as a tag.  A code that belongs to no tag is read as
    /// [`ParamType::Unused`].
    fn from(value: u32) -> (tag: ParamType) {
        ParamType::read(value)
    }
}

impl vstd::std_specs::convert::FromSpecImpl<u32> for ParamType {
    open spec fn obeys_from_spec() -> bool {
        true
    }

    open spec fn from_spec(value: u32) -> ParamType {
        ParamType::of_code(value)
    }
}

/// The packed tags of the four slots of an operation.
pub struct ParamTypes(pub u32);

impl View for ParamTypes {
    type V = u32;

    open spec fn view(&self) -> u32 {
        self.0
    }
}

impl ParamTypes {
    /// Packs four tags, slot 0 in the lowest four bits.
    pub fn new(p0: ParamType, p1: ParamType, p2: ParamType, p3: ParamType) -> (types: Self)
        ensures
            types@ == pack(p0, p1, p2, p3),
    {
        ParamTypes(pack_tags(p0, p1, p2, p3))
    }

    /// Reads the four tags, slot 0 first.  A code that belongs to no tag is
    /// read as [`ParamType::Unused`]; bits above the low 16 are ignored.
    pub fn into_flags(&self) -> (flags: (ParamType, ParamType, ParamType, ParamType))
        ensures
            flags == unpack::<ParamType>(self@),
    {
        unpack_tags::<ParamType>(self.0)
    }
}

impl From<u32> for ParamTypes {
    fn from(value: u32) -> (types: ParamTypes) {
        ParamTypes(value)
    }
}

impl vstd::std_specs::convert::FromSpecImpl<u32> for ParamTypes {
    open spec fn obeys_from_spec() -> bool {
        true
    }

    open spec fn from_spec(value: u32) -> ParamTypes {
        ParamTypes(value)
    }
}

impl From<[u32; 4]> for ParamTypes {
    /// Joins four codes as they are.  A code wider than four bits spills
    /// into the slots above it.
    fn from(param_types: [u32; 4]) -> (types: ParamTypes) {
        ParamTypes(join_codes(param_types[0], param_types[1], param_types[2], param_types[3]))
    }
}

impl vstd::std_specs::convert::FromSpecImpl<[u32; 4]> for ParamTypes {
    open spec fn obeys_from_spec() -> bool {
        true
    }

    open spec fn from_spec(param_types: [u32; 4]) -> ParamTypes {
        ParamTypes(join(param_types[0], param_types[1], param_types[2], param_types[3]))
    }
}

impl From<ParamTypes> for u32 {
    fn from(a: ParamTypes) -> (field: u32) {
        a.0
    }
}

impl vstd::std_specs::convert::FromSpecImpl<ParamTypes> for u32 {
    open spec fn obeys_from_spec() -> bool {
        true
    }

    open spec fn from_spec(a: ParamTypes) -> u32 {
        a.0
    }
}

/// A typed parameter: something that can be turned into a raw slot for a
/// call and made again from the slot when the call has returned.
pub trait Param<'a>: Sized {
    /// The tag that goes with the parameter's slot.
    spec fn tag(&self) -> ParamType;

    /// What the raw slot of the parameter holds.
    spec fn slot(&self) -> Slot;

    /// Whether the parameter is the one that a slot holding `raw` gives
    /// under the tag `param_type`.
    spec fn made_from(&self, raw: Slot, param_type: ParamType) -> bool;

    /// A parameter that is made from the slot and the tag of another has
    /// the same slot and the same tag as the other.
    proof fn lemma_made_from_own(&self, other: &Self)
        requires
            self.made_from(other.slot(), other.tag()),
        ensures
            self.slot() == other.slot(),
            self.tag() == other.tag(),
    ;

    /// The raw slot of the parameter.  It refers to the same storage as the
    /// parameter does, and the parameter keeps its tag.
    fn into_raw(&mut self) -> (raw: TEEC_Parameter<'_>)
        ensures
            raw@ == old(self).slot(),
            final(self).tag() == old(self).tag(),
    ;

    fn param_type(&self) -> (param_type: ParamType)
        ensures
            param_type == self.tag(),
    ;

    /// The parameter that a raw slot holds under the tag `param_type`.
    fn from_raw(raw: TEEC_Parameter<'a>, param_type: ParamType) -> (parameter: Self)
        ensures
            parameter.made_from(raw@, param_type),
    ;
}

/// A pair of 32-bit values.
pub struct ParamValue {
    pub raw: TEEC_Value,
    pub param_type: ParamType,
}

impl ParamValue {
    pub fn new(a: u32, b: u32, param_type: ParamType) -> (value: Self)
        ensures
            value.raw == (TEEC_Value { a, b }),
            value.param_type == param_type,
    {
        let raw = TEEC_Value { a, b };
        Self { raw, param_type }
    }

    pub fn a(&self) -> (a: u32)
        ensures
            a == self.raw.a,
    {
        self.raw.a
    }

    pub fn b(&self) -> (b: u32)
        ensures
            b == self.raw.b,
    {
        self.raw.b
    }
}

impl<'a> Param<'a> for ParamValue {
    open spec fn tag(&self) -> ParamType {
        self.param_type
    }

    open spec fn slot(&self) -> Slot {
        Slot { value: self.raw, ..Slot::zero() }
    }

    open spec fn made_from(&self, raw: Slot, param_type: ParamType) -> bool {
        self.raw == raw.value && self.param_type == param_type
    }

    proof fn lemma_made_from_own(&self, other: &Self) {
    }

    /// The slot holds the pair in its value shape; its other shapes are
    /// zero.
    fn into_raw(&mut self) -> (raw: TEEC_Parameter<'_>)
        ensures
            raw.value == old(self).raw,
            raw.tmpref.is_zero(),
            raw.memref.is_zero(),
            *final(self) == *old(self),
    {
        let raw = TEEC_Parameter {
            tmpref: TEEC_TempMemoryReference { buffer: &mut [], size: 0 },
            memref: TEEC_RegisteredMemoryReference { parent: 0, size: 0, offset: 0 },
            value: self.raw,
        };
        assert(raw@.tmpref_bytes =~= Seq::empty());
        raw
    }

    fn param_type(&self) -> (param_type: ParamType) {
        self.param_type
    }

    /// The pair is the value shape of the slot, whatever else the slot
    /// holds.
    fn from_raw(raw: TEEC_Parameter<'a>, param_type: ParamType) -> (value: Self)
        ensures
            value.raw == raw.value,
            value.param_type == param_type,
    {
        Self { raw: raw.value, param_type: param_type }
    }
}

/// No parameter: what stands in a slot that is not used.
pub struct ParamNone;

impl<'a> Param<'a> for ParamNone {
    open spec fn tag(&self) -> ParamType {
        ParamType::Unused
    }

    open spec fn slot(&self) -> Slot {
        Slot::zero()
    }

    open spec fn made_from(&self, raw: Slot, param_type: ParamType) -> bool {
        true
    }

    proof fn lemma_made_from_own(&self, other: &Self) {
    }

    /// The slot is zero in all its shapes.
    fn into_raw(&mut self) -> (raw: TEEC_Parameter<'_>)
        ensures
            raw.is_zero(),
    {
        let raw = TEEC_Parameter::zeroed();
        assert(raw@.tmpref_bytes =~= Seq::empty());
        raw
    }

    fn param_type(&self) -> (param_type: ParamType) {
        ParamType::Unused
    }

    /// Nothing of the slot is read, and the tag is not looked at.
    fn from_raw(_raw: TEEC_Parameter<'a>, _param_type: ParamType) -> (none: Self) {
        Self
    }
}

/// A reference to a buffer of the client that is shared for one call.
///
/// The buffer is borrowed: the parameter and every slot made of it refer to
/// the bytes of the buffer itself.
pub struct ParamTmpRef<'a> {
    pub raw: TEEC_TempMemoryReference<'a>,
    pub param_type: ParamType,
}

impl<'a> ParamTmpRef<'a> {
    /// The reference that the parameter holds now.
    pub open spec fn reference(&self) -> TEEC_TempMemoryReference<'a> {
        self.raw
    }

    /// A reference to the whole of `buffer`; its size is the buffer's
    /// length.
    pub fn new(buffer: &'a mut [u8], param_type: ParamType) -> (tmpref: Self)
        ensures
            tmpref.raw.buffer@ == old(buffer)@,
            tmpref.raw.size == old(buffer)@.len(),
            tmpref.reference().bytes() == old(buffer)@,
            tmpref.param_type == param_type,
            final(buffer)@ == final(tmpref.raw.buffer)@,
    {
        let size: usize = buffer.len();
        let raw = TEEC_TempMemoryReference { buffer, size };
        proof {
            raw.lemma_reach_whole();
        }
        Self { raw, param_type }
    }

    /// The bytes that can be reached through the reference: as many as the
    /// reported size says, and no more than the buffer holds.
    pub fn buffer(&self) -> (bytes: &[u8])
        ensures
            bytes@ == self.reference().bytes(),
    {
        let held: usize = self.raw.buffer.len();
        let reach: usize = if self.raw.size <= held {
            self.raw.size
        } else {
            held
        };
        let (bytes, _beyond) = self.raw.buffer.split_at(reach);
        bytes
    }
}

impl<'a> Param<'a> for ParamTmpRef<'a> {
    open spec fn tag(&self) -> ParamType {
        self.param_type
    }

    open spec fn slot(&self) -> Slot {
        Slot { tmpref_bytes: self.raw.buffer@, tmpref_size: self.raw.size, ..Slot::zero() }
    }

    open spec fn made_from(&self, raw: Slot, param_type: ParamType) -> bool {
        &&& self.raw.buffer@ == raw.tmpref_bytes
        &&& self.raw.size == raw.tmpref_size
        &&& self.param_type == param_type
    }

    proof fn lemma_made_from_own(&self, other: &Self) {
    }

    /// The slot holds the reference in its temporary memory reference
    /// shape, with the size that the parameter reports; its other shapes are
    /// zero.  The slot refers to the parameter's own storage: what is written
    /// through the slot is what the parameter holds afterwards.
    fn into_raw(&mut self) -> (raw: TEEC_Parameter<'_>)
        ensures
            raw.tmpref.buffer@ == old(self).raw.buffer@,
            raw.tmpref.size == old(self).raw.size,
            raw.memref.is_zero(),
            raw.value == (TEEC_Value { a: 0, b: 0 }),
            final(self).raw.buffer@ == final(raw.tmpref.buffer)@,
            final(self).raw.size == old(self).raw.size,
            final(self).param_type == old(self).param_type,
            final(final(self).raw.buffer)@ == final(old(self).raw.buffer)@,
    {
        TEEC_Parameter {
            tmpref: TEEC_TempMemoryReference { buffer: &mut *self.raw.buffer, size: self.raw.size },
            memref: TEEC_RegisteredMemoryReference { parent: 0, size: 0, offset: 0 },
            value: TEEC_Value { a: 0, b: 0 },
        }
    }

    fn param_type(&self) -> (param_type: ParamType) {
        self.param_type
    }

    /// The reference is the temporary memory reference shape of the slot,
    /// storage and size, whatever else the slot holds.
    fn from_raw(raw: TEEC_Parameter<'a>, param_type: ParamType) -> (tmpref: Self)
        ensures
            tmpref.raw == raw.tmpref,
            tmpref.param_type == param_type,
    {
        Self { raw: raw.tmpref, param_type: param_type }
    }
}

} // verus!
