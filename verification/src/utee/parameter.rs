//! Tags and typed views of the slots that a trusted application receives.

use crate::error::{Error, ErrorKind};
use crate::tag_field::{unpack, unpack_tags, Tag};
use crate::utee::raw::{Memref, TEE_Param, Value};
use vstd::prelude::*;

verus! {

/// The tag of a slot.
#[derive(Clone, Copy, Debug, PartialEq, Eq, Structural)]
pub enum ParamType {
    /// The slot is not used.
    Unused,
    /// A value pair that the caller passes in.
    ValueInput,
    /// A value pair that the trusted application fills.
    ValueOutput,
    /// A value pair that is passed in and written back.
    ValueInout,
    /// A memory reference to bytes that the caller passes in.
    MemrefInput,
    /// A memory reference to storage that the trusted application fills.
    MemrefOutput,
    /// A memory reference that is read and written.
    MemrefInout,
}

impl ParamType {
    /// The tag selects the value shape.
    pub open spec fn spec_is_value(self) -> bool {
        self == ParamType::ValueInput || self == ParamType::ValueOutput || self
            == ParamType::ValueInout
    }

    /// The tag selects the memory reference shape.
    pub open spec fn spec_is_memref(self) -> bool {
        self == ParamType::MemrefInput || self == ParamType::MemrefOutput || self
            == ParamType::MemrefInout
    }

    /// Whether the tag selects the value shape.
    #[verifier::when_used_as_spec(spec_is_value)]
    pub fn is_value(self) -> (selected: bool)
        ensures
            selected == self.spec_is_value(),
    {
        match self {
            ParamType::ValueInput | ParamType::ValueInout | ParamType::ValueOutput => true,
            _ => false,
        }
    }

    /// Whether the tag selects the memory reference shape.
    #[verifier::when_used_as_spec(spec_is_memref)]
    pub fn is_memref(self) -> (selected: bool)
        ensures
            selected == self.spec_is_memref(),
    {
        match self {
            ParamType::MemrefInout | ParamType::MemrefInput | ParamType::MemrefOutput => true,
            _ => false,
        }
    }

    /// A tag selects one shape at most, and the unused tag selects none.
    pub proof fn lemma_one_shape(self)
        ensures
            !(self.is_value() && self.is_memref()),
            self == ParamType::Unused <==> !self.is_value() && !self.is_memref(),
    {
    }

    /// The tag that a code is read as: the tag with that code, and
    /// [`ParamType::Unused`] where there is none.
    pub open spec fn of_code(code: u32) -> ParamType {
        if code == 1 {
            ParamType::ValueInput
        } else if code == 2 {
            ParamType::ValueOutput
        } else if code == 3 {
            ParamType::ValueInout
        } else if code == 5 {
            ParamType::MemrefInput
        } else if code == 6 {
            ParamType::MemrefOutput
        } else if code == 7 {
            ParamType::MemrefInout
        } else {
            ParamType::Unused
        }
    }

    /// Computes [`ParamType::of_code`].
    pub fn read(code: u32) -> (tag: ParamType)
        ensures
            tag == ParamType::of_code(code),
    {
        match code {
            0 => ParamType::Unused,
            1 => ParamType::ValueInput,
            2 => ParamType::ValueOutput,
            3 => ParamType::ValueInout,
            5 => ParamType::MemrefInput,
            6 => ParamType::MemrefOutput,
            7 => ParamType::MemrefInout,
            _ => ParamType::Unused,
        }
    }
}

impl Tag for ParamType {
    open spec fn code(self) -> u32 {
        match self {
            ParamType::Unused => 0,
            ParamType::ValueInput => 1,
            ParamType::ValueOutput => 2,
            ParamType::ValueInout => 3,
            ParamType::MemrefInput => 5,
            ParamType::MemrefOutput => 6,
            ParamType::MemrefInout => 7,
        }
    }

    open spec fn decode(code: u32) -> ParamType {
        ParamType::of_code(code)
    }

    open spec fn unused() -> ParamType {
        ParamType::Unused
    }

    proof fn lemma_code(self) {
    }

    proof fn lemma_unused(code: u32) {
    }

    fn to_code(self) -> (code: u32) {
        match self {
            ParamType::Unused => 0,
            ParamType::ValueInput => 1,
            ParamType::ValueOutput => 2,
            ParamType::ValueInout => 3,
            ParamType::MemrefInput => 5,
            ParamType::MemrefOutput => 6,
            ParamType::MemrefInout => 7,
        }
    }

    fn from_code(code: u32) -> (tag: ParamType) {
        ParamType::read(code)
    }
}

impl From<u32> for ParamType {
    /// Reads a code as a tag.  A code that belongs to no tag is read as
    /// [`ParamType::Unused`].
    fn from(value: u32) -> (tag: ParamType) {
        ParamType::read(value)
    }
}

impl vstd::std_specs::convert::FromSpecImpl<u32> for ParamType {
    open spec fn obeys_from_spec() -> bool {
        true
    }

    open spec fn from_spec(value: u32) -> ParamType {
        ParamType::of_code(value)
    }
}

/// The packed tags of the four slots of a call.
pub struct ParamTypes(pub u32);

impl View for ParamTypes {
    type V = u32;

    open spec fn view(&self) -> u32 {
        self.0
    }
}

impl ParamTypes {
    /// Reads the four tags, slot 0 first.  A code that belongs to no tag is
    /// read as [`ParamType::Unused`]; bits above the low 16 are ignored.
    pub fn into_flags(&self) -> (flags: (ParamType, ParamType, ParamType, ParamType))
        ensures
            flags == unpack::<ParamType>(self@),
    {
        unpack_tags::<ParamType>(self.0)
    }
}

impl From<u32> for ParamTypes {
    fn from(value: u32) -> (types: ParamTypes) {
        ParamTypes(value)
    }
}

impl vstd::std_specs::convert::FromSpecImpl<u32> for ParamTypes {
    open spec fn obeys_from_spec() -> bool {
        true
    }

    open spec fn from_spec(value: u32) -> ParamTypes {
        ParamTypes(value)
    }
}

/// The value pair of a slot, read and written in place.
///
/// The view borrows the value shape of the slot it was made over: when the
/// view is gone, the slot holds what the view held last.
pub struct ParamValue<'parameter> {
    pub raw: &'parameter mut Value,
    pub param_type: ParamType,
}

impl<'parameter> View for ParamValue<'parameter> {
    type V = Value;

    /// The pair that the view holds now.
    open spec fn view(&self) -> Value {
        *self.raw
    }
}

impl<'parameter> ParamValue<'parameter> {
    pub fn a(&self) -> (a: u32)
        ensures
            a == self@.a,
    {
        self.raw.a
    }

    pub fn b(&self) -> (b: u32)
        ensures
            b == self@.b,
    {
        self.raw.b
    }

    /// Writes the first field; the second stays.
    pub fn set_a(&mut self, a: u32)
        ensures
            final(self)@ == (Value { a, b: old(self)@.b }),
            final(self).param_type == old(self).param_type,
            *final(final(self).raw) == *final(old(self).raw),
    {
        self.raw.a = a;
    }

    /// Writes the second field; the first stays.
    pub fn set_b(&mut self, b: u32)
        ensures
            final(self)@ == (Value { a: old(self)@.a, b }),
            final(self).param_type == old(self).param_type,
            *final(final(self).raw) == *final(old(self).raw),
    {
        self.raw.b = b;
    }

    pub fn param_type(&self) -> (param_type: ParamType)
        ensures
            param_type == self.param_type,
    {
        self.param_type
    }
}

/// The memory reference of a slot, read and written in place.
///
/// The view borrows the memory reference shape of the slot it was made
/// over, and through it the storage that the caller shared.
pub struct ParamMemref<'parameter, 'buffer> {
    pub raw: &'parameter mut Memref<'buffer>,
    pub param_type: ParamType,
}

impl<'parameter, 'buffer> View for ParamMemref<'parameter, 'buffer> {
    type V = Memref<'buffer>;

    /// The memory reference that the view holds now.
    open spec fn view(&self) -> Memref<'buffer> {
        *self.raw
    }
}

impl<'parameter, 'buffer> ParamMemref<'parameter, 'buffer> {
    /// The bytes that can be reached through the reference: as many as the
    /// reported size says, and no more than the storage holds.  What is
    /// written to them is written to the storage; the bytes beyond, and the
    /// reported size, stay.
    pub fn buffer(&mut self) -> (bytes: &mut [u8])
        ensures
            bytes@ == old(self)@.bytes(),
            final(self).raw.buffer@ == final(bytes)@ + old(self)@.beyond(),
            final(self).raw.size == old(self).raw.size,
            final(self).param_type == old(self).param_type,
            final(final(self).raw.buffer)@ == final(old(self).raw.buffer)@,
            *final(final(self).raw) == *final(old(self).raw),
    {
        let size: usize = self.raw.size as usize;
        let held: usize = self.raw.buffer.len();
        let reach: usize = if size <= held {
            size
        } else {
            held
        };
        let (bytes, _beyond) = self.raw.buffer.split_at_mut(reach);
        bytes
    }

    pub fn param_type(&self) -> (param_type: ParamType)
        ensures
            param_type == self.param_type,
    {
        self.param_type
    }

    /// The memory reference itself, to read or to write.
    pub fn raw(&mut self) -> (raw: &mut Memref<'buffer>)
        ensures
            *raw == old(self)@,
            final(self)@ == *final(raw),
            final(self).param_type == old(self).param_type,
            *final(final(self).raw) == *final(old(self).raw),
    {
        &mut *self.raw
    }

    /// Reports another size for the reference.  The storage is not touched.
    /// The size field has 32 bits: of a larger `size` the low 32 bits are
    /// kept.
    pub fn set_updated_size(&mut self, size: usize)
        ensures
            final(self).raw.size == size as u32,
            final(self).raw.buffer == old(self).raw.buffer,
            final(self).param_type == old(self).param_type,
            *final(final(self).raw) == *final(old(self).raw),
    {
        self.raw.size = #[verifier::truncate]
        (size as u32);
    }
}

/// A slot that someone else owns, with the tag that was claimed for it.
///
/// What is written through the views of the slot is written to the owner's
/// slot, and stays there after the call.
pub struct Parameter<'parameter, 'buffer> {
    pub raw: &'parameter mut TEE_Param<'buffer>,
    pub param_type: ParamType,
}

impl<'parameter, 'buffer> Parameter<'parameter, 'buffer> {
    /// The slot as it is now.
    pub open spec fn slot(&self) -> TEE_Param<'buffer> {
        *self.raw
    }

    /// Binds a tag to a slot.  Nothing of the slot is read.
    pub fn from_raw(ptr: &'parameter mut TEE_Param<'buffer>, param_type: ParamType) -> (parameter:
        Self)
        ensures
            parameter.slot() == *old(ptr),
            *final(ptr) == *final(parameter.raw),
            parameter.param_type == param_type,
    {
        Self { raw: ptr, param_type: param_type }
    }

    /// The value pair of the slot, if the tag selects it.
    ///
    /// Succeeds exactly for the three value tags.  Otherwise it fails with
    /// [`ErrorKind::BadParameters`], and nothing has changed.
    pub fn as_value(&mut self) -> (value: Result<ParamValue<'_>, Error>)
        ensures
            value is Ok <==> old(self).param_type.is_value(),
            value matches Err(error) ==> error.kind == ErrorKind::BadParameters && *final(self)
                == *old(self),
            value matches Ok(view) ==> {
                &&& view.param_type == old(self).param_type
                &&& view@ == old(self).raw.value
                &&& final(self).raw.value == *final(view.raw)
                &&& final(self).raw.memref == old(self).raw.memref
                &&& final(self).param_type == old(self).param_type
                &&& *final(final(self).raw) == *final(old(self).raw)
            },
    {
        if self.param_type.is_value() {
            Ok(ParamValue { raw: &mut self.raw.value, param_type: self.param_type })
        } else {
            Err(Error::new(ErrorKind::BadParameters))
        }
    }

    /// The memory reference of the slot, if the tag selects it.
    ///
    /// Succeeds exactly for the three memory reference tags.  Otherwise it
    /// fails with [`ErrorKind::BadParameters`], and nothing has changed.
    pub fn as_memref(&mut self) -> (memref: Result<ParamMemref<'_, 'buffer>, Error>)
        ensures
            memref is Ok <==> old(self).param_type.is_memref(),
            memref matches Err(error) ==> error.kind == ErrorKind::BadParameters && *final(self)
                == *old(self),
            memref matches Ok(view) ==> {
                &&& view.param_type == old(self).param_type
                &&& view@ == old(self).raw.memref
                &&& final(self).raw.memref == *final(view.raw)
                &&& final(self).raw.value == old(self).raw.value
                &&& final(self).param_type == old(self).param_type
                &&& *final(final(self).raw) == *final(old(self).raw)
            },
    {
        if self.param_type.is_memref() {
            Ok(ParamMemref { raw: &mut self.raw.memref, param_type: self.param_type })
        } else {
            Err(Error::new(ErrorKind::BadParameters))
        }
    }

    /// The slot as it is now, whatever the tag.
    pub fn raw(&self) -> (raw: &TEE_Param<'buffer>)
        ensures
            *raw == self.slot(),
    {
        &*self.raw
    }
}

/// A slot of its own, with the tag that was given for it.
///
/// It is made from a byte buffer or from two values, to hand a parameter on
/// rather than to read one that was received.
pub struct DifferentParameter<'buffer> {
    pub raw: TEE_Param<'buffer>,
    pub param_type: ParamType,
}

impl<'buffer> DifferentParameter<'buffer> {
    /// A slot whose memory reference is the whole of `source`.
    ///
    /// The size field has 32 bits.  A buffer of more than `u32::MAX` bytes
    /// fails with [`ErrorKind::TargetDead`]; no reference to a part of it is
    /// made.  Otherwise the slot refers to the bytes of `source` themselves,
    /// its size is their number, and its value shape is zero.
    pub fn from_vec(source: &'buffer mut Vec<u8>, param_type: ParamType) -> (parameter: Result<
        Self,
        Error,
    >)
        ensures
            parameter is Ok <==> old(source)@.len() <= u32::MAX,
            parameter matches Err(error) ==> error.kind == ErrorKind::TargetDead && final(source)@
                == old(source)@,
            parameter matches Ok(made) ==> {
                &&& made.param_type == param_type
                &&& made.raw.memref.size == old(source)@.len()
                &&& made.raw.memref.buffer@ == old(source)@
                &&& made.raw.memref.bytes() == old(source)@
                &&& made.raw.value == (Value { a: 0, b: 0 })
                &&& final(source)@ == final(made.raw.memref.buffer)@
            },
    {
        let size: u32 = match u32::try_from(source.len()) {
            Ok(size) => size,
            Err(_) => {
                return Err(Error::from(ErrorKind::TargetDead));
            },
        };
        let raw = TEE_Param {
            memref: Memref { buffer: source.as_mut_slice(), size },
            value: Value { a: 0, b: 0 },
        };
        proof {
            raw.memref.lemma_reach_whole();
        }
        Ok(Self { raw, param_type: param_type })
    }

    /// A slot whose value pair is `(a, b)`.  Its memory reference is zero.
    pub fn from_values(a: u32, b: u32, param_type: ParamType) -> (parameter: Self)
        ensures
            parameter.raw.value == (Value { a, b }),
            parameter.raw.memref.is_zero(),
            parameter.param_type == param_type,
    {
        let raw = TEE_Param {
            memref: Memref { buffer: &mut [], size: 0 },
            value: Value { a: a, b: b },
        };
        Self { raw, param_type: param_type }
    }

    /// The value pair of the slot, if the tag selects it.
    ///
    /// Succeeds exactly for the three value tags.  Otherwise it fails with
    /// [`ErrorKind::BadParameters`], and nothing has changed.
    pub fn as_value(&mut self) -> (value: Result<ParamValue<'_>, Error>)
        ensures
            value is Ok <==> old(self).param_type.is_value(),
            value matches Err(error) ==> error.kind == ErrorKind::BadParameters && *final(self)
                == *old(self),
            value matches Ok(view) ==> {
                &&& view.param_type == old(self).param_type
                &&& view@ == old(self).raw.value
                &&& final(self).raw.value == *final(view.raw)
                &&& final(self).raw.memref == old(self).raw.memref
                &&& final(self).param_type == old(self).param_type
            },
    {
        if self.param_type.is_value() {
            Ok(ParamValue { raw: &mut self.raw.value, param_type: self.param_type })
        } else {
            Err(Error::new(ErrorKind::BadParameters))
        }
    }

    /// The memory reference of the slot, if the tag selects it.
    ///
    /// Succeeds exactly for the three memory reference tags.  Otherwise it
    /// fails with [`ErrorKind::BadParameters`], and nothing has changed.
    pub fn as_memref(&mut self) -> (memref: Result<ParamMemref<'_, 'buffer>, Error>)
        ensures
            memref is Ok <==> old(self).param_type.is_memref(),
            memref matches Err(error) ==> error.kind == ErrorKind::BadParameters && *final(self)
                == *old(self),
            memref matches Ok(view) ==> {
                &&& view.param_type == old(self).param_type
                &&& view@ == old(self).raw.memref
                &&& final(self).raw.memref == *final(view.raw)
                &&& final(self).raw.value == old(self).raw.value
                &&& final(self).param_type == old(self).param_type
            },
    {
        if self.param_type.is_memref() {
            Ok(ParamMemref { raw: &mut self.raw.memref, param_type: self.param_type })
        } else {
            Err(Error::new(ErrorKind::BadParameters))
        }
    }

    /// The slot itself, to read or to write, whatever the tag.
    pub fn raw(&mut self) -> (raw: &mut TEE_Param<'buffer>)
        ensures
            *raw == old(self).raw,
            final(self).raw == *final(raw),
            final(self).param_type == old(self).param_type,
    {
        &mut self.raw
    }
}

/// The four slots of a call that was received, each with its tag.
pub struct Parameters<'parameter, 'buffer>(
    pub Parameter<'parameter, 'buffer>,
    pub Parameter<'parameter, 'buffer>,
    pub Parameter<'parameter, 'buffer>,
    pub Parameter<'parameter, 'buffer>,
);

impl<'parameter, 'buffer> Parameters<'parameter, 'buffer> {
    /// The tags that the four parameters carry, slot 0 first.
    pub open spec fn param_types(&self) -> (ParamType, ParamType, ParamType, ParamType) {
        (self.0.param_type, self.1.param_type, self.2.param_type, self.3.param_type)
    }

    /// The four slots as they are now, slot 0 first.
    pub open spec fn slots(&self) -> Seq<TEE_Param<'buffer>> {
        seq![self.0.slot(), self.1.slot(), self.2.slot(), self.3.slot()]
    }

    /// Binds each of the four slots to the tag that the packed field holds
    /// for it.
    ///
    /// The field is unpacked once.  A code that belongs to no tag leaves its
    /// slot with [`ParamType::Unused`].  Nothing of the slots is read, and
    /// each parameter stands for its own slot: what is written through it is
    /// written there.
    pub fn from_raw(tee_params: &'parameter mut [TEE_Param<'buffer>; 4], param_types: u32) -> (
        parameters: Self)
        ensures
            parameters.param_types() == unpack::<ParamType>(param_types),
            parameters.slots() == old(tee_params)@,
            final(tee_params)@ == seq![
                *final(parameters.0.raw),
                *final(parameters.1.raw),
                *final(parameters.2.raw),
                *final(parameters.3.raw),
            ],
    {
        let (f0, f1, f2, f3) = ParamTypes::from(param_types).into_flags();
        let slots: &mut [TEE_Param<'buffer>] = tee_params;
        let (s0, rest) = slots.split_at_mut(1);
        let (s1, rest) = rest.split_at_mut(1);
        let (s2, s3) = rest.split_at_mut(1);
        let p0 = Parameter::from_raw(&mut s0[0], f0);
        let p1 = Parameter::from_raw(&mut s1[0], f1);
        let p2 = Parameter::from_raw(&mut s2[0], f2);
        let p3 = Parameter::from_raw(&mut s3[0], f3);
        Parameters(p0, p1, p2, p3)
    }
}

/// Four slots of their own, each with its tag.
pub struct DifferentParameters<'buffer>(
    pub DifferentParameter<'buffer>,
    pub DifferentParameter<'buffer>,
    pub DifferentParameter<'buffer>,
    pub DifferentParameter<'buffer>,
);

} // verus!
