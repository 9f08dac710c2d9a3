//! The packed tag field: four 4-bit codes in the low 16 bits of a `u32`,
//! the code of slot `i` at bits `[4 * i, 4 * i + 4)`.

use vstd::prelude::*;

verus! {

/// The field that holds the four codes, each in its own four bits.
pub open spec fn join(c0: u32, c1: u32, c2: u32, c3: u32) -> u32 {
    c0 | (c1 << 4) | (c2 << 8) | (c3 << 12)
}

/// The code that `field` holds for `slot`.  Bits above the low 16 belong to
/// no slot.
pub open spec fn code_at(field: u32, slot: int) -> u32
    recommends
        0 <= slot < 4,
{
    if slot == 0 {
        field & 0xf
    } else if slot == 1 {
        (field >> 4) & 0xf
    } else if slot == 2 {
        (field >> 8) & 0xf
    } else {
        (field >> 12) & 0xf
    }
}

/// Joining four codes of four bits each, then reading a slot, gives back
/// the code that was put there; and the field has no bit above the low 16.
pub proof fn lemma_code_at_join(c0: u32, c1: u32, c2: u32, c3: u32)
    requires
        c0 <= 0xf,
        c1 <= 0xf,
        c2 <= 0xf,
        c3 <= 0xf,
    ensures
        code_at(join(c0, c1, c2, c3), 0) == c0,
        code_at(join(c0, c1, c2, c3), 1) == c1,
        code_at(join(c0, c1, c2, c3), 2) == c2,
        code_at(join(c0, c1, c2, c3), 3) == c3,
        join(c0, c1, c2, c3) <= 0xffff,
{
    let field = join(c0, c1, c2, c3);
    assert(field & 0xf == c0 && (field >> 4) & 0xf == c1 && (field >> 8) & 0xf == c2 && (field
        >> 12) & 0xf == c3 && field <= 0xffff) by (bit_vector)
        requires
            field == c0 | (c1 << 4) | (c2 << 8) | (c3 << 12),
            c0 <= 0xf,
            c1 <= 0xf,
            c2 <= 0xf,
            c3 <= 0xf,
    ;
}

/// A field of 16 significant bits is the join of its four codes.
pub proof fn lemma_join_code_at(field: u32)
    requires
        field <= 0xffff,
    ensures
        join(code_at(field, 0), code_at(field, 1), code_at(field, 2), code_at(field, 3)) == field,
{
    let c0 = code_at(field, 0);
    let c1 = code_at(field, 1);
    let c2 = code_at(field, 2);
    let c3 = code_at(field, 3);
    assert(c0 | (c1 << 4) | (c2 << 8) | (c3 << 12) == field) by (bit_vector)
        requires
            field <= 0xffff,
            c0 == field & 0xf,
            c1 == (field >> 4) & 0xf,
            c2 == (field >> 8) & 0xf,
            c3 == (field >> 12) & 0xf,
    ;
}

/// Every code is below 16, and the bits above the low 16 of the field have
/// no part in it.
pub proof fn lemma_code_at_low_bits(field: u32, slot: int)
    requires
        0 <= slot < 4,
    ensures
        code_at(field, slot) <= 0xf,
        code_at(field, slot) == code_at(field & 0xffff, slot),
{
    let low = field & 0xffff;
    assert(field & 0xf == low & 0xf && low & 0xf <= 0xf) by (bit_vector)
        requires
            low == field & 0xffff,
    ;
    assert((field >> 4) & 0xf == (low >> 4) & 0xf && (low >> 4) & 0xf <= 0xf) by (bit_vector)
        requires
            low == field & 0xffff,
    ;
    assert((field >> 8) & 0xf == (low >> 8) & 0xf && (low >> 8) & 0xf <= 0xf) by (bit_vector)
        requires
            low == field & 0xffff,
    ;
    assert((field >> 12) & 0xf == (low >> 12) & 0xf && (low >> 12) & 0xf <= 0xf) by (bit_vector)
        requires
            low == field & 0xffff,
    ;
}

/// Read as numbers, the codes are the digits of the field in base 16: the
/// code of slot `i` is the digit of weight `16^i`, and four codes of four
/// bits each join to the number with those digits.
pub proof fn lemma_base_16(field: u32, c0: u32, c1: u32, c2: u32, c3: u32)
    requires
        c0 <= 0xf,
        c1 <= 0xf,
        c2 <= 0xf,
        c3 <= 0xf,
    ensures
        code_at(field, 0) == field % 16,
        code_at(field, 1) == (field / 16) % 16,
        code_at(field, 2) == (field / 256) % 16,
        code_at(field, 3) == (field / 4096) % 16,
        join(c0, c1, c2, c3) == c0 + 16 * c1 + 256 * c2 + 4096 * c3,
{
    assert(field & 0xf == field % 16 && (field >> 4) & 0xf == (field / 16) % 16 && (field >> 8)
        & 0xf == (field / 256) % 16 && (field >> 12) & 0xf == (field / 4096) % 16)
        by (bit_vector);
    assert(c0 | (c1 << 4) | (c2 << 8) | (c3 << 12) == c0 + 16 * c1 + 256 * c2 + 4096 * c3)
        by (bit_vector)
        requires
            c0 <= 0xf,
            c1 <= 0xf,
            c2 <= 0xf,
            c3 <= 0xf,
    ;
}

/// Computes [`join`].  A code wider than four bits spills into the slots
/// above it, and what is shifted past bit 31 is lost.
pub fn join_codes(c0: u32, c1: u32, c2: u32, c3: u32) -> (field: u32)
    ensures
        field == join(c0, c1, c2, c3),
{
    c0 | c1 << 4 | c2 << 8 | c3 << 12
}

/// Computes [`code_at`] for the four slots.
pub fn split_codes(field: u32) -> (codes: (u32, u32, u32, u32))
    ensures
        codes.0 == code_at(field, 0),
        codes.1 == code_at(field, 1),
        codes.2 == code_at(field, 2),
        codes.3 == code_at(field, 3),
{
    let c0: u32 = 0x000fu32 & field;
    let c1: u32 = (0x00f0u32 & field) >> 4;
    let c2: u32 = (0x0f00u32 & field) >> 8;
    let c3: u32 = (0xf000u32 & field) >> 12;
    assert(c0 == field & 0xf && c1 == (field >> 4) & 0xf && c2 == (field >> 8) & 0xf && c3
        == (field >> 12) & 0xf) by (bit_vector)
        requires
            c0 == 0x000fu32 & field,
            c1 == (0x00f0u32 & field) >> 4,
            c2 == (0x0f00u32 & field) >> 8,
            c3 == (0xf000u32 & field) >> 12,
    ;
    (c0, c1, c2, c3)
}

/// A closed set of slot tags, each with a code of four bits.  Each side of
/// the boundary has its own set.
pub trait Tag: Sized + Copy {
    /// The code that stands for the tag in the packed field.
    spec fn code(self) -> u32;

    /// The tag that a code is read as.  Every code is read as some tag.
    spec fn decode(code: u32) -> Self;

    /// The tag of a slot that is not used.
    spec fn unused() -> Self;

    /// A code fits in four bits, and reading it gives back its tag.
    proof fn lemma_code(self)
        ensures
            self.code() <= 0xf,
            Self::decode(self.code()) == self,
    ;

    /// The unused tag has code 0, and a code that belongs to no tag is read
    /// as the unused tag.
    proof fn lemma_unused(code: u32)
        ensures
            Self::unused().code() == 0,
            Self::decode(code).code() != code ==> Self::decode(code) == Self::unused(),
    ;

    /// Computes [`Tag::code`].
    fn to_code(self) -> (code: u32)
        ensures
            code == self.code(),
    ;

    /// Computes [`Tag::decode`].
    fn from_code(code: u32) -> (tag: Self)
        ensures
            tag == Self::decode(code),
    ;
}

/// Whether `code` is the code of a tag of the set `T`.
pub open spec fn recognized<T: Tag>(code: u32) -> bool {
    T::decode(code).code() == code
}

/// The packed field of four tags.
pub open spec fn pack<T: Tag>(t0: T, t1: T, t2: T, t3: T) -> u32 {
    join(t0.code(), t1.code(), t2.code(), t3.code())
}

/// The four tags that a packed field is read as.
pub open spec fn unpack<T: Tag>(field: u32) -> (T, T, T, T) {
    (
        T::decode(code_at(field, 0)),
        T::decode(code_at(field, 1)),
        T::decode(code_at(field, 2)),
        T::decode(code_at(field, 3)),
    )
}

/// The tag that a packed field is read as at one slot.
pub open spec fn tag_at<T: Tag>(field: u32, slot: int) -> T
    recommends
        0 <= slot < 4,
{
    T::decode(code_at(field, slot))
}

/// Packing four tags and unpacking the field gives back the four tags, and
/// the field has no bit above the low 16.
pub proof fn lemma_unpack_pack<T: Tag>(t0: T, t1: T, t2: T, t3: T)
    ensures
        unpack::<T>(pack(t0, t1, t2, t3)) == (t0, t1, t2, t3),
        pack(t0, t1, t2, t3) <= 0xffff,
{
    t0.lemma_code();
    t1.lemma_code();
    t2.lemma_code();
    t3.lemma_code();
    lemma_code_at_join(t0.code(), t1.code(), t2.code(), t3.code());
}

/// A field of 16 significant bits whose four codes are all recognized is
/// what packing its four tags gives.
pub proof fn lemma_pack_unpack<T: Tag>(field: u32)
    requires
        field <= 0xffff,
        forall|slot: int| 0 <= slot < 4 ==> recognized::<T>(#[trigger] code_at(field, slot)),
    ensures
        ({
            let (t0, t1, t2, t3) = unpack::<T>(field);
            pack(t0, t1, t2, t3) == field
        }),
{
    assert(recognized::<T>(code_at(field, 0)));
    assert(recognized::<T>(code_at(field, 1)));
    assert(recognized::<T>(code_at(field, 2)));
    assert(recognized::<T>(code_at(field, 3)));
    lemma_join_code_at(field);
}

/// A code that belongs to no tag is read as the unused tag, and packing
/// what was unpacked then gives another field than the one that held it.
pub proof fn lemma_unrecognized_is_unused<T: Tag>(field: u32, slot: int)
    requires
        0 <= slot < 4,
        !recognized::<T>(code_at(field, slot)),
    ensures
        tag_at::<T>(field, slot) == T::unused(),
        ({
            let (t0, t1, t2, t3) = unpack::<T>(field);
            pack(t0, t1, t2, t3) != field
        }),
{
    let (t0, t1, t2, t3) = unpack::<T>(field);
    T::lemma_unused(code_at(field, slot));
    t0.lemma_code();
    t1.lemma_code();
    t2.lemma_code();
    t3.lemma_code();
    lemma_code_at_join(t0.code(), t1.code(), t2.code(), t3.code());
    assert(code_at(pack(t0, t1, t2, t3), slot) == 0);
    assert(code_at(field, slot) != 0);
}

/// What a field is read as depends on its low 16 bits alone.
pub proof fn lemma_unpack_low_bits<T: Tag>(field: u32)
    ensures
        unpack::<T>(field) == unpack::<T>(field & 0xffff),
{
    lemma_code_at_low_bits(field, 0);
    lemma_code_at_low_bits(field, 1);
    lemma_code_at_low_bits(field, 2);
    lemma_code_at_low_bits(field, 3);
}

/// Packs four tags into one field.
pub fn pack_tags<T: Tag>(t0: T, t1: T, t2: T, t3: T) -> (field: u32)
    ensures
        field == pack(t0, t1, t2, t3),
{
    join_codes(t0.to_code(), t1.to_code(), t2.to_code(), t3.to_code())
}

/// Reads the four tags of a packed field.  A code that belongs to no tag of
/// the set is read as the unused tag; bits above the low 16 are ignored.
pub fn unpack_tags<T: Tag>(field: u32) -> (tags: (T, T, T, T))
    ensures
        tags == unpack::<T>(field),
{
    let (c0, c1, c2, c3) = split_codes(field);
    (T::from_code(c0), T::from_code(c1), T::from_code(c2), T::from_code(c3))
}

} // verus!
