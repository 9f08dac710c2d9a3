//! The operation of a call: four typed parameters gathered into raw slots
//! with their packed tags, and scattered into typed parameters again.

use crate::tag_field::{lemma_unpack_pack, pack, tag_at};
use crate::teec::parameter::{Param, ParamTypes};
use crate::teec::raw::{TEEC_Operation, TEEC_Parameter};
use vstd::prelude::*;

verus! {

/// An operation that is ready to cross the boundary.
pub struct Operation<'a> {
    pub raw: TEEC_Operation<'a>,
}

impl<'a> Operation<'a> {
    /// The operation is what gathering the four parameters gives: its tag
    /// field packs their tags, and slot `i` holds what the raw slot of
    /// parameter `i` holds.
    pub open spec fn gathers<A: Param<'a>, B: Param<'a>, C: Param<'a>, D: Param<'a>>(
        self,
        p0: A,
        p1: B,
        p2: C,
        p3: D,
    ) -> bool {
        &&& self.raw.param_types == pack(p0.tag(), p1.tag(), p2.tag(), p3.tag())
        &&& self.raw.params[0]@ == p0.slot()
        &&& self.raw.params[1]@ == p1.slot()
        &&& self.raw.params[2]@ == p2.slot()
        &&& self.raw.params[3]@ == p3.slot()
    }

    /// The four parameters are what scattering the operation gives:
    /// parameter `i` is made from slot `i` and the tag that the field holds
    /// for it.
    pub open spec fn scatters<A: Param<'a>, B: Param<'a>, C: Param<'a>, D: Param<'a>>(
        self,
        q0: A,
        q1: B,
        q2: C,
        q3: D,
    ) -> bool {
        &&& q0.made_from(self.raw.params[0]@, tag_at(self.raw.param_types, 0))
        &&& q1.made_from(self.raw.params[1]@, tag_at(self.raw.param_types, 1))
        &&& q2.made_from(self.raw.params[2]@, tag_at(self.raw.param_types, 2))
        &&& q3.made_from(self.raw.params[3]@, tag_at(self.raw.param_types, 3))
    }

    /// Gathers four parameters into an operation.  Every slot is filled: one
    /// that is not used is given as [`crate::teec::parameter::ParamNone`],
    /// which leaves it zero under the unused tag.  The operation belongs to
    /// no session yet.
    pub fn new<A: Param<'a>, B: Param<'a>, C: Param<'a>, D: Param<'a>>(
        started: u32,
        p0: &'a mut A,
        p1: &'a mut B,
        p2: &'a mut C,
        p3: &'a mut D,
    ) -> (operation: Self)
        ensures
            operation.raw.started == started,
            operation.raw.session == 0,
            operation.gathers(*old(p0), *old(p1), *old(p2), *old(p3)),
    {
        let param_types: u32 = ParamTypes::new(
            p0.param_type(),
            p1.param_type(),
            p2.param_type(),
            p3.param_type(),
        ).into();
        let params = [p0.into_raw(), p1.into_raw(), p2.into_raw(), p3.into_raw()];
        Operation { raw: TEEC_Operation { started, param_types, params, session: 0 } }
    }

    /// Scatters the operation into four typed parameters.  The tag field is
    /// unpacked once, and each parameter is made from its own slot and tag.
    pub fn parameters<A: Param<'a>, B: Param<'a>, C: Param<'a>, D: Param<'a>>(self) -> (parameters:
        (A, B, C, D))
        ensures
            self.scatters(parameters.0, parameters.1, parameters.2, parameters.3),
    {
        let (f0, f1, f2, f3) = ParamTypes::from(self.raw.param_types).into_flags();
        let mut params = self.raw.params;
        let mut r0: TEEC_Parameter<'a> = TEEC_Parameter::zeroed();
        let mut r1: TEEC_Parameter<'a> = TEEC_Parameter::zeroed();
        let mut r2: TEEC_Parameter<'a> = TEEC_Parameter::zeroed();
        let mut r3: TEEC_Parameter<'a> = TEEC_Parameter::zeroed();
        core::mem::swap(&mut r0, &mut params[0]);
        core::mem::swap(&mut r1, &mut params[1]);
        core::mem::swap(&mut r2, &mut params[2]);
        core::mem::swap(&mut r3, &mut params[3]);
        (A::from_raw(r0, f0), B::from_raw(r1, f1), C::from_raw(r2, f2), D::from_raw(r3, f3))
    }

    /// Scattering undoes gathering: the parameters that an operation is
    /// scattered into have the slots and the tags of those that it was
    /// gathered from.
    pub proof fn lemma_scatter_of_gather<A: Param<'a>, B: Param<'a>, C: Param<'a>, D: Param<'a>>(
        self,
        p0: A,
        p1: B,
        p2: C,
        p3: D,
        q0: A,
        q1: B,
        q2: C,
        q3: D,
    )
        requires
            self.gathers(p0, p1, p2, p3),
            self.scatters(q0, q1, q2, q3),
        ensures
            q0.slot() == p0.slot() && q0.tag() == p0.tag(),
            q1.slot() == p1.slot() && q1.tag() == p1.tag(),
            q2.slot() == p2.slot() && q2.tag() == p2.tag(),
            q3.slot() == p3.slot() && q3.tag() == p3.tag(),
    {
        lemma_unpack_pack(p0.tag(), p1.tag(), p2.tag(), p3.tag());
        q0.lemma_made_from_own(&p0);
        q1.lemma_made_from_own(&p1);
        q2.lemma_made_from_own(&p2);
        q3.lemma_made_from_own(&p3);
    }
}

} // verus!
