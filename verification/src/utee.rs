//! The trusted application's side: the slots of a call arrive from the
//! caller with their packed tags, and are read and written in place.

pub mod parameter;
pub mod raw;

pub use self::parameter::{
    DifferentParameter, DifferentParameters, ParamMemref, ParamType, ParamTypes, ParamValue,
    Parameter, Parameters,
};
