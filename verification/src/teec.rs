//! The client's side: typed parameters are made from values and buffers,
//! turned into raw slots for a call, and read back when it returns.

pub mod operation;
pub mod parameter;
pub mod raw;

pub use self::operation::Operation;
pub use self::parameter::{Param, ParamNone, ParamTmpRef, ParamType, ParamTypes, ParamValue};
