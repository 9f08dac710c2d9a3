//! Parameter marshalling for calls between a client application and a
//! trusted application.
//!
//! A call carries up to four parameters.  Each occupies one raw slot, and a
//! 4-bit tag per slot, folded into one 32-bit field, says which shape of the
//! slot is meaningful: a pair of 32-bit values, a reference to a byte buffer,
//! or nothing.  [`teec`] is the client's side of that boundary, [`utee`] the
//! trusted application's; [`tag_field`] holds the arithmetic of the packed
//! field, which both share.

pub mod error;
pub mod tag_field;
pub mod teec;
pub mod utee;
