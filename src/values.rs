//! Literal values, as they appear in const generic arguments.
use vstd::prelude::*;

verus! {

/// A value of one of the machine integer types.
#[derive(Debug, Clone, Copy, PartialEq, Eq, Hash, Structural)]
pub enum ScalarValue {
    Isize(i64),
    I8(i8),
    I16(i16),
    I32(i32),
    I64(i64),
    I128(i128),
    Usize(u64),
    U8(u8),
    U16(u16),
    U32(u32),
    U64(u64),
    U128(u128),
}

/// A primitive value: an integer, a boolean or a character.
#[derive(Debug, Clone, Copy, PartialEq, Eq, Hash, Structural)]
pub enum Literal {
    Scalar(ScalarValue),
    Bool(bool),
    Char(char),
}

} // verus!
