use vstd::prelude::*;

use crate::error::DecodeError;

verus! {

/// A primitive numeric kind this decoder recognizes. The binary format has
/// more kinds; any byte outside this closed set is a decode error.
#[derive(Debug, PartialEq, Eq, Structural, Clone, Copy)]
pub enum ValueType {
    I32,
    I64,
}

/// The value type a single tag byte stands for: 0x7f is I32, 0x7e is I64,
/// every other byte is unrecognized.
pub open spec fn value_type_of(b: u8) -> Option<ValueType> {
    if b == 0x7f {
        Some(ValueType::I32)
    } else if b == 0x7e {
        Some(ValueType::I64)
    } else {
        None
    }
}

impl ValueType {
    /// Fallible tag decoder: an unrecognized byte is a decode error carrying
    /// that byte, never a fault that aborts the process.
    pub fn try_from(value: u8) -> (r: Result<ValueType, DecodeError>)
        ensures
            match value_type_of(value) {
                Some(vt) => r == Ok::<ValueType, DecodeError>(vt),
                None => r == Err::<ValueType, DecodeError>(
                    DecodeError::InvalidValueType { byte: value },
                ),
            },
    {
        match value {
            0x7f => Ok(ValueType::I32),
            0x7e => Ok(ValueType::I64),
            _ => Err(DecodeError::InvalidValueType { byte: value }),
        }
    }
}

/// An ordered pair of parameter and result type lists describing a function's
/// shape. Order is significant: arguments and returns are positional.
#[derive(Debug, PartialEq)]
pub struct FuncType {
    pub params: Vec<ValueType>,
    pub results: Vec<ValueType>,
}

/// The mathematical shape of a function type: its two ordered lists.
pub ghost struct FuncTypeSpec {
    pub params: Seq<ValueType>,
    pub results: Seq<ValueType>,
}

impl View for FuncType {
    type V = FuncTypeSpec;

    open spec fn view(&self) -> FuncTypeSpec {
        FuncTypeSpec { params: self.params@, results: self.results@ }
    }
}

impl DeepView for FuncType {
    type V = FuncTypeSpec;

    open spec fn deep_view(&self) -> FuncTypeSpec {
        self@
    }
}

} // verus!
