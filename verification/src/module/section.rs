use vstd::prelude::*;

use crate::error::DecodeError;
use crate::module::types::FuncType;
use crate::module::types::FuncTypeSpec;

verus! {

/// The closed set of section codes, one per byte value 0x00 through 0x0c in
/// declaration order. Only Type and Function are dispatched to a decoder;
/// any other code where a section is expected stops the scan.
#[derive(Debug, PartialEq, Eq, Structural, PartialOrd, Clone, Copy)]
pub enum SectionCode {
    Custom,
    Type,
    Import,
    Function,
    Table,
    Memory,
    Global,
    Export,
    Start,
    Element,
    Code,
    Data,
    DataCount,
}

/// The section code a byte stands for: codes run 0x00 (Custom) to 0x0c
/// (DataCount); every other byte is unrecognized.
pub open spec fn section_code_of(b: u8) -> Option<SectionCode> {
    match b {
        0x00 => Some(SectionCode::Custom),
        0x01 => Some(SectionCode::Type),
        0x02 => Some(SectionCode::Import),
        0x03 => Some(SectionCode::Function),
        0x04 => Some(SectionCode::Table),
        0x05 => Some(SectionCode::Memory),
        0x06 => Some(SectionCode::Global),
        0x07 => Some(SectionCode::Export),
        0x08 => Some(SectionCode::Start),
        0x09 => Some(SectionCode::Element),
        0x0a => Some(SectionCode::Code),
        0x0b => Some(SectionCode::Data),
        0x0c => Some(SectionCode::DataCount),
        _ => None,
    }
}

impl SectionCode {
    /// Fallible tag decoder: an unrecognized byte is a decode error carrying
    /// that byte, never a fault that aborts the process.
    pub fn try_from(value: u8) -> (r: Result<SectionCode, DecodeError>)
        ensures
            match section_code_of(value) {
                Some(c) => r == Ok::<SectionCode, DecodeError>(c),
                None => r == Err::<SectionCode, DecodeError>(
                    DecodeError::UnknownSectionCode { code: value },
                ),
            },
    {
        match value {
            0x00 => Ok(SectionCode::Custom),
            0x01 => Ok(SectionCode::Type),
            0x02 => Ok(SectionCode::Import),
            0x03 => Ok(SectionCode::Function),
            0x04 => Ok(SectionCode::Table),
            0x05 => Ok(SectionCode::Memory),
            0x06 => Ok(SectionCode::Global),
            0x07 => Ok(SectionCode::Export),
            0x08 => Ok(SectionCode::Start),
            0x09 => Ok(SectionCode::Element),
            0x0a => Ok(SectionCode::Code),
            0x0b => Ok(SectionCode::Data),
            0x0c => Ok(SectionCode::DataCount),
            _ => Err(DecodeError::UnknownSectionCode { code: value }),
        }
    }
}

/// The Type section: its code (always Type), the byte length the encoding
/// announced for its body (recorded for diagnostics, not cross-checked), and
/// the function types in declaration order.
#[derive(Debug, PartialEq)]
pub struct TypeSection {
    pub sec_code: SectionCode,
    pub sec_size: u64,
    pub func_types: Vec<FuncType>,
}

/// The mathematical shape of a Type section.
pub ghost struct TypeSectionSpec {
    pub sec_code: SectionCode,
    pub sec_size: u64,
    pub func_types: Seq<FuncTypeSpec>,
}

impl View for TypeSection {
    type V = TypeSectionSpec;

    open spec fn view(&self) -> TypeSectionSpec {
        TypeSectionSpec {
            sec_code: self.sec_code,
            sec_size: self.sec_size,
            func_types: self.func_types.deep_view(),
        }
    }
}

impl DeepView for TypeSection {
    type V = TypeSectionSpec;

    open spec fn deep_view(&self) -> TypeSectionSpec {
        self@
    }
}

/// The Function section: its code (always Function), the announced body
/// length, and one type index per declared function, in order. Indices point
/// into the sibling Type section's list and are not range-checked at decode
/// time: cross-section validation is a later, separate pass.
#[derive(Debug, PartialEq)]
pub struct FuncSection {
    pub sec_code: SectionCode,
    pub sec_size: u64,
    pub type_indices: Vec<u64>,
}

/// The mathematical shape of a Function section.
pub ghost struct FuncSectionSpec {
    pub sec_code: SectionCode,
    pub sec_size: u64,
    pub type_indices: Seq<u64>,
}

impl View for FuncSection {
    type V = FuncSectionSpec;

    open spec fn view(&self) -> FuncSectionSpec {
        FuncSectionSpec {
            sec_code: self.sec_code,
            sec_size: self.sec_size,
            type_indices: self.type_indices@,
        }
    }
}

impl DeepView for FuncSection {
    type V = FuncSectionSpec;

    open spec fn deep_view(&self) -> FuncSectionSpec {
        self@
    }
}

} // verus!
