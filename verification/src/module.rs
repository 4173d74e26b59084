use vstd::prelude::*;

pub mod parser;
pub mod section;
pub mod types;

use crate::error::DecodeError;
use crate::module::section::FuncSectionSpec;
use crate::module::section::TypeSectionSpec;

verus! {

/// The decoded structural representation of one binary input: the magic tag
/// as text, the version, and the recognized sections, each absent when the
/// scan never reached one. Constructed once, atomically, as the final decode
/// step; immutable thereafter.
#[derive(Debug)]
pub struct Module {
    pub magic_number: String,
    pub version: u32,
    pub type_section: Option<section::TypeSection>,
    pub func_section: Option<section::FuncSection>,
}

/// The mathematical shape of a decoded module.
pub ghost struct ModuleSpec {
    pub magic_number: Seq<char>,
    pub version: u32,
    pub type_section: Option<TypeSectionSpec>,
    pub func_section: Option<FuncSectionSpec>,
}

impl View for Module {
    type V = ModuleSpec;

    open spec fn view(&self) -> ModuleSpec {
        ModuleSpec {
            magic_number: self.magic_number@,
            version: self.version,
            type_section: self.type_section.deep_view(),
            func_section: self.func_section.deep_view(),
        }
    }
}

impl Module {
    /// Decode one in-memory byte buffer into a module: the sole entry point.
    /// `binary` is an opaque diagnostic tag (a file name, or "#raw"), not
    /// interpreted. The result is exactly what `spec_module` says of the
    /// bytes: the first structural fault anywhere is returned as is, and no
    /// partial module is ever produced.
    pub fn decode_raw_bytes(binary: &str, bytes: &[u8]) -> (r: Result<Module, DecodeError>)
        ensures
            match r {
                Ok(m) => parser::spec_module(bytes@) == Ok::<ModuleSpec, DecodeError>(m@),
                Err(e) => parser::spec_module(bytes@) == Err::<ModuleSpec, DecodeError>(e),
            },
    {
        let mut parser = parser::Parser::new(binary, bytes);
        parser.parse()
    }
}

} // verus!
