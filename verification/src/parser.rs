use vstd::prelude::*;
use vstd::slice::slice_subrange;
use vstd::utf8::decode_utf8;
use vstd::utf8::valid_utf8;

use crate::error::DecodeError;
use crate::module::parser::utf8_from;
use crate::varint::leb128_read;
use crate::varint::leb128_u64;
use crate::Module;

verus! {

/// The outcome of the preamble-only decode: the 4 magic bytes as text, and a
/// version read as an unsigned LEB128 integer confined to bytes 4..8. This
/// older entry point predates the section-aware decoder and reads nothing
/// past the preamble.
pub open spec fn spec_parse(s: Seq<u8>) -> Result<(Seq<char>, u32), DecodeError> {
    if s.len() < 8 {
        Err(DecodeError::TooShort { found: s.len() as usize })
    } else if !valid_utf8(s.subrange(0, 4)) {
        Err(DecodeError::InvalidMagic)
    } else {
        match leb128_u64(s.subrange(4, 8)) {
            Some((v, n)) => Ok((decode_utf8(s.subrange(0, 4)), v as u32)),
            None => Err(DecodeError::InvalidVarint { offset: 4 }),
        }
    }
}

/// A whole-buffer parser that decodes only the preamble: magic text and
/// version. It holds the bytes of one file together with the path they came
/// from; reading the file into memory is its caller's concern.
pub struct Parser {
    file: String,
    file_contents: Vec<u8>,
    curr_pos: usize,
}

impl Parser {
    /// The buffer this parser reads.
    pub closed spec fn spec_contents(&self) -> Seq<u8> {
        self.file_contents@
    }

    /// The path label it carries for diagnostics.
    pub closed spec fn spec_file(&self) -> Seq<char> {
        self.file@
    }

    /// Build a parser over `contents`, labelled with the path `file` they
    /// were read from.
    pub fn new(file: &str, contents: Vec<u8>) -> (p: Parser)
        ensures
            p.spec_contents() == contents@,
            p.spec_file() == file@,
    {
        Parser { file: file.to_owned(), file_contents: contents, curr_pos: 0 }
    }

    /// Decode the preamble: fails with TooShort under 8 bytes, then reads the
    /// magic text and the LEB128 version confined to bytes 4..8.
    pub fn parse(&self) -> (r: Result<Module, DecodeError>)
        ensures
            match r {
                Ok(m) => spec_parse(self.spec_contents()) == Ok::<(Seq<char>, u32), DecodeError>(
                    (m.magic_number@, m.version),
                ),
                Err(e) => spec_parse(self.spec_contents()) == Err::<(Seq<char>, u32), DecodeError>(
                    e,
                ),
            },
    {
        if self.file_contents.len() < 8 {
            return Err(DecodeError::TooShort { found: self.file_contents.len() });
        }
        let magic_bytes = slice_subrange(self.file_contents.as_slice(), 0, 4);
        let magic_number = match utf8_from(magic_bytes) {
            None => { return Err(DecodeError::InvalidMagic); },
            Some(m) => m.to_owned(),
        };
        let version = match leb128_read(&self.file_contents, 4, 8) {
            Err(_) => { return Err(DecodeError::InvalidVarint { offset: 4 }); },
            Ok((v, _rest)) => v as u32,
        };
        Ok(Module { magic_number, version })
    }
}

} // verus!
