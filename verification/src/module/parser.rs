use vstd::prelude::*;
use vstd::slice::slice_subrange;
use vstd::slice::slice_to_vec;
use vstd::utf8::decode_utf8;
use vstd::utf8::valid_utf8;

use crate::error::DecodeError;
use crate::module::section::section_code_of;
use crate::module::section::FuncSection;
use crate::module::section::FuncSectionSpec;
use crate::module::section::SectionCode;
use crate::module::section::TypeSection;
use crate::module::section::TypeSectionSpec;
use crate::module::types::value_type_of;
use crate::module::types::FuncType;
use crate::module::types::FuncTypeSpec;
use crate::module::types::ValueType;
use crate::module::Module;
use crate::module::ModuleSpec;
use crate::varint::leb128_read;
use crate::varint::leb128_u64;

verus! {

/// Reading an unsigned LEB128 integer at byte offset `pos` of `s`: the value
/// and the offset just past its last byte.
pub open spec fn spec_varint(s: Seq<u8>, pos: int) -> Result<(u64, int), DecodeError> {
    match leb128_u64(s.skip(pos)) {
        Some((v, n)) => Ok((v as u64, pos + n)),
        None => Err(DecodeError::InvalidVarint { offset: pos as usize }),
    }
}

/// Reading four bytes as a little-endian unsigned 32-bit integer.
pub open spec fn u32_le(s: Seq<u8>) -> u32
    recommends
        s.len() == 4,
{
    (s[0] + s[1] * 0x100 + s[2] * 0x10000 + s[3] * 0x1000000) as u32
}

/// The fixed 8-byte preamble: 4 bytes of magic text (any valid text is
/// accepted at this layer; matching "\0asm" is the caller's policy), then a
/// little-endian 32-bit version. Fails with TooShort when fewer than 8 bytes
/// exist at all, before attempting either sub-read.
pub open spec fn spec_preamble(s: Seq<u8>) -> Result<(Seq<char>, u32), DecodeError> {
    if s.len() < 8 {
        Err(DecodeError::TooShort { found: s.len() as usize })
    } else if !valid_utf8(s.subrange(0, 4)) {
        Err(DecodeError::InvalidMagic)
    } else {
        Ok((decode_utf8(s.subrange(0, 4)), u32_le(s.subrange(4, 8))))
    }
}

/// Reading `n` value-type tag bytes from offset `pos`, in order.
pub open spec fn spec_value_types(s: Seq<u8>, pos: int, n: nat) -> Result<
    (Seq<ValueType>, int),
    DecodeError,
>
    decreases n,
{
    if n == 0 {
        Ok((Seq::empty(), pos))
    } else if pos >= s.len() {
        Err(DecodeError::UnexpectedEof { offset: pos as usize })
    } else {
        match value_type_of(s[pos]) {
            None => Err(DecodeError::InvalidValueType { byte: s[pos] }),
            Some(vt) => match spec_value_types(s, pos + 1, (n - 1) as nat) {
                Ok((rest, end)) => Ok((seq![vt] + rest, end)),
                Err(e) => Err(e),
            },
        }
    }
}

/// Reading one function-type record at `pos`: the required 0x60 marker, a
/// count-prefixed parameter list, then a count-prefixed result list.
pub open spec fn spec_func_type(s: Seq<u8>, pos: int) -> Result<(FuncTypeSpec, int), DecodeError> {
    if pos >= s.len() {
        Err(DecodeError::UnexpectedEof { offset: pos as usize })
    } else if s[pos] != 0x60 {
        Err(DecodeError::InvalidTypeMarker { byte: s[pos], offset: pos as usize })
    } else {
        match spec_varint(s, pos + 1) {
            Err(e) => Err(e),
            Ok((nparams, p1)) => match spec_value_types(s, p1, nparams as nat) {
                Err(e) => Err(e),
                Ok((params, p2)) => match spec_varint(s, p2) {
                    Err(e) => Err(e),
                    Ok((nresults, p3)) => match spec_value_types(s, p3, nresults as nat) {
                        Err(e) => Err(e),
                        Ok((results, p4)) => Ok((FuncTypeSpec { params, results }, p4)),
                    },
                },
            },
        }
    }
}

/// Reading `n` function-type records from `pos`, in order.
pub open spec fn spec_func_types(s: Seq<u8>, pos: int, n: nat) -> Result<
    (Seq<FuncTypeSpec>, int),
    DecodeError,
>
    decreases n,
{
    if n == 0 {
        Ok((Seq::empty(), pos))
    } else {
        match spec_func_type(s, pos) {
            Err(e) => Err(e),
            Ok((ft, p1)) => match spec_func_types(s, p1, (n - 1) as nat) {
                Err(e) => Err(e),
                Ok((rest, end)) => Ok((seq![ft] + rest, end)),
            },
        }
    }
}

/// Reading `n` varint type indices from `pos`, in order.
pub open spec fn spec_type_indices(s: Seq<u8>, pos: int, n: nat) -> Result<
    (Seq<u64>, int),
    DecodeError,
>
    decreases n,
{
    if n == 0 {
        Ok((Seq::empty(), pos))
    } else {
        match spec_varint(s, pos) {
            Err(e) => Err(e),
            Ok((v, p1)) => match spec_type_indices(s, p1, (n - 1) as nat) {
                Err(e) => Err(e),
                Ok((rest, end)) => Ok((seq![v] + rest, end)),
            },
        }
    }
}

/// The Type section at `pos`, if one starts there. Scanning yields "absent"
/// (not an error) at the end of the buffer, at a byte that is no section
/// code, and at any section code other than Type: this decoder stops rather
/// than skips.
pub open spec fn spec_type_section(s: Seq<u8>, pos: int) -> Result<
    (Option<TypeSectionSpec>, int),
    DecodeError,
> {
    if pos >= s.len() {
        Ok((None, pos))
    } else {
        match section_code_of(s[pos]) {
            Some(SectionCode::Type) => match spec_varint(s, pos + 1) {
                Err(e) => Err(e),
                Ok((sec_size, p1)) => match spec_varint(s, p1) {
                    Err(e) => Err(e),
                    Ok((ntypes, p2)) => match spec_func_types(s, p2, ntypes as nat) {
                        Err(e) => Err(e),
                        Ok((fts, p3)) => Ok(
                            (
                                Some(
                                    TypeSectionSpec {
                                        sec_code: SectionCode::Type,
                                        sec_size,
                                        func_types: fts,
                                    },
                                ),
                                p3,
                            ),
                        ),
                    },
                },
            },
            _ => Ok((None, pos)),
        }
    }
}

/// The Function section at `pos`, if one starts there; "absent" otherwise,
/// under the same stopping rule as the Type section.
pub open spec fn spec_func_section(s: Seq<u8>, pos: int) -> Result<
    (Option<FuncSectionSpec>, int),
    DecodeError,
> {
    if pos >= s.len() {
        Ok((None, pos))
    } else {
        match section_code_of(s[pos]) {
            Some(SectionCode::Function) => match spec_varint(s, pos + 1) {
                Err(e) => Err(e),
                Ok((sec_size, p1)) => match spec_varint(s, p1) {
                    Err(e) => Err(e),
                    Ok((nfuncs, p2)) => match spec_type_indices(s, p2, nfuncs as nat) {
                        Err(e) => Err(e),
                        Ok((idxs, p3)) => Ok(
                            (
                                Some(
                                    FuncSectionSpec {
                                        sec_code: SectionCode::Function,
                                        sec_size,
                                        type_indices: idxs,
                                    },
                                ),
                                p3,
                            ),
                        ),
                    },
                },
            },
            _ => Ok((None, pos)),
        }
    }
}

/// The whole decode: the preamble, then an optional Type section, then an
/// optional Function section. Scanning stops at the first code it does not
/// dispatch; whatever follows is left unread, and absence is not failure.
pub open spec fn spec_module(s: Seq<u8>) -> Result<ModuleSpec, DecodeError> {
    match spec_preamble(s) {
        Err(e) => Err(e),
        Ok((magic, version)) => match spec_type_section(s, 8) {
            Err(e) => Err(e),
            Ok((ts, p1)) => match spec_func_section(s, p1) {
                Err(e) => Err(e),
                Ok((fs, p2)) => Ok(
                    ModuleSpec {
                        magic_number: magic,
                        version,
                        type_section: ts,
                        func_section: fs,
                    },
                ),
            },
        },
    }
}

/// The position where scanning stops on a successful decode: just past the
/// last dispatched section, which is the offset of the first undispatched
/// section code if any bytes remain there. Everything from that offset on is
/// left unconsumed.
pub open spec fn spec_scan_end(s: Seq<u8>) -> int
    recommends
        spec_module(s) is Ok,
{
    match spec_type_section(s, 8) {
        Err(_) => 8,
        Ok((ts, p1)) => match spec_func_section(s, p1) {
            Err(_) => p1,
            Ok((fs, p2)) => p2,
        },
    }
}

/// Relies on std::str::from_utf8: it succeeds exactly on valid UTF-8 input
/// and yields the text those bytes encode.
#[verifier::external_body]
pub(crate) fn utf8_from(b: &[u8]) -> (r: Option<&str>)
    ensures
        r is Some <==> valid_utf8(b@),
        r matches Some(m) ==> m@ == decode_utf8(b@),
{
    match std::str::from_utf8(b) {
        Ok(s) => Some(s),
        Err(_) => None,
    }
}

/// The byte-cursor decoder: owns an immutable byte buffer and a monotonically
/// advancing read position, and exposes bounded primitive reads. The position
/// never moves backward or past the end. One parser is exclusively owned by
/// one decode call.
pub struct Parser {
    binary: String,
    bytes: Vec<u8>,
    curr_pos: usize,
    nbytes: usize,
}

impl Parser {
    /// The cursor is well-formed: the recorded length is the buffer's own,
    /// and the position never passes the end.
    pub closed spec fn wf(&self) -> bool {
        self.nbytes == self.bytes@.len() && self.curr_pos <= self.nbytes
    }

    /// The buffer being decoded.
    pub closed spec fn spec_bytes(&self) -> Seq<u8> {
        self.bytes@
    }

    /// The current read position.
    pub closed spec fn spec_pos(&self) -> int {
        self.curr_pos as int
    }

    /// The opaque diagnostic label this parser carries.
    pub closed spec fn spec_binary(&self) -> Seq<char> {
        self.binary@
    }

    /// A decode step leaves the buffer and the label untouched.
    pub closed spec fn same_source(&self, other: &Parser) -> bool {
        self.bytes@ == other.bytes@ && self.binary@ == other.binary@
    }

    /// Build a cursor over a copy of `bytes`, labelled `binary`, at position 0.
    pub fn new(binary: &str, bytes: &[u8]) -> (p: Parser)
        ensures
            p.wf(),
            p.spec_bytes() == bytes@,
            p.spec_pos() == 0,
            p.spec_binary() == binary@,
    {
        Parser {
            binary: binary.to_owned(),
            bytes: slice_to_vec(bytes),
            curr_pos: 0,
            nbytes: bytes.len(),
        }
    }

    /// Pure query: the byte offset the cursor has reached.
    pub fn position(&self) -> (r: usize)
        ensures
            r as int == self.spec_pos(),
    {
        self.curr_pos
    }

    /// Pure query: how many bytes are left to read.
    pub fn remaining(&self) -> (r: usize)
        requires
            self.wf(),
        ensures
            r as int == self.spec_bytes().len() - self.spec_pos(),
    {
        self.nbytes - self.curr_pos
    }

    /// Run the whole decode: preamble, optional Type section, optional
    /// Function section. The first failure anywhere is returned verbatim; no
    /// partial module is ever produced. On success the cursor stands exactly
    /// where scanning stopped, so bytes from the first undispatched section
    /// code onward are left unconsumed.
    pub fn parse(&mut self) -> (r: Result<Module, DecodeError>)
        requires
            old(self).wf(),
            old(self).spec_pos() == 0,
        ensures
            final(self).wf(),
            final(self).same_source(old(self)),
            match r {
                Ok(m) => spec_module(old(self).spec_bytes()) == Ok::<ModuleSpec, DecodeError>(m@)
                    && final(self).spec_pos() == spec_scan_end(old(self).spec_bytes()),
                Err(e) => spec_module(old(self).spec_bytes()) == Err::<ModuleSpec, DecodeError>(e),
            },
    {
        let (magic_number, version) = match self.parse_preamble() {
            Err(e) => { return Err(e); },
            Ok(v) => v,
        };
        let type_section = match self.parse_type_section() {
            Err(e) => { return Err(e); },
            Ok(v) => v,
        };
        let func_section = match self.parse_func_section() {
            Err(e) => { return Err(e); },
            Ok(v) => v,
        };
        Ok(Module { magic_number, version, type_section, func_section })
    }

    /// Decode the fixed 8-byte preamble: the 4 magic bytes as text, then the
    /// little-endian 32-bit version.
    fn parse_preamble(&mut self) -> (r: Result<(String, u32), DecodeError>)
        requires
            old(self).wf(),
            old(self).spec_pos() == 0,
        ensures
            final(self).wf(),
            final(self).same_source(old(self)),
            match r {
                Ok(mv) => spec_preamble(old(self).spec_bytes()) == Ok::<
                    (Seq<char>, u32),
                    DecodeError,
                >((mv.0@, mv.1)) && final(self).spec_pos() == 8,
                Err(e) => spec_preamble(old(self).spec_bytes()) == Err::<
                    (Seq<char>, u32),
                    DecodeError,
                >(e) && final(self).spec_pos() == old(self).spec_pos(),
            },
    {
        if self.nbytes < 8 {
            return Err(DecodeError::TooShort { found: self.nbytes });
        }
        let magic_bytes = slice_subrange(self.bytes.as_slice(), 0, 4);
        let magic_number = match utf8_from(magic_bytes) {
            None => { return Err(DecodeError::InvalidMagic); },
            Some(m) => m.to_owned(),
        };
        self.curr_pos = 4;
        let version = match self.parse_u32() {
            Err(e) => { return Err(e); },
            Ok(v) => v,
        };
        Ok((magic_number, version))
    }

    /// Read 4 bytes as a little-endian unsigned 32-bit integer and advance
    /// by 4; fail with UnexpectedEof when fewer than 4 bytes remain.
    fn parse_u32(&mut self) -> (r: Result<u32, DecodeError>)
        requires
            old(self).wf(),
        ensures
            final(self).wf(),
            final(self).same_source(old(self)),
            if old(self).spec_pos() + 4 <= old(self).spec_bytes().len() {
                r == Ok::<u32, DecodeError>(
                    u32_le(
                        old(self).spec_bytes().subrange(
                            old(self).spec_pos(),
                            old(self).spec_pos() + 4,
                        ),
                    ),
                ) && final(self).spec_pos() == old(self).spec_pos() + 4
            } else {
                r == Err::<u32, DecodeError>(
                    DecodeError::UnexpectedEof { offset: old(self).spec_pos() as usize },
                ) && final(self).spec_pos() == old(self).spec_pos()
            },
    {
        if self.nbytes - self.curr_pos < 4 {
            return Err(DecodeError::UnexpectedEof { offset: self.curr_pos });
        }
        let b0 = self.bytes[self.curr_pos] as u32;
        let b1 = self.bytes[self.curr_pos + 1] as u32;
        let b2 = self.bytes[self.curr_pos + 2] as u32;
        let b3 = self.bytes[self.curr_pos + 3] as u32;
        self.curr_pos = self.curr_pos + 4;
        Ok(b0 + b1 * 0x100 + b2 * 0x10000 + b3 * 0x1000000)
    }

    /// Decode an unsigned LEB128 integer at the cursor and advance by exactly
    /// the number of bytes consumed — encodings vary in length per value.
    pub fn parse_leb128_unsigned(&mut self) -> (r: Result<u64, DecodeError>)
        requires
            old(self).wf(),
        ensures
            final(self).wf(),
            final(self).same_source(old(self)),
            match r {
                Ok(v) => spec_varint(old(self).spec_bytes(), old(self).spec_pos()) == Ok::<
                    (u64, int),
                    DecodeError,
                >((v, final(self).spec_pos())),
                Err(e) => spec_varint(old(self).spec_bytes(), old(self).spec_pos()) == Err::<
                    (u64, int),
                    DecodeError,
                >(e) && final(self).spec_pos() == old(self).spec_pos(),
            },
    {
        proof {
            assert(self.bytes@.subrange(self.spec_pos(), self.bytes@.len() as int) =~= self.bytes@.skip(
                self.spec_pos(),
            ));
        }
        match leb128_read(&self.bytes, self.curr_pos, self.nbytes) {
            Err(_) => Err(DecodeError::InvalidVarint { offset: self.curr_pos }),
            Ok((v, rest)) => {
                let consumed = self.nbytes - self.curr_pos - rest;
                self.curr_pos = self.curr_pos + consumed;
                Ok(v)
            },
        }
    }

    /// Read `ntypes` value-type tag bytes, in order.
    #[verifier::loop_isolation(false)]
    fn parse_value_types(&mut self, ntypes: u64) -> (r: Result<Vec<ValueType>, DecodeError>)
        requires
            old(self).wf(),
        ensures
            final(self).wf(),
            final(self).same_source(old(self)),
            match r {
                Ok(vts) => spec_value_types(
                    old(self).spec_bytes(),
                    old(self).spec_pos(),
                    ntypes as nat,
                ) == Ok::<(Seq<ValueType>, int), DecodeError>((vts@, final(self).spec_pos())),
                Err(e) => spec_value_types(
                    old(self).spec_bytes(),
                    old(self).spec_pos(),
                    ntypes as nat,
                ) == Err::<(Seq<ValueType>, int), DecodeError>(e),
            },
    {
        let ghost s = self.bytes@;
        let ghost lbl = self.binary@;
        let ghost p0 = self.spec_pos();
        let mut value_types: Vec<ValueType> = Vec::new();
        let mut i: u64 = 0;
        while i < ntypes
            invariant
                self.wf(),
                self.bytes@ == s,
                self.binary@ == lbl,
                i <= ntypes,
                value_types@.len() == i as int,
                spec_value_types(s, p0, ntypes as nat) == (match spec_value_types(
                    s,
                    self.spec_pos(),
                    (ntypes - i) as nat,
                ) {
                    Ok(rp) => Ok::<(Seq<ValueType>, int), DecodeError>((value_types@ + rp.0, rp.1)),
                    Err(e) => Err::<(Seq<ValueType>, int), DecodeError>(e),
                }),
            decreases ntypes - i,
        {
            if self.curr_pos >= self.nbytes {
                return Err(DecodeError::UnexpectedEof { offset: self.curr_pos });
            }
            let b = self.bytes[self.curr_pos];
            let vt = match ValueType::try_from(b) {
                Err(e) => { return Err(e); },
                Ok(vt) => vt,
            };
            let ghost prev = value_types@;
            value_types.push(vt);
            self.curr_pos = self.curr_pos + 1;
            i = i + 1;
            proof {
                assert(value_types@ =~= prev + seq![vt]);
                let tail = spec_value_types(s, self.spec_pos(), (ntypes - i) as nat);
                if tail is Ok {
                    vstd::seq_lib::lemma_concat_associative(prev, seq![vt], tail->Ok_0.0);
                }
            }
        }
        proof {
            assert(value_types@ + Seq::<ValueType>::empty() =~= value_types@);
        }
        Ok(value_types)
    }

    /// Decode one function-type record: the 0x60 marker, the parameter list,
    /// then the result list. Fails fast on the first invalid byte; no record
    /// is ever partially built.
    fn parse_func_type(&mut self) -> (r: Result<FuncType, DecodeError>)
        requires
            old(self).wf(),
        ensures
            final(self).wf(),
            final(self).same_source(old(self)),
            match r {
                Ok(ft) => spec_func_type(old(self).spec_bytes(), old(self).spec_pos()) == Ok::<
                    (FuncTypeSpec, int),
                    DecodeError,
                >((ft@, final(self).spec_pos())),
                Err(e) => spec_func_type(old(self).spec_bytes(), old(self).spec_pos()) == Err::<
                    (FuncTypeSpec, int),
                    DecodeError,
                >(e),
            },
            r is Err && (old(self).spec_pos() >= old(self).spec_bytes().len() || old(
                self,
            ).spec_bytes()[old(self).spec_pos()] != 0x60) ==> final(self).spec_pos() == old(
                self,
            ).spec_pos(),
    {
        if self.curr_pos >= self.nbytes {
            return Err(DecodeError::UnexpectedEof { offset: self.curr_pos });
        }
        let func_byte = self.bytes[self.curr_pos];
        if func_byte != 0x60 {
            return Err(DecodeError::InvalidTypeMarker { byte: func_byte, offset: self.curr_pos });
        }
        self.curr_pos = self.curr_pos + 1;
        let nparams = match self.parse_leb128_unsigned() {
            Err(e) => { return Err(e); },
            Ok(v) => v,
        };
        let params = match self.parse_value_types(nparams) {
            Err(e) => { return Err(e); },
            Ok(v) => v,
        };
        let nresults = match self.parse_leb128_unsigned() {
            Err(e) => { return Err(e); },
            Ok(v) => v,
        };
        let results = match self.parse_value_types(nresults) {
            Err(e) => { return Err(e); },
            Ok(v) => v,
        };
        Ok(FuncType { params, results })
    }

    /// Read `ntypes` function-type records, in order.
    #[verifier::loop_isolation(false)]
    fn parse_func_types(&mut self, ntypes: u64) -> (r: Result<Vec<FuncType>, DecodeError>)
        requires
            old(self).wf(),
        ensures
            final(self).wf(),
            final(self).same_source(old(self)),
            match r {
                Ok(fts) => spec_func_types(
                    old(self).spec_bytes(),
                    old(self).spec_pos(),
                    ntypes as nat,
                ) == Ok::<(Seq<FuncTypeSpec>, int), DecodeError>((fts.deep_view(), final(self).spec_pos())),
                Err(e) => spec_func_types(
                    old(self).spec_bytes(),
                    old(self).spec_pos(),
                    ntypes as nat,
                ) == Err::<(Seq<FuncTypeSpec>, int), DecodeError>(e),
            },
    {
        let ghost s = self.bytes@;
        let ghost lbl = self.binary@;
        let ghost p0 = self.spec_pos();
        let mut func_types: Vec<FuncType> = Vec::new();
        let mut i: u64 = 0;
        while i < ntypes
            invariant
                self.wf(),
                self.bytes@ == s,
                self.binary@ == lbl,
                i <= ntypes,
                func_types.deep_view().len() == i as int,
                spec_func_types(s, p0, ntypes as nat) == (match spec_func_types(
                    s,
                    self.spec_pos(),
                    (ntypes - i) as nat,
                ) {
                    Ok(rp) => Ok::<(Seq<FuncTypeSpec>, int), DecodeError>(
                        (func_types.deep_view() + rp.0, rp.1),
                    ),
                    Err(e) => Err::<(Seq<FuncTypeSpec>, int), DecodeError>(e),
                }),
            decreases ntypes - i,
        {
            let ft = match self.parse_func_type() {
                Err(e) => { return Err(e); },
                Ok(v) => v,
            };
            let ghost prev = func_types.deep_view();
            func_types.push(ft);
            i = i + 1;
            proof {
                assert(func_types.deep_view() =~= prev + seq![ft@]);
                let tail = spec_func_types(s, self.spec_pos(), (ntypes - i) as nat);
                if tail is Ok {
                    vstd::seq_lib::lemma_concat_associative(prev, seq![ft@], tail->Ok_0.0);
                }
            }
        }
        proof {
            assert(func_types.deep_view() + Seq::<FuncTypeSpec>::empty() =~= func_types.deep_view());
        }
        Ok(func_types)
    }

    /// Decode the Type section if the cursor sits at one; "absent" (not an
    /// error) when it sits at the end of the buffer or at any other code, so
    /// the orchestrator can try the next kind or stop.
    pub fn parse_type_section(&mut self) -> (r: Result<Option<TypeSection>, DecodeError>)
        requires
            old(self).wf(),
        ensures
            final(self).wf(),
            final(self).same_source(old(self)),
            match r {
                Ok(opt) => spec_type_section(old(self).spec_bytes(), old(self).spec_pos()) == Ok::<
                    (Option<TypeSectionSpec>, int),
                    DecodeError,
                >((opt.deep_view(), final(self).spec_pos())),
                Err(e) => spec_type_section(old(self).spec_bytes(), old(self).spec_pos()) == Err::<
                    (Option<TypeSectionSpec>, int),
                    DecodeError,
                >(e),
            },
    {
        if self.curr_pos >= self.nbytes {
            return Ok(None);
        }
        let code_byte = self.bytes[self.curr_pos];
        let sec_code = match SectionCode::try_from(code_byte) {
            Ok(SectionCode::Type) => SectionCode::Type,
            _ => { return Ok(None); },
        };
        self.curr_pos = self.curr_pos + 1;
        let sec_size = match self.parse_leb128_unsigned() {
            Err(e) => { return Err(e); },
            Ok(v) => v,
        };
        let ntypes = match self.parse_leb128_unsigned() {
            Err(e) => { return Err(e); },
            Ok(v) => v,
        };
        let func_types = match self.parse_func_types(ntypes) {
            Err(e) => { return Err(e); },
            Ok(v) => v,
        };
        Ok(Some(TypeSection { sec_code, sec_size, func_types }))
    }

    /// Decode the Function section if the cursor sits at one; "absent" (not
    /// an error) otherwise, under the same stopping rule as the Type section.
    #[verifier::loop_isolation(false)]
    fn parse_func_section(&mut self) -> (r: Result<Option<FuncSection>, DecodeError>)
        requires
            old(self).wf(),
        ensures
            final(self).wf(),
            final(self).same_source(old(self)),
            match r {
                Ok(opt) => spec_func_section(old(self).spec_bytes(), old(self).spec_pos()) == Ok::<
                    (Option<FuncSectionSpec>, int),
                    DecodeError,
                >((opt.deep_view(), final(self).spec_pos())),
                Err(e) => spec_func_section(old(self).spec_bytes(), old(self).spec_pos()) == Err::<
                    (Option<FuncSectionSpec>, int),
                    DecodeError,
                >(e),
            },
    {
        if self.curr_pos >= self.nbytes {
            return Ok(None);
        }
        let code_byte = self.bytes[self.curr_pos];
        let sec_code = match SectionCode::try_from(code_byte) {
            Ok(SectionCode::Function) => SectionCode::Function,
            _ => { return Ok(None); },
        };
        self.curr_pos = self.curr_pos + 1;
        let sec_size = match self.parse_leb128_unsigned() {
            Err(e) => { return Err(e); },
            Ok(v) => v,
        };
        let nfuncs = match self.parse_leb128_unsigned() {
            Err(e) => { return Err(e); },
            Ok(v) => v,
        };
        let ghost s = self.bytes@;
        let ghost lbl = self.binary@;
        let ghost p0 = self.spec_pos();
        let mut type_indices: Vec<u64> = Vec::new();
        let mut i: u64 = 0;
        while i < nfuncs
            invariant
                self.wf(),
                self.bytes@ == s,
                self.binary@ == lbl,
                i <= nfuncs,
                type_indices@.len() == i as int,
                spec_type_indices(s, p0, nfuncs as nat) == (match spec_type_indices(
                    s,
                    self.spec_pos(),
                    (nfuncs - i) as nat,
                ) {
                    Ok(rp) => Ok::<(Seq<u64>, int), DecodeError>((type_indices@ + rp.0, rp.1)),
                    Err(e) => Err::<(Seq<u64>, int), DecodeError>(e),
                }),
            decreases nfuncs - i,
        {
            let v = match self.parse_leb128_unsigned() {
                Err(e) => { return Err(e); },
                Ok(v) => v,
            };
            let ghost prev = type_indices@;
            type_indices.push(v);
            i = i + 1;
            proof {
                assert(type_indices@ =~= prev + seq![v]);
                let tail = spec_type_indices(s, self.spec_pos(), (nfuncs - i) as nat);
                if tail is Ok {
                    vstd::seq_lib::lemma_concat_associative(prev, seq![v], tail->Ok_0.0);
                }
            }
        }
        proof {
            assert(type_indices@ + Seq::<u64>::empty() =~= type_indices@);
        }
        Ok(Some(FuncSection { sec_code, sec_size, type_indices }))
    }
}

/// Law (truncation): decoding any buffer of fewer than 8 bytes fails with
/// TooShort carrying the byte count found — never a fault, never a partial
/// module.
pub proof fn lemma_short_buffer_too_short(s: Seq<u8>)
    requires
        s.len() < 8,
    ensures
        spec_module(s) == Err::<ModuleSpec, DecodeError>(
            DecodeError::TooShort { found: s.len() as usize },
        ),
{
}

/// Law (invalid tag fails, not aborts): wherever value types are being
/// decoded, an unrecognized value-type byte at the read position fails with
/// InvalidValueType carrying that byte.
pub proof fn lemma_unknown_value_type_rejected(s: Seq<u8>, pos: int, n: nat)
    requires
        n > 0,
        0 <= pos < s.len(),
        value_type_of(s[pos]) is None,
    ensures
        spec_value_types(s, pos, n) == Err::<(Seq<ValueType>, int), DecodeError>(
            DecodeError::InvalidValueType { byte: s[pos] },
        ),
{
}

/// Law (scanning stops at an undispatched code): when the byte after the
/// preamble is a recognized section code other than Type or Function, the
/// decode succeeds with both sections absent — absence, not failure.
pub proof fn lemma_scan_stops_at_undispatched_code(s: Seq<u8>, c: SectionCode)
    requires
        s.len() > 8,
        valid_utf8(s.subrange(0, 4)),
        section_code_of(s[8]) == Some(c),
        c != SectionCode::Type,
        c != SectionCode::Function,
    ensures
        spec_module(s) == Ok::<ModuleSpec, DecodeError>(
            ModuleSpec {
                magic_number: decode_utf8(s.subrange(0, 4)),
                version: u32_le(s.subrange(4, 8)),
                type_section: None,
                func_section: None,
            },
        ),
{
}

} // verus!
