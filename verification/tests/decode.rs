use wasm_decoder::error::DecodeError;
use wasm_decoder::module::parser::Parser;
use wasm_decoder::module::section::FuncSection;
use wasm_decoder::module::section::SectionCode;
use wasm_decoder::module::section::TypeSection;
use wasm_decoder::module::types::FuncType;
use wasm_decoder::module::types::ValueType;
use wasm_decoder::module::Module;

fn preamble() -> Vec<u8> {
    vec![0x00, 0x61, 0x73, 0x6d, 0x01, 0x00, 0x00, 0x00]
}

#[test]
fn minimal() {
    let binary = wat::parse_str("(module)").unwrap();
    let module = Module::decode_raw_bytes("#raw", &binary).unwrap();

    assert_eq!(module.magic_number, "\0asm", "{:#?}", module);
    assert_eq!(module.version, 1u32, "{:#?}", module);
}

#[test]
fn functions() {
    let binary =
        wat::parse_str("(module (func (param i32 i64) (result i64) (local.get 1)))").unwrap();
    let module = Module::decode_raw_bytes("#raw", &binary).unwrap();
    let type_section = Some(TypeSection {
        sec_code: SectionCode::Type,
        sec_size: 0x07,
        func_types: vec![FuncType {
            params: vec![ValueType::I32, ValueType::I64],
            results: vec![ValueType::I64],
        }],
    });

    assert_eq!(module.magic_number, "\0asm", "{:#?}", module);
    assert_eq!(module.version, 1u32, "{:#?}", module);
    assert_eq!(module.type_section, type_section);
}

#[test]
fn leb128_unsigned() {
    let mut bytes: &[u8] = &[0xcb, 0xbe, 0xf1, 0x23];
    let mut parser = Parser::new("#raw", bytes);
    let mut i = parser.parse_leb128_unsigned();

    assert_eq!(i, Ok(75259723), "{:#?}", i);
    assert_eq!(parser.position(), 4);

    bytes = &[0x02, 0x00, 0x00];
    parser = Parser::new("#raw", bytes);
    i = parser.parse_leb128_unsigned();

    assert_eq!(i, Ok(2), "{:#?}", i);
    assert_eq!(parser.position(), 1);
}

#[test]
fn leb128_largest_and_overflow() {
    // 0xff * 9 then 0x01: exactly u64::MAX in ten bytes.
    let max: &[u8] = &[0xff, 0xff, 0xff, 0xff, 0xff, 0xff, 0xff, 0xff, 0xff, 0x01];
    let mut parser = Parser::new("#raw", max);
    assert_eq!(parser.parse_leb128_unsigned(), Ok(u64::MAX));
    assert_eq!(parser.position(), 10);

    // A tenth byte above 0x01 pushes the value past 64 bits.
    let over: &[u8] = &[0xff, 0xff, 0xff, 0xff, 0xff, 0xff, 0xff, 0xff, 0xff, 0x02];
    parser = Parser::new("#raw", over);
    assert_eq!(
        parser.parse_leb128_unsigned(),
        Err(DecodeError::InvalidVarint { offset: 0 })
    );

    // No terminating byte before the buffer ends.
    let unterminated: &[u8] = &[0x80, 0x80];
    parser = Parser::new("#raw", unterminated);
    assert_eq!(
        parser.parse_leb128_unsigned(),
        Err(DecodeError::InvalidVarint { offset: 0 })
    );
}

#[test]
fn minimal_raw_preamble() {
    let bytes = preamble();
    let module = Module::decode_raw_bytes("#raw", &bytes).unwrap();

    assert_eq!(module.magic_number, "\0asm");
    assert_eq!(module.version, 1u32);
    assert!(module.type_section.is_none());
    assert!(module.func_section.is_none());
}

#[test]
fn truncated_buffers_fail_with_too_short() {
    let bytes = preamble();
    for len in 0..8 {
        let prefix = &bytes[..len];
        let err = Module::decode_raw_bytes("#raw", prefix).unwrap_err();
        assert_eq!(err, DecodeError::TooShort { found: len });
    }
}

#[test]
fn type_section_happy_path() {
    let mut bytes = preamble();
    bytes.extend_from_slice(&[0x01, 0x07, 0x01, 0x60, 0x02, 0x7f, 0x7e, 0x01, 0x7e]);
    let module = Module::decode_raw_bytes("#raw", &bytes).unwrap();

    let expected = TypeSection {
        sec_code: SectionCode::Type,
        sec_size: 7,
        func_types: vec![FuncType {
            params: vec![ValueType::I32, ValueType::I64],
            results: vec![ValueType::I64],
        }],
    };
    assert_eq!(module.type_section, Some(expected));
    assert!(module.func_section.is_none());
}

#[test]
fn empty_param_and_result_lists() {
    let mut bytes = preamble();
    bytes.extend_from_slice(&[0x01, 0x04, 0x01, 0x60, 0x00, 0x00]);
    let module = Module::decode_raw_bytes("#raw", &bytes).unwrap();

    let expected = TypeSection {
        sec_code: SectionCode::Type,
        sec_size: 4,
        func_types: vec![FuncType { params: vec![], results: vec![] }],
    };
    assert_eq!(module.type_section, Some(expected));
}

#[test]
fn func_section_indices_in_order() {
    let mut bytes = preamble();
    bytes.extend_from_slice(&[0x01, 0x07, 0x01, 0x60, 0x02, 0x7f, 0x7e, 0x01, 0x7e]);
    bytes.extend_from_slice(&[0x03, 0x02, 0x01, 0x00]);
    let module = Module::decode_raw_bytes("#raw", &bytes).unwrap();

    let expected = FuncSection {
        sec_code: SectionCode::Function,
        sec_size: 2,
        type_indices: vec![0],
    };
    assert_eq!(module.func_section, Some(expected));
}

#[test]
fn invalid_value_type_byte_is_an_error() {
    let mut bytes = preamble();
    bytes.extend_from_slice(&[0x01, 0x07, 0x01, 0x60, 0x02, 0x7d, 0x7e, 0x01, 0x7e]);
    let err = Module::decode_raw_bytes("#raw", &bytes).unwrap_err();
    assert_eq!(err, DecodeError::InvalidValueType { byte: 0x7d });
}

#[test]
fn invalid_type_marker_is_an_error() {
    let mut bytes = preamble();
    bytes.extend_from_slice(&[0x01, 0x07, 0x01, 0x61, 0x02, 0x7f, 0x7e, 0x01, 0x7e]);
    let err = Module::decode_raw_bytes("#raw", &bytes).unwrap_err();
    assert_eq!(err, DecodeError::InvalidTypeMarker { byte: 0x61, offset: 11 });
}

#[test]
fn truncated_section_body_is_unexpected_eof() {
    let mut bytes = preamble();
    bytes.extend_from_slice(&[0x01, 0x07, 0x01]);
    let err = Module::decode_raw_bytes("#raw", &bytes).unwrap_err();
    assert_eq!(err, DecodeError::UnexpectedEof { offset: 11 });
}

#[test]
fn unterminated_section_size_is_invalid_varint() {
    let mut bytes = preamble();
    bytes.extend_from_slice(&[0x01, 0x80]);
    let err = Module::decode_raw_bytes("#raw", &bytes).unwrap_err();
    assert_eq!(err, DecodeError::InvalidVarint { offset: 9 });
}

#[test]
fn scan_stops_at_undispatched_code() {
    // A Custom section right after the preamble: recognized, not dispatched.
    let mut bytes = preamble();
    bytes.extend_from_slice(&[0x00, 0x01, 0x00]);
    let module = Module::decode_raw_bytes("#raw", &bytes).unwrap();
    assert!(module.type_section.is_none());
    assert!(module.func_section.is_none());
}

#[test]
fn scan_stops_at_unrecognized_code() {
    let mut bytes = preamble();
    bytes.extend_from_slice(&[0xff, 0x00]);
    let module = Module::decode_raw_bytes("#raw", &bytes).unwrap();
    assert!(module.type_section.is_none());
    assert!(module.func_section.is_none());
}

#[test]
fn invalid_magic_is_an_error() {
    let bytes = vec![0xff, 0xfe, 0xfd, 0xfc, 0x01, 0x00, 0x00, 0x00];
    let err = Module::decode_raw_bytes("#raw", &bytes).unwrap_err();
    assert_eq!(err, DecodeError::InvalidMagic);
}

#[test]
fn non_ascii_magic_decodes_as_text() {
    // 0xc3 0xa9 is a two-byte UTF-8 scalar: valid text that is not "\0asm".
    let bytes = vec![0xc3, 0xa9, 0x61, 0x62, 0x2a, 0x00, 0x00, 0x00];
    let module = Module::decode_raw_bytes("#raw", &bytes).unwrap();
    let expected = String::from_utf8(vec![0xc3, 0xa9, 0x61, 0x62]).unwrap();
    assert_eq!(module.magic_number, expected);
    assert_eq!(module.version, 42);
}

#[test]
fn version_is_little_endian() {
    let bytes = vec![0x00, 0x61, 0x73, 0x6d, 0x04, 0x03, 0x02, 0x01];
    let module = Module::decode_raw_bytes("#raw", &bytes).unwrap();
    assert_eq!(module.version, 0x01020304);
}

#[test]
fn tag_decoders_cover_the_closed_sets() {
    assert_eq!(SectionCode::try_from(0x00), Ok(SectionCode::Custom));
    assert_eq!(SectionCode::try_from(0x01), Ok(SectionCode::Type));
    assert_eq!(SectionCode::try_from(0x03), Ok(SectionCode::Function));
    assert_eq!(SectionCode::try_from(0x0c), Ok(SectionCode::DataCount));
    assert_eq!(
        SectionCode::try_from(0x0d),
        Err(DecodeError::UnknownSectionCode { code: 0x0d })
    );
    assert_eq!(
        SectionCode::try_from(0xff),
        Err(DecodeError::UnknownSectionCode { code: 0xff })
    );

    assert_eq!(ValueType::try_from(0x7f), Ok(ValueType::I32));
    assert_eq!(ValueType::try_from(0x7e), Ok(ValueType::I64));
    assert_eq!(
        ValueType::try_from(0x7d),
        Err(DecodeError::InvalidValueType { byte: 0x7d })
    );
}

#[test]
fn parse_leaves_undispatched_bytes_unread() {
    // A Custom section right after the preamble: scanning stops at offset 8
    // and its bytes stay unconsumed.
    let mut bytes = preamble();
    bytes.extend_from_slice(&[0x00, 0x01, 0x00]);
    let mut parser = Parser::new("#raw", &bytes);
    parser.parse().unwrap();
    assert_eq!(parser.position(), 8);
    assert_eq!(parser.remaining(), 3);

    // Both recognized sections present: the cursor ends just past them.
    let mut full = preamble();
    full.extend_from_slice(&[0x01, 0x07, 0x01, 0x60, 0x02, 0x7f, 0x7e, 0x01, 0x7e]);
    full.extend_from_slice(&[0x03, 0x02, 0x01, 0x00]);
    full.extend_from_slice(&[0x0a, 0x00]);
    let mut parser = Parser::new("#raw", &full);
    parser.parse().unwrap();
    assert_eq!(parser.position(), 21);
    assert_eq!(parser.remaining(), 2);
}

#[test]
fn cursor_queries_track_position() {
    let bytes: &[u8] = &[0x80, 0x01, 0x05];
    let mut parser = Parser::new("#raw", bytes);
    assert_eq!(parser.position(), 0);
    assert_eq!(parser.remaining(), 3);
    assert_eq!(parser.parse_leb128_unsigned(), Ok(128));
    assert_eq!(parser.position(), 2);
    assert_eq!(parser.remaining(), 1);
}
