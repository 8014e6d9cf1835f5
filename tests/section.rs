use wasm_symbolicate::error::ErrorKind;
use wasm_symbolicate::section::{code_section_offset, section_bytes, SectionContents, CODE_SECTION_NAME};

#[test]
fn code_section_name() {
    assert_eq!(CODE_SECTION_NAME, "<code>");
}

#[test]
fn code_section_offset_is_range_start() {
    assert_eq!(code_section_offset(Some((1234, 5678))).unwrap(), 1234);
    assert_eq!(code_section_offset(Some((0, 0))).unwrap(), 0);
}

#[test]
fn missing_code_section_is_not_found() {
    let e = code_section_offset(None).unwrap_err();
    assert_eq!(e.kind, ErrorKind::NotFound);
    assert_eq!(e.message(), "Code section not found");
}

#[test]
fn code_section_offset_beyond_i32_is_parse_error() {
    let e = code_section_offset(Some((0x8000_0000, 0x8000_0010))).unwrap_err();
    assert_eq!(e.kind, ErrorKind::ParseError);
    assert_eq!(code_section_offset(Some((0x7fff_ffff, 0x8000_0000))).unwrap(), 0x7fff_ffff);
}

#[test]
fn absent_section_reads_as_empty() {
    assert_eq!(section_bytes(SectionContents::Absent).unwrap(), &[] as &[u8]);
}

#[test]
fn stored_section_reads_as_its_bytes() {
    let data = [1u8, 2, 3];
    assert_eq!(section_bytes(SectionContents::Stored(&data)).unwrap(), &[1u8, 2, 3]);
}

#[test]
fn compressed_section_is_unsupported() {
    let e = section_bytes(SectionContents::Compressed).unwrap_err();
    assert_eq!(e.kind, ErrorKind::Unsupported);
    assert_eq!(e.message(), "Compressed section not supported yet");
}

#[test]
fn malformed_section_is_parse_error() {
    let e = section_bytes(SectionContents::Malformed("bad header".to_string())).unwrap_err();
    assert_eq!(e.kind, ErrorKind::ParseError);
    assert_eq!(e.message(), "bad header");
}
