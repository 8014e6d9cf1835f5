use wasm_symbolicate::error::ErrorKind;
use wasm_symbolicate::frame::{frame_outcome, frame_record, FrameLookup, RawFrame};

const DW_LANG_RUST: u16 = 0x1c;
const DW_LANG_C99: u16 = 0x0c;

fn raw(name: Option<&str>, language: Option<u16>) -> RawFrame {
    RawFrame {
        name: name.map(|s| s.to_string()),
        language,
        file: Some("src/lib.rs".to_string()),
        line: Some(42),
        column: Some(7),
    }
}

#[test]
fn frame_reports_file_line_and_column() {
    let rec = frame_outcome(FrameLookup::Innermost(raw(None, None))).ok().unwrap();
    assert_eq!(rec.location, "src/lib.rs");
    assert_eq!(rec.line, 42);
    assert_eq!(rec.column, 7);
    assert_eq!(rec.symbol, "");
}

#[test]
fn rust_symbol_is_demangled() {
    let rec = frame_record(raw(Some("_ZN3foo3bar17h0123456789abcdefE"), Some(DW_LANG_RUST)));
    assert_eq!(rec.symbol, "foo::bar");
}

#[test]
fn symbol_without_language_is_demangled_by_heuristics() {
    let rec = frame_record(raw(Some("_ZN3foo3barE"), None));
    assert_eq!(rec.symbol, "foo::bar");
}

#[test]
fn undemangled_symbol_falls_back_to_raw_name() {
    let rec = frame_record(raw(Some("_ZN3foo3barE"), Some(DW_LANG_C99)));
    assert_eq!(rec.symbol, "_ZN3foo3barE");
    let rec = frame_record(raw(Some("plain_name"), Some(DW_LANG_RUST)));
    assert_eq!(rec.symbol, "plain_name");
}

#[test]
fn missing_location_fields_default() {
    let rec = frame_record(RawFrame { name: None, language: None, file: None, line: None, column: None });
    assert_eq!(rec.symbol, "");
    assert_eq!(rec.location, "");
    assert_eq!(rec.line, 0);
    assert_eq!(rec.column, 0);
}

#[test]
fn uncovered_address_is_not_found() {
    let e = frame_outcome(FrameLookup::NoFrame).err().unwrap();
    assert_eq!(e.kind, ErrorKind::NotFound);
    assert_eq!(e.message(), "No frame found");
}

#[test]
fn split_debug_data_is_unsupported() {
    let e = frame_outcome(FrameLookup::SplitDebugData).err().unwrap();
    assert_eq!(e.kind, ErrorKind::Unsupported);
    assert_eq!(e.message(), "Split debug data not supported");
}

#[test]
fn failed_lookup_is_parse_error() {
    let e = frame_outcome(FrameLookup::Failed("bad abbreviation".to_string())).err().unwrap();
    assert_eq!(e.kind, ErrorKind::ParseError);
    assert_eq!(e.message(), "bad abbreviation");
}
