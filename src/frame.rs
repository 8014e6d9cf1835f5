use vstd::prelude::*;
use crate::error::{Error, ErrorKind};

verus! {

/// The name that best-effort demangling gives `name` under `language` (a
/// DWARF language code), or under the heuristics used when none is known.
pub uninterp spec fn demangled_of(name: Seq<char>, language: Option<u16>) -> Seq<char>;

/// Relies on addr2line::demangle_auto, which demangles `name` with the scheme
/// of `language` (Rust's, then C++'s, when no language is given) and returns
/// the name unchanged where demangling fails or is not needed. The result
/// depends on the two arguments alone.
#[verifier::external_body]
fn demangle_name(name: &str, language: Option<u16>) -> (r: String)
    ensures
        r@ == demangled_of(name@, language),
{
    addr2line::demangle_auto(std::borrow::Cow::Borrowed(name), language.map(gimli::DwLang))
        .into_owned()
}

/// The innermost frame that the debug-info context found for an address, as
/// plain values.
pub struct RawFrame {
    /// The function's name as stored in the debug info, before demangling.
    pub name: Option<String>,
    /// The DWARF language code of the function's compilation unit.
    pub language: Option<u16>,
    pub file: Option<String>,
    pub line: Option<u32>,
    pub column: Option<u32>,
}

/// What a lookup of one address in the debug-info context came to.
pub enum FrameLookup {
    /// The debug data for the address lies outside the module.
    SplitDebugData,
    /// The debug info could not be read; the message says why.
    Failed(String),
    /// No frame covers the address.
    NoFrame,
    /// The first (innermost) of the frames that cover the address.
    Innermost(RawFrame),
}

/// The frame handed to the host: symbol and file are empty, line and column
/// zero, where the debug info has none.
pub struct FrameRecord {
    pub symbol: String,
    pub location: String,
    pub line: u32,
    pub column: u32,
}

pub open spec fn symbol_of(f: RawFrame) -> Seq<char> {
    match f.name {
        Some(n) => demangled_of(n@, f.language),
        None => Seq::empty(),
    }
}

pub open spec fn location_of(f: RawFrame) -> Seq<char> {
    match f.file {
        Some(p) => p@,
        None => Seq::empty(),
    }
}

pub open spec fn line_of(f: RawFrame) -> u32 {
    match f.line {
        Some(l) => l,
        None => 0,
    }
}

pub open spec fn column_of(f: RawFrame) -> u32 {
    match f.column {
        Some(c) => c,
        None => 0,
    }
}

/// `rec` is the record that reports frame `f`.
pub open spec fn records(f: RawFrame, rec: FrameRecord) -> bool {
    &&& rec.symbol@ == symbol_of(f)
    &&& rec.location@ == location_of(f)
    &&& rec.line == line_of(f)
    &&& rec.column == column_of(f)
}

/// `r` is the one outcome, a frame or an error, that reports lookup `l`.
pub open spec fn reports(l: FrameLookup, r: Result<FrameRecord, Error>) -> bool {
    match l {
        FrameLookup::SplitDebugData => r matches Err(e) && e.kind == ErrorKind::Unsupported
            && e.message@ == "Split debug data not supported"@,
        FrameLookup::Failed(m) => r matches Err(e) && e.kind == ErrorKind::ParseError
            && e.message@ == m@,
        FrameLookup::NoFrame => r matches Err(e) && e.kind == ErrorKind::NotFound
            && e.message@ == "No frame found"@,
        FrameLookup::Innermost(f) => r matches Ok(rec) && records(f, rec),
    }
}

/// Builds the record of a frame: the symbol demangled where it can be, and
/// empty text or zero for what the debug info leaves out.
pub fn frame_record(f: RawFrame) -> (rec: FrameRecord)
    ensures
        records(f, rec),
{
    let symbol = match &f.name {
        Some(n) => demangle_name(n.as_str(), f.language),
        None => String::new(),
    };
    let location = match f.file {
        Some(p) => p,
        None => String::new(),
    };
    let line: u32 = match f.line {
        Some(l) => l,
        None => 0,
    };
    let column: u32 = match f.column {
        Some(c) => c,
        None => 0,
    };
    FrameRecord { symbol, location, line, column }
}

/// Turns a lookup into exactly one frame or one error.
pub fn frame_outcome(l: FrameLookup) -> (r: Result<FrameRecord, Error>)
    ensures
        reports(l, r),
{
    match l {
        FrameLookup::SplitDebugData => Err(
            Error::new(ErrorKind::Unsupported, "Split debug data not supported"),
        ),
        FrameLookup::Failed(m) => Err(Error { kind: ErrorKind::ParseError, message: m }),
        FrameLookup::NoFrame => Err(Error::new(ErrorKind::NotFound, "No frame found")),
        FrameLookup::Innermost(f) => Ok(frame_record(f)),
    }
}

} // verus!
