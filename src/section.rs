use vstd::prelude::*;
use crate::error::{Error, ErrorKind};

verus! {

/// The name under which the container lists its code section.
pub const CODE_SECTION_NAME: &'static str = "<code>";

/// The code section's offset, as the host is handed it: the start of the
/// section's file range, where that fits the host's non-negative `i32`.
pub open spec fn code_offset_of(range: Option<(u64, u64)>) -> Option<usize> {
    match range {
        Some((start, _)) => if start <= i32::MAX {
            Some(start as usize)
        } else {
            None
        },
        None => None,
    }
}

/// Turns the file range of the code section, if the container has one, into
/// the offset that translates call-stack addresses into debug-info addresses.
pub fn code_section_offset(range: Option<(u64, u64)>) -> (r: Result<usize, Error>)
    ensures
        r is Ok <==> code_offset_of(range) is Some,
        r matches Ok(o) ==> code_offset_of(range) == Some(o),
        range is None ==> (r matches Err(e) && e.kind == ErrorKind::NotFound
            && e.message@ == "Code section not found"@),
        range is Some && code_offset_of(range) is None ==> (r matches Err(e) && e.kind
            == ErrorKind::ParseError),
{
    match range {
        Some((start, _end)) => {
            if start <= 0x7fff_ffff {
                Ok(start as usize)
            } else {
                Err(Error::new(ErrorKind::ParseError, "Code section offset out of range"))
            }
        },
        None => Err(Error::new(ErrorKind::NotFound, "Code section not found")),
    }
}

/// What the container holds for one debug section that the debug-info loader
/// asks for.
pub enum SectionContents<'a> {
    /// No section of that name.
    Absent,
    /// The section's bytes, stored as they are.
    Stored(&'a [u8]),
    /// The section is stored compressed.
    Compressed,
    /// The section could not be read; the message says why.
    Malformed(String),
}

/// The bytes that the debug-info loader is given for one section, or why the
/// whole initialization fails.
pub open spec fn section_bytes_of(c: SectionContents<'_>) -> Option<Seq<u8>> {
    match c {
        SectionContents::Absent => Some(Seq::empty()),
        SectionContents::Stored(b) => Some(b@),
        SectionContents::Compressed => None,
        SectionContents::Malformed(_) => None,
    }
}

/// A missing section reads as empty, a stored one as its bytes; a compressed
/// section is refused rather than skipped, and a malformed one fails to parse.
pub fn section_bytes<'a>(c: SectionContents<'a>) -> (r: Result<&'a [u8], Error>)
    ensures
        r is Ok <==> section_bytes_of(c) is Some,
        r matches Ok(b) ==> section_bytes_of(c) == Some(b@),
        c is Compressed ==> (r matches Err(e) && e.kind == ErrorKind::Unsupported
            && e.message@ == "Compressed section not supported yet"@),
        c matches SectionContents::Malformed(m) ==> (r matches Err(e) && e.kind
            == ErrorKind::ParseError && e.message@ == m@),
{
    match c {
        SectionContents::Absent => {
            let empty: &[u8] = &[];
            Ok(empty)
        },
        SectionContents::Stored(b) => Ok(b),
        SectionContents::Compressed => Err(
            Error::new(ErrorKind::Unsupported, "Compressed section not supported yet"),
        ),
        SectionContents::Malformed(m) => Err(Error { kind: ErrorKind::ParseError, message: m }),
    }
}

} // verus!
