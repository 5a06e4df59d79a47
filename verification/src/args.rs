use vstd::prelude::*;
use vstd::string::StringSliceAdditionalSpecFns;

use crate::error::Error;
use crate::handle::Handle;
use crate::text::{c_string, c_string_of};

verus! {

/// Text alignment: left.
pub const ALIGN_LEFT: i32 = 0;
/// Text alignment: centered.
pub const ALIGN_CENTER: i32 = 1;
/// Text alignment: right.
pub const ALIGN_RIGHT: i32 = 2;

/// Text decoration: none.
pub const DECOR_NONE: i32 = 0;
/// Text decoration: underline.
pub const DECOR_UNDERLINE: i32 = 1;
/// Text decoration: strikethrough.
pub const DECOR_STRIKETHROUGH: i32 = 2;
/// Text decoration: overline.
pub const DECOR_OVERLINE: i32 = 3;

/// Permission: print.
pub const PERM_PRINT: i32 = 4;
/// Permission: modify content.
pub const PERM_MODIFY_CONTENT: i32 = 8;
/// Permission: copy text.
pub const PERM_COPY_TEXT: i32 = 16;
/// Permission: add annotations.
pub const PERM_ADD_ANNOTATIONS: i32 = 32;
/// Permission: fill forms.
pub const PERM_FILL_FORMS: i32 = 256;
/// Permission: extract text.
pub const PERM_EXTRACT_TEXT: i32 = 512;
/// Permission: assemble the document.
pub const PERM_ASSEMBLE: i32 = 1024;
/// Permission: print in high quality.
pub const PERM_PRINT_HIGH_QUALITY: i32 = 2048;
/// Every permission.
pub const PERM_ALL: i32 = -1;

/// How a fill or stroke is handed to the engine: its colour, and whether
/// it is drawn at all (1) or not (0). An absent paint is black and off.
pub open spec fn paint_args(color: Option<(u8, u8, u8)>) -> (u8, u8, u8, i32) {
    match color {
        Some((r, g, b)) => (r, g, b, 1),
        None => (0, 0, 0, 0),
    }
}

/// A given colour, whatever it is (black included), is drawn in that
/// colour with the flag on; an absent one is off.
pub proof fn paint_is_on_exactly_when_given(r: u8, g: u8, b: u8)
    ensures
        paint_args(Some((r, g, b))) == (r, g, b, 1i32),
        paint_args(Some((r, g, b))).3 == 1,
        paint_args(None).3 == 0,
{
}

/// The colour and on/off flag handed to the engine for an optional fill or
/// stroke of a rectangle or an ellipse.
pub fn paint(color: Option<(u8, u8, u8)>) -> (r: (u8, u8, u8, i32))
    ensures
        r == paint_args(color),
        color matches Some((cr, cg, cb)) ==> r == (cr, cg, cb, 1i32),
        color is None ==> r == (0u8, 0u8, 0u8, 0i32),
{
    match color {
        Some((r, g, b)) => (r, g, b, 1),
        None => (0, 0, 0, 0),
    }
}

/// The encryption version handed to the engine: 0 for AES-256 (PDF 2.0),
/// 1 for AES-128 (PDF 1.5 and later).
pub fn encryption_version(aes256: bool) -> (v: i32)
    ensures
        v == (if aes256 {
            0i32
        } else {
            1i32
        }),
{
    if aes256 {
        0
    } else {
        1
    }
}

/// A flag as the engine takes it: 1 for true, 0 for false.
pub fn c_flag(b: bool) -> (v: i32)
    ensures
        v == (if b {
            1i32
        } else {
            0i32
        }),
{
    if b {
        1
    } else {
        0
    }
}

/// A length or count as the engine takes it, a C `int`: the value modulo
/// 2^32, read as a signed number.
pub fn c_count(n: usize) -> (v: i32)
    ensures
        v == n as i32,
{
    n as i32
}

/// A pixel dimension as the engine takes it, a C `int`: the value modulo
/// 2^32, read as a signed number.
pub fn c_dimension(n: u32) -> (v: i32)
    ensures
        v == n as i32,
{
    n as i32
}

/// The length of a buffer that the engine reported as `size`.
pub fn buffer_length(size: i32) -> (n: usize)
    ensures
        n == size as usize,
{
    size as usize
}

/// The raw style handed to the engine with a piece of text: the style's
/// handle, or null for the default style.
pub fn style_raw(style: Option<&Handle>) -> (raw: usize)
    ensures
        raw == match style {
            Some(h) => h@,
            None => 0usize,
        },
{
    match style {
        Some(h) => h.raw(),
        None => 0,
    }
}

/// Encodes an optional string as a C string; an absent string stays absent
/// (a null pointer for the engine).
pub fn optional_c_string(s: Option<&str>) -> (r: Result<Option<Vec<u8>>, Error>)
    ensures
        match s {
            None => r == Ok::<Option<Vec<u8>>, Error>(None),
            Some(s) => match r {
                Ok(Some(bytes)) => c_string_of(s.spec_bytes()) == Ok::<Seq<u8>, Seq<char>>(bytes@),
                Ok(None) => false,
                Err(e) => c_string_of(s.spec_bytes()) == Err::<Seq<u8>, Seq<char>>(e@),
            },
        },
{
    match s {
        None => Ok(None),
        Some(s) => match c_string(s) {
            Ok(bytes) => Ok(Some(bytes)),
            Err(e) => Err(e),
        },
    }
}

} // verus!
