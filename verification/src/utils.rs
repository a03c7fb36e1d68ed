//! How a string view of the C interface is read.
use vstd::prelude::*;

use crate::native;

verus! {

/// How the text of a string view is to be read.
#[derive(Clone, Copy, Debug, PartialEq, Eq, Structural)]
pub enum StringViewRead {
    /// There is no text.
    Absent,
    /// The text is empty.
    Empty,
    /// The text runs up to a NUL byte.
    NulTerminated,
    /// The text is this many bytes long.
    Bytes(usize),
}

/// Decides how to read a string view from whether its pointer is null and its length: a null
/// pointer means no text with the "NUL-terminated" length and the empty text with length zero,
/// and takes no other length; with a pointer, the "NUL-terminated" length means reading up to a
/// NUL byte, any other length that many bytes.
pub fn string_view_read(data_is_null: bool, length: usize) -> (r: StringViewRead)
    requires
        data_is_null ==> length == native::WGPU_STRLEN || length == 0,
    ensures
        r == if data_is_null {
            if length == native::WGPU_STRLEN { StringViewRead::Absent } else { StringViewRead::Empty }
        } else if length == native::WGPU_STRLEN {
            StringViewRead::NulTerminated
        } else {
            StringViewRead::Bytes(length)
        },
{
    if data_is_null {
        if length == native::WGPU_STRLEN {
            StringViewRead::Absent
        } else {
            StringViewRead::Empty
        }
    } else if length == native::WGPU_STRLEN {
        StringViewRead::NulTerminated
    } else {
        StringViewRead::Bytes(length)
    }
}

} // verus!
