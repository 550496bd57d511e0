//! Buffers and scalar kinds for the thin ImGui layer of the foreign side.
use vstd::prelude::*;
use vstd::utf8::*;

use crate::error::owned_text;
use crate::string::{first_nul, lemma_first_nul, find_nul, nul_terminated, str_from_utf8, string_into_bytes};
use vstd::slice::slice_subrange;

verus! {

pub const IMGUITHIN_DATATYPE_S8: u32 = 0;
pub const IMGUITHIN_DATATYPE_U8: u32 = 1;
pub const IMGUITHIN_DATATYPE_S16: u32 = 2;
pub const IMGUITHIN_DATATYPE_U16: u32 = 3;
pub const IMGUITHIN_DATATYPE_S32: u32 = 4;
pub const IMGUITHIN_DATATYPE_U32: u32 = 5;
pub const IMGUITHIN_DATATYPE_S64: u32 = 6;
pub const IMGUITHIN_DATATYPE_U64: u32 = 7;

/// Scalars that the foreign widgets accept, with the tag that names each.
pub trait DataType {
    fn enum_value() -> u32;
}

impl DataType for i8 {
    fn enum_value() -> u32 {
        IMGUITHIN_DATATYPE_S8
    }
}

impl DataType for u8 {
    fn enum_value() -> u32 {
        IMGUITHIN_DATATYPE_U8
    }
}

impl DataType for i16 {
    fn enum_value() -> u32 {
        IMGUITHIN_DATATYPE_S16
    }
}

impl DataType for u16 {
    fn enum_value() -> u32 {
        IMGUITHIN_DATATYPE_U16
    }
}

impl DataType for i32 {
    fn enum_value() -> u32 {
        IMGUITHIN_DATATYPE_S32
    }
}

impl DataType for u32 {
    fn enum_value() -> u32 {
        IMGUITHIN_DATATYPE_U32
    }
}

impl DataType for i64 {
    fn enum_value() -> u32 {
        IMGUITHIN_DATATYPE_S64
    }
}

impl DataType for u64 {
    fn enum_value() -> u32 {
        IMGUITHIN_DATATYPE_U64
    }
}

/// The edit buffer of a text input: the text, zeros up to `size` bytes, and
/// a terminator.
pub open spec fn edit_buffer(text: Seq<u8>, size: nat) -> Seq<u8> {
    let padded = if text.len() < size { size } else { text.len() };
    text + Seq::new((padded - text.len()) as nat, |i: int| 0u8) + seq![0u8]
}

/// Builds the edit buffer handed to the foreign text input from the text
/// shown and the room asked for.
pub fn input_text_buffer(string: String, size: usize) -> (r: Vec<u8>)
    requires
        encode_utf8(string@).len() < usize::MAX,
        size < usize::MAX,
    ensures
        r@ == edit_buffer(encode_utf8(string@), size as nat),
{
    let ghost text = encode_utf8(string@);
    let mut buf = string_into_bytes(string);
    let orig_len = buf.len();
    let padded = if orig_len < size { size } else { orig_len };
    while buf.len() < padded
        invariant
            orig_len <= buf@.len() <= padded,
            orig_len == text.len(),
            padded == if text.len() < size { size as nat } else { text.len() },
            buf@ == text + Seq::new((buf@.len() - text.len()) as nat, |i: int| 0u8),
        decreases padded - buf@.len(),
    {
        buf.push(0);
        assert(buf@ =~= text + Seq::new((buf@.len() - text.len()) as nat, |i: int| 0u8));
    }
    buf.push(0);
    assert(buf@ =~= edit_buffer(text, size as nat));
    buf
}

/// The length of the text in an edit buffer after the foreign text input ran:
/// up to the first NUL where it reports a change, else the length it had.
pub open spec fn edited_len(buf: Seq<u8>, changed: bool, orig_len: nat) -> int {
    if changed { first_nul(buf) } else { orig_len as int }
}

/// Reads the text back from the edit buffer of the foreign text input: `None`
/// where the buffer broke its contract (no terminator after a change, or text
/// that is not valid UTF-8).
pub fn input_text_result(buf: &[u8], changed: bool, orig_len: usize) -> (r: Option<String>)
    requires
        orig_len <= buf@.len(),
    ensures
        r is Some <==> (changed ==> nul_terminated(buf@)) && valid_utf8(
            buf@.take(edited_len(buf@, changed, orig_len as nat)),
        ),
        r matches Some(s) ==> encode_utf8(s@) == buf@.take(
            edited_len(buf@, changed, orig_len as nat),
        ),
{
    let new_len = if changed {
        match find_nul(buf) {
            Some(i) => {
                proof {
                    lemma_first_nul(buf@, i as int);
                }
                i
            },
            None => {
                return None;
            },
        }
    } else {
        orig_len
    };
    let text = slice_subrange(buf, 0, new_len);
    assert(text@ =~= buf@.take(edited_len(buf@, changed, orig_len as nat)));
    match str_from_utf8(text) {
        Some(s) => {
            let r = owned_text(s);
            Some(r)
        },
        None => None,
    }
}

} // verus!
