use vstd::prelude::*;
use vstd::string::*;
use vstd::utf8::{
    decode_utf8, encode_utf8, encode_utf8_decode_utf8, encode_utf8_valid_utf8,
    is_char_boundary, is_char_boundary_start_end_of_seq,
};

verus! {

/// Names whose UTF-8 encoding is longer than this many bytes are shortened
/// for display.
pub const DISPLAY_NAME_MAX: usize = 25;

/// At most this many bytes of a shortened name's UTF-8 encoding are kept
/// before the ellipsis.
pub const DISPLAY_NAME_KEPT: usize = 22;

/// The label shown when no device is selected.
pub const NO_DEVICE_LABEL: &'static str = "Select a device";

/// The largest character boundary of `bytes` that is at most `i`.
pub open spec fn last_boundary_at_most(bytes: Seq<u8>, i: int) -> int
    decreases i,
{
    if i <= 0 {
        0
    } else if is_char_boundary(bytes, i) {
        i
    } else {
        last_boundary_at_most(bytes, i - 1)
    }
}

/// A device name as shown. A name of at most `DISPLAY_NAME_MAX` bytes is shown
/// whole. A longer one keeps the characters that fit in its first
/// `DISPLAY_NAME_KEPT` bytes, never a part of one, followed by `...`.
pub open spec fn display_text(name: Seq<char>) -> Seq<char> {
    let bytes = encode_utf8(name);
    if bytes.len() > DISPLAY_NAME_MAX {
        decode_utf8(bytes.subrange(0, last_boundary_at_most(bytes, DISPLAY_NAME_KEPT as int)))
            + seq!['.', '.', '.']
    } else {
        name
    }
}

/// Shortens a long device name for display, cutting only between characters.
pub fn display_name(name: &str) -> (r: String)
    ensures
        r@ == display_text(name@),
{
    if name.as_bytes().len() > DISPLAY_NAME_MAX {
        let ghost bytes = name.spec_bytes();
        proof {
            encode_utf8_valid_utf8(name@);
            is_char_boundary_start_end_of_seq(bytes);
        }
        let mut cut: usize = DISPLAY_NAME_KEPT;
        while cut > 0 && !name.is_char_boundary(cut)
            invariant
                cut <= DISPLAY_NAME_KEPT,
                bytes == name.spec_bytes(),
                bytes == encode_utf8(name@),
                bytes.len() > DISPLAY_NAME_MAX,
                last_boundary_at_most(bytes, cut as int) == last_boundary_at_most(
                    bytes,
                    DISPLAY_NAME_KEPT as int,
                ),
            decreases cut,
        {
            cut -= 1;
        }
        assert(is_char_boundary(bytes, cut as int));
        let (head, _) = name.split_at(cut);
        proof {
            encode_utf8_decode_utf8(head@);
            reveal_strlit("...");
            assert("..."@ =~= seq!['.', '.', '.']);
        }
        let mut r = String::from_str(head);
        r.append("...");
        r
    } else {
        String::from_str(name)
    }
}

} // verus!
