//! Quantised state frames: base64 text carrying one byte per cell.
//!
//! Turning a byte `u` into the activation `(u - zero) * scale` is floating
//! point and belongs to the caller.
use vstd::prelude::*;
use crate::text::{owned, push_str, trim_ws, trimmed};

verus! {

/// What the `base64` crate's standard engine (RFC 4648 alphabet, with
/// padding) decodes a text to, or `None` when it refuses the text.
pub uninterp spec fn base64_standard_decode(s: Seq<char>) -> Option<Seq<u8>>;

/// The `base64` crate's description (its `Display` text) of why its standard
/// engine refuses a text.
pub uninterp spec fn base64_refusal_text(s: Seq<char>) -> Seq<char>;

/// Decodes standard base64. Calls `Engine::decode` of the `base64` crate on
/// `general_purpose::STANDARD`; its result, and on refusal the text of its
/// error, are named.
#[verifier::external_body]
fn decode_base64(s: &str) -> (r: Result<Vec<u8>, String>)
    ensures
        match r {
            Ok(b) => base64_standard_decode(s@) == Some(b@),
            Err(t) => base64_standard_decode(s@) is None && t@ == base64_refusal_text(s@),
        },
{
    match base64::Engine::decode(&base64::engine::general_purpose::STANDARD, s) {
        Ok(b) => Ok(b),
        Err(e) => Err(e.to_string()),
    }
}

/// Number of cells of an `r × c` frame, 0 when negative.
pub open spec fn frame_cells(r: i64, c: i64) -> int {
    if r * c < 0 {
        0
    } else {
        r * c
    }
}

/// The first `min(cells, len)` bytes: a frame's cells, cut short when the
/// buffer is shorter than the grid.
pub fn quant8_take(bytes: Vec<u8>, r: i64, c: i64) -> (out: Vec<u8>)
    requires
        i64::MIN <= r * c <= i64::MAX,
    ensures
        out@ == bytes@.take(
            if frame_cells(r, c) < bytes@.len() {
                frame_cells(r, c)
            } else {
                bytes@.len() as int
            },
        ),
{
    let prod = r * c;
    let n: i64 = if prod < 0 {
        0
    } else {
        prod
    };
    let mut bytes = bytes;
    if (n as u64) < (bytes.len() as u64) {
        bytes.truncate(n as usize);
    }
    bytes
}

/// The cell bytes of one quantised frame: the trimmed text decoded as
/// standard base64, cut to the `r × c` grid; on refusal `base64 decode: `
/// and the decoder's description of why.
pub fn quant8_frame_bytes(b64: &str, r: i64, c: i64) -> (out: Result<Vec<u8>, String>)
    requires
        i64::MIN <= r * c <= i64::MAX,
    ensures
        match out {
            Ok(v) => match base64_standard_decode(trimmed(b64@)) {
                Some(b) => v@ == b.take(
                    if frame_cells(r, c) < b.len() {
                        frame_cells(r, c)
                    } else {
                        b.len() as int
                    },
                ),
                None => false,
            },
            Err(t) => base64_standard_decode(trimmed(b64@)) is None && t@ == "base64 decode: "@
                + base64_refusal_text(trimmed(b64@)),
        },
{
    let t = trim_ws(b64);
    match decode_base64(t.as_str()) {
        Ok(bytes) => Ok(quant8_take(bytes, r, c)),
        Err(e) => {
            let mut m = owned("base64 decode: ");
            push_str(&mut m, e.as_str());
            Err(m)
        },
    }
}

} // verus!
